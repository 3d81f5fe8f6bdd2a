use vstd::prelude::*;

use crate::error::ParseError;
use crate::origin::{origin_of, Origin};
use crate::utils::{chars_of, code_point_of, find_char, find_from, lemma_find_from, utf_code_to_char};

verus! {

/// A cross reference between two characters
#[derive(Debug, Clone, Copy, PartialEq, Eq)]
pub struct XRef {
    pub ref_type: RefType,
    pub left: XRefItem,
    pub right: XRefItem,
}

/// One side of a cross reference: a character and the origin it is tagged with, if any
#[derive(Default, Debug, Clone, Copy, PartialEq, Eq)]
pub struct XRefItem {
    pub literal: char,
    pub src_identifier: Option<Origin>,
}

/// Type of cross reference
#[derive(Debug, Clone, Copy, PartialEq, Eq)]
pub enum RefType {
    /// Glyphs are the same for different characters
    Full,
    /// Deliberately not unified characters
    FullNoCognate,
    /// Characters are unifiable variants
    UnifiableVariants,
}

/// The relation that an operator character denotes.
pub open spec fn ref_type_of(c: char) -> Option<RefType> {
    if c == '=' {
        Some(RefType::Full)
    } else if c == '≠' {
        Some(RefType::FullNoCognate)
    } else if c == '≡' {
        Some(RefType::UnifiableVariants)
    } else {
        None
    }
}

/// The result of classifying `c` as a relation operator.
pub open spec fn ref_type_from_char(c: char) -> Result<RefType, ParseError> {
    match ref_type_of(c) {
        Some(t) => Ok(t),
        None => Err(ParseError::InvalidRefType(c)),
    }
}

/// Parses a relation from its operator character.
impl TryFrom<char> for RefType {
    type Error = ParseError;

    fn try_from(c: char) -> (r: Result<RefType, ParseError>)
        ensures
            r == ref_type_from_char(c),
    {
        match c {
            '=' => Ok(RefType::Full),
            '≠' => Ok(RefType::FullNoCognate),
            '≡' => Ok(RefType::UnifiableVariants),
            _ => Err(ParseError::InvalidRefType(c)),
        }
    }
}

impl vstd::std_specs::convert::TryFromSpecImpl<char> for RefType {
    open spec fn obeys_try_from_spec() -> bool {
        true
    }

    open spec fn try_from_spec(c: char) -> Result<RefType, ParseError> {
        ref_type_from_char(c)
    }
}

/// What parsing `U+XXXX` or `U+XXXX(O)` gives. The text before the first `(` names the
/// character. The text after it, up to a next `(`, gives the origin when it has at least two
/// characters and ends with `)`: its first character must then be an origin letter.
pub open spec fn parse_xref_item(s: Seq<char>) -> Result<XRefItem, ParseError> {
    let p = find_from(s, 0, '(');
    match code_point_of(s.subrange(0, p)) {
        None => Err(ParseError::InvalidXRef),
        Some(c) => {
            let tail = s.subrange(p + 1, find_from(s, p + 1, '('));
            if p < s.len() && tail.len() > 1 && tail.last() == ')' {
                match origin_of(tail[0]) {
                    Some(o) => Ok(XRefItem { literal: c, src_identifier: Some(o) }),
                    None => Err(ParseError::InvalidOrigin(tail[0])),
                }
            } else {
                Ok(XRefItem { literal: c, src_identifier: None })
            }
        },
    }
}

/// The first position at or after `i` whose character is a relation operator, or `s.len()`.
pub open spec fn find_operator(s: Seq<char>, i: int) -> int
    decreases s.len() - i,
{
    if i >= s.len() {
        s.len() as int
    } else if ref_type_of(s[i]) is Some {
        i
    } else {
        find_operator(s, i + 1)
    }
}

/// What parsing `<left><operator><right>` gives. The first operator character splits `s`;
/// the right side ends at the next occurrence of that same character, if any.
pub open spec fn parse_xref(s: Seq<char>) -> Result<XRef, ParseError> {
    let i = find_operator(s, 0);
    if i >= s.len() {
        Err(ParseError::InvalidXRef)
    } else {
        match parse_xref_item(s.subrange(0, i)) {
            Err(e) => Err(e),
            Ok(left) => match parse_xref_item(s.subrange(i + 1, find_from(s, i + 1, s[i]))) {
                Err(e) => Err(e),
                Ok(right) => Ok(XRef { ref_type: ref_type_of(s[i])->0, left, right }),
            },
        }
    }
}

impl XRefItem {
    /// Parses one side of a cross reference, such as `U+5098(V)`.
    pub fn from_str(s: &str) -> (r: Result<XRefItem, ParseError>)
        ensures
            r == parse_xref_item(s@),
    {
        let cs = chars_of(s);
        let p = find_char(&cs, 0, '(');
        proof {
            lemma_find_from(cs@, 0, '(');
        }
        let literal = match utf_code_to_char(s.substring_char(0, p)) {
            Some(c) => c,
            None => return Err(ParseError::InvalidXRef),
        };
        let mut src_identifier: Option<Origin> = None;
        if p < cs.len() {
            let q = find_char(&cs, p + 1, '(');
            proof {
                lemma_find_from(cs@, p + 1, '(');
            }
            if q - (p + 1) > 1 && cs[q - 1] == ')' {
                match Origin::try_from(cs[p + 1]) {
                    Ok(o) => src_identifier = Some(o),
                    Err(e) => return Err(e),
                }
            }
        }
        Ok(XRefItem { literal, src_identifier })
    }
}

impl XRef {
    /// Parses a cross reference such as `U+507D≡U+50DE`.
    pub fn from_str(s: &str) -> (r: Result<XRef, ParseError>)
        ensures
            r == parse_xref(s@),
    {
        let cs = chars_of(s);
        let mut i: usize = 0;
        let mut ref_type = RefType::Full;
        while i < cs.len()
            invariant
                i <= cs@.len(),
                find_operator(cs@, 0) == find_operator(cs@, i as int),
            ensures
                i <= cs@.len(),
                find_operator(cs@, 0) == i,
                i < cs@.len() ==> Some(ref_type) == ref_type_of(cs@[i as int]),
            decreases cs@.len() - i,
        {
            if let Ok(rt) = RefType::try_from(cs[i]) {
                ref_type = rt;
                break;
            }
            i = i + 1;
        }
        if i >= cs.len() {
            return Err(ParseError::InvalidXRef);
        }
        let j = find_char(&cs, i + 1, cs[i]);
        proof {
            lemma_find_from(cs@, i + 1, cs@[i as int]);
        }
        let left = match XRefItem::from_str(s.substring_char(0, i)) {
            Ok(item) => item,
            Err(e) => return Err(e),
        };
        let right = match XRefItem::from_str(s.substring_char(i + 1, j)) {
            Ok(item) => item,
            Err(e) => return Err(e),
        };
        Ok(XRef { ref_type, left, right })
    }
}

/// Parses a cross reference through `str::parse`.
impl std::str::FromStr for XRef {
    type Err = ParseError;

    fn from_str(s: &str) -> Result<XRef, ParseError> {
        XRef::from_str(s)
    }
}

/// Parses one side of a cross reference through `str::parse`.
impl std::str::FromStr for XRefItem {
    type Err = ParseError;

    fn from_str(s: &str) -> Result<XRefItem, ParseError> {
        XRefItem::from_str(s)
    }
}

} // verus!
