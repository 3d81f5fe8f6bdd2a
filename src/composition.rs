use vstd::prelude::*;

use crate::destr_form::{destruction_form_of, DestructionForm};
use crate::error::ParseError;
use crate::origin::{origin_of, Origin};
use crate::sepecial_components::{conv_special, special_char_of};
use crate::utils::{chars_of, find_char, find_from, lemma_find_from, parse_decimal_u8, unsigned_value};

verus! {

/// A single composition of the format "^⿳亠口冋$(GHJKTV)"
#[derive(Default, Debug, PartialEq, Eq)]
pub struct Composition {
    pub reg_origins: Vec<Origin>,
    pub data: Vec<CompositionPart>,
}

/// What a composition holds: its parts in order, and its origins as they were listed.
pub struct CompositionView {
    pub parts: Seq<CompositionPart>,
    pub origins: Seq<Origin>,
}

impl View for Composition {
    type V = CompositionView;

    open spec fn view(&self) -> CompositionView {
        CompositionView { parts: self.data@, origins: self.reg_origins@ }
    }
}

/// A single part of the full composition
#[derive(Debug, Clone, Copy, PartialEq, Eq)]
pub enum CompositionPart {
    Destructive(DestructionForm),
    Radical(char),
    Modifier(Modifier),
    UnencodedComponent(u8),
}

/// A modifier for another component
#[derive(Debug, Clone, Copy, PartialEq, Eq)]
pub enum Modifier {
    UnrepresntableCompontent,
    IdeographicVariation,
    Mirror,
    Rotation,
    Subtraction,
}

/// The modifier that a marker character stands for.
pub open spec fn modifier_of(c: char) -> Option<Modifier> {
    if c == '？' {
        Some(Modifier::UnrepresntableCompontent)
    } else if c == '〾' {
        Some(Modifier::IdeographicVariation)
    } else if c == '↔' {
        Some(Modifier::Mirror)
    } else if c == '↷' {
        Some(Modifier::Rotation)
    } else if c == '⊖' {
        Some(Modifier::Subtraction)
    } else {
        None
    }
}

/// The part that a single character of a composition stands for: a destruction form, else a
/// modifier, else the character itself as a radical.
pub open spec fn part_of(c: char) -> CompositionPart {
    match destruction_form_of(c) {
        Some(f) => CompositionPart::Destructive(f),
        None => match modifier_of(c) {
            Some(m) => CompositionPart::Modifier(m),
            None => CompositionPart::Radical(c),
        },
    }
}

impl Modifier {
    /// Returns `true` if `c` is a `Modifier`
    pub fn is_modifier(c: char) -> (r: bool)
        ensures
            r == modifier_of(c) is Some,
    {
        Modifier::try_from(c).is_ok()
    }
}

/// Parses a modifier from its marker character.
impl TryFrom<char> for Modifier {
    type Error = ();

    fn try_from(c: char) -> (r: Result<Modifier, ()>)
        ensures
            r == modifier_from_char(c),
    {
        match c {
            '？' => Ok(Modifier::UnrepresntableCompontent),
            '〾' => Ok(Modifier::IdeographicVariation),
            '↔' => Ok(Modifier::Mirror),
            '↷' => Ok(Modifier::Rotation),
            '⊖' => Ok(Modifier::Subtraction),
            _ => Err(()),
        }
    }
}

impl vstd::std_specs::convert::TryFromSpecImpl<char> for Modifier {
    open spec fn obeys_try_from_spec() -> bool {
        true
    }

    open spec fn try_from_spec(c: char) -> Result<Modifier, ()> {
        modifier_from_char(c)
    }
}

/// The result of classifying `c` as a modifier.
pub open spec fn modifier_from_char(c: char) -> Result<Modifier, ()> {
    match modifier_of(c) {
        Some(m) => Ok(m),
        None => Err(()),
    }
}

/// Converts a character of a composition into a `CompositionPart`; this never fails.
impl TryFrom<char> for CompositionPart {
    type Error = ParseError;

    fn try_from(c: char) -> (r: Result<CompositionPart, ParseError>)
        ensures
            r == Ok::<CompositionPart, ParseError>(part_of(c)),
    {
        if let Ok(f) = DestructionForm::try_from(c) {
            return Ok(CompositionPart::Destructive(f));
        }
        if let Ok(m) = Modifier::try_from(c) {
            return Ok(CompositionPart::Modifier(m));
        }
        Ok(CompositionPart::Radical(c))
    }
}

impl vstd::std_specs::convert::TryFromSpecImpl<char> for CompositionPart {
    open spec fn obeys_try_from_spec() -> bool {
        true
    }

    open spec fn try_from_spec(c: char) -> Result<CompositionPart, ParseError> {
        Ok(part_of(c))
    }
}

impl CompositionPart {
    /// Returns `true` if the composition part is [`Destructive`].
    ///
    /// [`Destructive`]: CompositionPart::Destructive
    pub fn is_destructive(&self) -> (r: bool)
        ensures
            r == self is Destructive,
    {
        matches!(self, Self::Destructive(..))
    }

    pub fn as_destructive(&self) -> (r: Option<&DestructionForm>)
        ensures
            match self {
                CompositionPart::Destructive(f) => r == Some(f),
                _ => r is None,
            },
    {
        if let Self::Destructive(v) = self {
            Some(v)
        } else {
            None
        }
    }

    /// Returns `true` if the composition part is [`Radical`].
    ///
    /// [`Radical`]: CompositionPart::Radical
    pub fn is_radical(&self) -> (r: bool)
        ensures
            r == self is Radical,
    {
        matches!(self, Self::Radical(..))
    }

    pub fn as_radical(&self) -> (r: Option<&char>)
        ensures
            match self {
                CompositionPart::Radical(c) => r == Some(c),
                _ => r is None,
            },
    {
        if let Self::Radical(v) = self {
            Some(v)
        } else {
            None
        }
    }

    /// Returns `true` if the composition part is [`Modifier`].
    ///
    /// [`Modifier`]: CompositionPart::Modifier
    pub fn is_modifier(&self) -> (r: bool)
        ensures
            r == self is Modifier,
    {
        matches!(self, Self::Modifier(..))
    }

    pub fn as_modifier(&self) -> (r: Option<&Modifier>)
        ensures
            match self {
                CompositionPart::Modifier(m) => r == Some(m),
                _ => r is None,
            },
    {
        if let Self::Modifier(v) = self {
            Some(v)
        } else {
            None
        }
    }

    /// Returns `true` if the composition part is [`UnencodedComponent`].
    ///
    /// [`UnencodedComponent`]: CompositionPart::UnencodedComponent
    pub fn is_unencoded_component(&self) -> (r: bool)
        ensures
            r == self is UnencodedComponent,
    {
        matches!(self, Self::UnencodedComponent(..))
    }

    pub fn as_unencoded_component(&self) -> (r: Option<&u8>)
        ensures
            match self {
                CompositionPart::UnencodedComponent(n) => r == Some(n),
                _ => r is None,
            },
    {
        if let Self::UnencodedComponent(v) = self {
            Some(v)
        } else {
            None
        }
    }
}

/// The glyph that a part contributes as a radical: a radical's own character, or the
/// private-use character of an unencoded component whose number is in the table.
pub open spec fn radical_glyph(p: CompositionPart) -> Option<char> {
    match p {
        CompositionPart::Radical(c) => Some(c),
        CompositionPart::UnencodedComponent(n) => special_char_of(n),
        _ => None,
    }
}

/// The radical glyphs of `parts`, in order.
pub open spec fn radicals_of(parts: Seq<CompositionPart>) -> Seq<char>
    decreases parts.len(),
{
    if parts.len() == 0 {
        seq![]
    } else {
        let r = radicals_of(parts.drop_last());
        match radical_glyph(parts.last()) {
            Some(c) => r.push(c),
            None => r,
        }
    }
}

/// Places `p` before the parts of a successful scan; an error stays as it is.
pub open spec fn with_parts_before(
    p: Seq<CompositionPart>,
    r: Result<(Seq<CompositionPart>, int), ParseError>,
) -> Result<(Seq<CompositionPart>, int), ParseError> {
    match r {
        Ok((q, k)) => Ok((p + q, k)),
        Err(e) => Err(e),
    }
}

/// Scans the parts of a composition from position `i` up to its `$` (or the end of `s`).
/// Gives the parts in order and the position just past that `$`. A `{` opens a group of
/// decimal digits closed by `}` that numbers an unencoded component; a group that is no `u8`,
/// or that no `}` closes, fails with `UnexpectedCharacter`.
pub open spec fn parts_from(s: Seq<char>, i: int) -> Result<(Seq<CompositionPart>, int), ParseError>
    decreases s.len() - i,
    when 0 <= i
{
    if i >= s.len() {
        Ok((seq![], s.len() as int))
    } else if s[i] == '$' {
        Ok((seq![], i + 1))
    } else if s[i] == '{' {
        let j = find_from(s, i + 1, '}');
        match unsigned_value(s.subrange(i + 1, j), 10, u8::MAX as nat) {
            Some(n) if j < s.len() => {
                proof {
                    lemma_find_from(s, i + 1, '}');
                }
                with_parts_before(
                    seq![CompositionPart::UnencodedComponent(n as u8)],
                    parts_from(s, j + 1),
                )
            },
            _ => Err(ParseError::UnexpectedCharacter),
        }
    } else {
        with_parts_before(seq![part_of(s[i])], parts_from(s, i + 1))
    }
}

/// The origins that the letters of `t` name, in order and with repetitions; a character that
/// names no origin (the grouping brackets `[` and `]` among them) is passed over.
pub open spec fn origins_in(t: Seq<char>) -> Seq<Origin>
    decreases t.len(),
{
    if t.len() == 0 {
        seq![]
    } else {
        let o = origins_in(t.drop_last());
        match origin_of(t.last()) {
            Some(x) => o.push(x),
            None => o,
        }
    }
}

/// Origins keep the order of their letters: the origins of two pieces of text put together
/// are those of the first followed by those of the second.
pub proof fn lemma_origins_keep_order(t: Seq<char>, u: Seq<char>)
    ensures
        origins_in(t + u) == origins_in(t) + origins_in(u),
    decreases u.len(),
{
    if u.len() == 0 {
        assert(t + u =~= t);
        assert(origins_in(t) + origins_in(u) =~= origins_in(t));
    } else {
        lemma_origins_keep_order(t, u.drop_last());
        assert((t + u).drop_last() =~= t + u.drop_last());
        assert((t + u).last() == u.last());
        if let Some(o) = origin_of(u.last()) {
            assert(origins_in(t) + origins_in(u.drop_last()).push(o) =~= (origins_in(t)
                + origins_in(u.drop_last())).push(o));
        }
    }
}

/// When every character of `t` is an origin letter, its origins are exactly those letters'
/// origins, one for each letter, in the same order: repeated letters give repeated origins.
pub proof fn lemma_origins_one_per_letter(t: Seq<char>)
    requires
        forall|k: int| 0 <= k < t.len() ==> (#[trigger] origin_of(t[k])) is Some,
    ensures
        origins_in(t).len() == t.len(),
        forall|k: int| 0 <= k < t.len() ==> origins_in(t)[k] == origin_of(t[k])->0,
    decreases t.len(),
{
    if t.len() > 0 {
        let d = t.drop_last();
        assert forall|k: int| 0 <= k < d.len() implies (#[trigger] origin_of(d[k])) is Some by {
            assert(d[k] == t[k]);
        }
        lemma_origins_one_per_letter(d);
        assert(origin_of(t[t.len() - 1]) is Some);
    }
}

/// A character that names no origin is passed over without failing: taking it out of the
/// text leaves the origins unchanged.
pub proof fn lemma_unknown_origin_skipped(t: Seq<char>, c: char, u: Seq<char>)
    requires
        origin_of(c) is None,
    ensures
        origins_in(t + seq![c] + u) == origins_in(t + u),
{
    lemma_origins_keep_order(t + seq![c], u);
    lemma_origins_keep_order(t, seq![c]);
    lemma_origins_keep_order(t, u);
    assert(seq![c].drop_last() =~= Seq::<char>::empty());
    assert(origins_in(Seq::<char>::empty()) == Seq::<Origin>::empty());
    assert(seq![c].last() == c);
    assert(origins_in(seq![c]) == Seq::<Origin>::empty());
    assert(origins_in(t) + origins_in(seq![c]) =~= origins_in(t));
}

/// The origins of the suffix `(...)` that may follow the parts, from position `k` on: the
/// letters up to the `)` (or the end). Without a `(` at `k` there are none.
pub open spec fn suffix_origins(s: Seq<char>, k: int) -> Seq<Origin> {
    if 0 <= k < s.len() && s[k] == '(' {
        origins_in(s.subrange(k + 1, find_from(s, k + 1, ')')))
    } else {
        seq![]
    }
}

/// What parsing the composition text `s` gives: `s` must start with `^`, then come the
/// parts, then the optional origin suffix.
pub open spec fn parse_composition(s: Seq<char>) -> Result<CompositionView, ParseError> {
    if s.len() == 0 || s[0] != '^' {
        Err(ParseError::InvalidComposition)
    } else {
        match parts_from(s, 1) {
            Ok((p, k)) => Ok(CompositionView { parts: p, origins: suffix_origins(s, k) }),
            Err(e) => Err(e),
        }
    }
}

/// A parse result seen through the view of the composition.
pub open spec fn composition_result_view(r: Result<Composition, ParseError>) -> Result<
    CompositionView,
    ParseError,
> {
    match r {
        Ok(c) => Ok(c@),
        Err(e) => Err(e),
    }
}

/// `parts_from` ends at a position within `[i, s.len()]`.
proof fn lemma_parts_from_end(s: Seq<char>, i: int)
    requires
        0 <= i <= s.len(),
    ensures
        parts_from(s, i) matches Ok((_, k)) ==> i <= k <= s.len(),
    decreases s.len() - i,
{
    if i < s.len() && s[i] != '$' {
        if s[i] == '{' {
            lemma_find_from(s, i + 1, '}');
            if find_from(s, i + 1, '}') < s.len() {
                lemma_parts_from_end(s, find_from(s, i + 1, '}') + 1);
            }
        } else {
            lemma_parts_from_end(s, i + 1);
        }
    }
}

impl Composition {
    /// Parses a composition string such as `^⿳亠口冋$(GHJKTV)`.
    pub fn from_str(s: &str) -> (r: Result<Composition, ParseError>)
        ensures
            composition_result_view(r) == parse_composition(s@),
    {
        let cs = chars_of(s);
        if cs.len() == 0 || cs[0] != '^' {
            return Err(ParseError::InvalidComposition);
        }
        let mut parts: Vec<CompositionPart> = Vec::new();
        let mut i: usize = 1;
        let mut k: usize = cs.len();
        loop
            invariant_except_break
                1 <= i <= cs@.len(),
                parts_from(cs@, 1) == with_parts_before(parts@, parts_from(cs@, i as int)),
            invariant
                cs@ == s@,
                cs@.len() > 0 && cs@[0] == '^',
            ensures
                parts_from(cs@, 1) == Ok::<(Seq<CompositionPart>, int), ParseError>(
                    (parts@, k as int),
                ),
                k <= cs@.len(),
            decreases cs@.len() - i,
        {
            if i >= cs.len() {
                k = cs.len();
                assert(parts@ + seq![] == parts@);
                break;
            }
            let c = cs[i];
            if c == '$' {
                k = i + 1;
                assert(parts@ + seq![] == parts@);
                break;
            }
            if c == '{' {
                let j = find_char(&cs, i + 1, '}');
                proof {
                    lemma_find_from(cs@, i + 1, '}');
                }
                if j >= cs.len() {
                    return Err(ParseError::UnexpectedCharacter);
                }
                let n = match parse_decimal_u8(s.substring_char(i + 1, j)) {
                    Some(n) => n,
                    None => return Err(ParseError::UnexpectedCharacter),
                };
                let ghost before = parts@;
                parts.push(CompositionPart::UnencodedComponent(n));
                i = j + 1;
                proof {
                    assert forall|q: Seq<CompositionPart>|
                        before + (seq![CompositionPart::UnencodedComponent(n)] + q) =~= parts@
                            + q by {}
                }
                continue;
            }
            let part = CompositionPart::try_from(c)?;
            let ghost before = parts@;
            parts.push(part);
            proof {
                assert forall|q: Seq<CompositionPart>|
                    before + (seq![part] + q) =~= parts@ + q by {}
            }
            i = i + 1;
        }
        proof {
            lemma_parts_from_end(cs@, 1);
        }
        let mut origins: Vec<Origin> = Vec::new();
        if k < cs.len() && cs[k] == '(' {
            let mut j: usize = k + 1;
            while j < cs.len() && cs[j] != ')'
                invariant
                    k + 1 <= j <= cs@.len(),
                    find_from(cs@, k + 1, ')') == find_from(cs@, j as int, ')'),
                    origins@ == origins_in(cs@.subrange(k + 1, j as int)),
                decreases cs@.len() - j,
            {
                let n = cs[j];
                let ghost t = cs@.subrange(k + 1, j + 1);
                assert(t.drop_last() =~= cs@.subrange(k + 1, j as int));
                j = j + 1;
                if n == '[' || n == ']' {
                    continue;
                }
                if let Ok(origin) = Origin::try_from(n) {
                    origins.push(origin);
                }
            }
        }
        Ok(Composition { reg_origins: origins, data: parts })
    }

    /// Returns all radicals from the composition, unencoded components resolved to their
    /// private-use characters
    pub fn get_radicals(&self) -> (r: Vec<char>)
        ensures
            r@ == radicals_of(self.data@),
    {
        let mut r: Vec<char> = Vec::new();
        let mut i: usize = 0;
        while i < self.data.len()
            invariant
                i <= self.data@.len(),
                r@ == radicals_of(self.data@.take(i as int)),
            decreases self.data@.len() - i,
        {
            let part = self.data[i];
            assert(self.data@.take(i + 1).drop_last() =~= self.data@.take(i as int));
            match part {
                CompositionPart::Radical(c) => r.push(c),
                CompositionPart::UnencodedComponent(n) => {
                    if let Some(c) = conv_special(n) {
                        r.push(c);
                    }
                },
                _ => {},
            }
            i = i + 1;
        }
        assert(self.data@.take(self.data@.len() as int) =~= self.data@);
        r
    }
}

/// Parses a composition string through `str::parse`.
impl std::str::FromStr for Composition {
    type Err = ParseError;

    fn from_str(s: &str) -> Result<Composition, ParseError> {
        Composition::from_str(s)
    }
}

} // verus!
