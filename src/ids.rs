use vstd::prelude::*;

use crate::composition::{parse_composition, Composition, CompositionView};
use crate::error::ParseError;
use crate::origin::Origin;
use crate::utils::{chars_of, find_char, find_from, lemma_find_from};
use crate::xref::{parse_xref, XRef};

verus! {

/// A full Ideographic Description Sequence item
#[derive(Default, Debug, PartialEq, Eq)]
pub struct IDS {
    pub literal: char,
    pub compositions: Vec<Composition>,
    pub xrefs: Vec<XRef>,
}

/// What a record holds: its character, its compositions and its cross references, in order.
pub struct IdsView {
    pub literal: char,
    pub compositions: Seq<CompositionView>,
    pub xrefs: Seq<XRef>,
}

/// The views of a sequence of compositions.
pub open spec fn compositions_view(v: Seq<Composition>) -> Seq<CompositionView> {
    v.map_values(|c: Composition| c@)
}

impl View for IDS {
    type V = IdsView;

    open spec fn view(&self) -> IdsView {
        IdsView {
            literal: self.literal,
            compositions: compositions_view(self.compositions@),
            xrefs: self.xrefs@,
        }
    }
}

/// Places the compositions and cross references read so far before those of a successful
/// read of the rest; an error stays as it is.
pub open spec fn with_fields_before(
    comps: Seq<CompositionView>,
    xrefs: Seq<XRef>,
    r: Result<(Seq<CompositionView>, Seq<XRef>), ParseError>,
) -> Result<(Seq<CompositionView>, Seq<XRef>), ParseError> {
    match r {
        Ok((c, x)) => Ok((comps + c, xrefs + x)),
        Err(e) => Err(e),
    }
}

proof fn lemma_with_fields_before_empty(r: Result<(Seq<CompositionView>, Seq<XRef>), ParseError>)
    ensures
        with_fields_before(seq![], seq![], r) == r,
{
    if let Ok((c, x)) = r {
        assert(seq![] + c =~= c);
        assert(seq![] + x =~= x);
    }
}

proof fn lemma_with_fields_before_assoc(
    c1: Seq<CompositionView>,
    x1: Seq<XRef>,
    c2: Seq<CompositionView>,
    x2: Seq<XRef>,
    r: Result<(Seq<CompositionView>, Seq<XRef>), ParseError>,
)
    ensures
        with_fields_before(c1, x1, with_fields_before(c2, x2, r)) == with_fields_before(
            c1 + c2,
            x1 + x2,
            r,
        ),
{
    if let Ok((c, x)) = r {
        assert(c1 + (c2 + c) =~= (c1 + c2) + c);
        assert(x1 + (x2 + x) =~= (x1 + x2) + x);
    }
}

/// What the tab-separated fields from position `i` on give. A field that starts with `^` is a
/// composition, whose failure fails the record; one that starts with `*` is a cross
/// reference, left out when it does not parse; any other field is passed over.
pub open spec fn fields_from(s: Seq<char>, i: int) -> Result<
    (Seq<CompositionView>, Seq<XRef>),
    ParseError,
>
    decreases s.len() + 1 - i,
    when 0 <= i
{
    if i > s.len() {
        Ok((seq![], seq![]))
    } else {
        let e = find_from(s, i, '\t');
        let f = s.subrange(i, e);
        proof {
            lemma_find_from(s, i, '\t');
        }
        let rest = fields_from(s, e + 1);
        if f.len() > 0 && f[0] == '^' {
            match parse_composition(f) {
                Ok(c) => with_fields_before(seq![c], seq![], rest),
                Err(err) => Err(err),
            }
        } else if f.len() > 0 && f[0] == '*' {
            match parse_xref(f.drop_first()) {
                Ok(x) => with_fields_before(seq![], seq![x], rest),
                Err(_) => rest,
            }
        } else {
            rest
        }
    }
}

/// What parsing a record line gives. The first field is passed over; the first character of
/// the second is the literal, and a line without a non-empty second field fails with
/// `InvalidIDS`; the fields after it give the compositions and cross references.
pub open spec fn parse_ids(s: Seq<char>) -> Result<IdsView, ParseError> {
    let t = find_from(s, 0, '\t');
    let e = find_from(s, t + 1, '\t');
    if t >= s.len() || e == t + 1 {
        Err(ParseError::InvalidIDS)
    } else {
        match fields_from(s, e + 1) {
            Ok((c, x)) => Ok(IdsView { literal: s[t + 1], compositions: c, xrefs: x }),
            Err(err) => Err(err),
        }
    }
}

/// Appending text after a `c` that follows `s` moves no search for `c` that starts within `s`.
proof fn lemma_find_from_extended(s: Seq<char>, c: char, f: Seq<char>, i: int)
    requires
        0 <= i <= s.len(),
    ensures
        find_from(s + seq![c] + f, i, c) == find_from(s, i, c),
    decreases s.len() - i,
{
    let t = s + seq![c] + f;
    if i < s.len() {
        assert(t[i] == s[i]);
        if s[i] != c {
            lemma_find_from_extended(s, c, f, i + 1);
        }
    } else {
        assert(t[i] == c);
    }
}

/// Appending a tab and a field that is neither a composition nor a parsable cross reference
/// changes nothing that the fields from `i` give.
proof fn lemma_fields_from_extended(s: Seq<char>, f: Seq<char>, i: int)
    requires
        0 <= i <= s.len() + 1,
        !f.contains('\t'),
        f.len() > 0,
        f[0] == '*',
        parse_xref(f.drop_first()) is Err,
    ensures
        fields_from(s + seq!['\t'] + f, i) == fields_from(s, i),
    decreases s.len() + 1 - i,
{
    let t = s + seq!['\t'] + f;
    if i <= s.len() {
        lemma_find_from_extended(s, '\t', f, i);
        lemma_find_from(s, i, '\t');
        let e = find_from(s, i, '\t');
        assert(t.subrange(i, e) =~= s.subrange(i, e));
        lemma_fields_from_extended(s, f, e + 1);
    } else {
        let n = s.len() as int + 1;
        assert forall|k: int| n <= k < t.len() implies t[k] != '\t' by {
            assert(t[k] == f[k - n]);
        }
        lemma_find_from(t, n, '\t');
        assert(t.subrange(n, t.len() as int) =~= f);
        assert(fields_from(t, t.len() + 1 as int) == Ok::<(Seq<CompositionView>, Seq<XRef>), ParseError>(
            (seq![], seq![]),
        ));
    }
}

/// A record still decodes when a malformed cross reference follows it in a field of its own:
/// the field is left out, and the record is the same as without it.
pub proof fn lemma_malformed_xref_dropped(s: Seq<char>, f: Seq<char>)
    requires
        parse_ids(s) is Ok,
        !f.contains('\t'),
        f.len() > 0,
        f[0] == '*',
        parse_xref(f.drop_first()) is Err,
    ensures
        parse_ids(s + seq!['\t'] + f) == parse_ids(s),
{
    let t = s + seq!['\t'] + f;
    lemma_find_from_extended(s, '\t', f, 0);
    lemma_find_from(s, 0, '\t');
    let p = find_from(s, 0, '\t');
    lemma_find_from_extended(s, '\t', f, p + 1);
    let e = find_from(s, p + 1, '\t');
    lemma_find_from(s, p + 1, '\t');
    assert(t[p + 1] == s[p + 1]);
    lemma_fields_from_extended(s, f, e + 1);
}

/// A line without the tab that ends its first field has no literal, and fails with
/// `InvalidIDS`; so does one whose second field is empty.
pub proof fn lemma_missing_literal(s: Seq<char>)
    requires
        !s.contains('\t') || find_from(s, find_from(s, 0, '\t') + 1, '\t') == find_from(
            s,
            0,
            '\t',
        ) + 1,
    ensures
        parse_ids(s) == Err::<IdsView, ParseError>(ParseError::InvalidIDS),
{
    lemma_find_from(s, 0, '\t');
    if !s.contains('\t') {
        if find_from(s, 0, '\t') < s.len() {
            assert(s.contains('\t')) by {
                assert(s[find_from(s, 0, '\t')] == '\t');
            }
        }
    }
}

/// A parse result seen through the view of the record.
pub open spec fn ids_result_view(r: Result<IDS, ParseError>) -> Result<IdsView, ParseError> {
    match r {
        Ok(ids) => Ok(ids@),
        Err(e) => Err(e),
    }
}

/// The position of the first composition from `i` on that lists origin `o`, or `comps.len()`.
pub open spec fn first_composition_with(comps: Seq<CompositionView>, o: Origin, i: int) -> int
    decreases comps.len() - i,
{
    if i >= comps.len() {
        comps.len() as int
    } else if comps[i].origins.contains(o) {
        i
    } else {
        first_composition_with(comps, o, i + 1)
    }
}

/// Returns `true` if `origins` lists `o`.
fn lists_origin(origins: &Vec<Origin>, o: Origin) -> (r: bool)
    ensures
        r == origins@.contains(o),
{
    let mut i: usize = 0;
    while i < origins.len()
        invariant
            i <= origins@.len(),
            forall|k: int| 0 <= k < i ==> origins@[k] != o,
        decreases origins@.len() - i,
    {
        if origins[i] == o {
            return true;
        }
        i = i + 1;
    }
    false
}

impl IDS {
    /// Parses a record line such as `U+9AD8\t高\t^⿳亠口冋$(GHJKTV)\t*U+507D≡U+50DE`.
    pub fn from_str(s: &str) -> (r: Result<IDS, ParseError>)
        ensures
            ids_result_view(r) == parse_ids(s@),
    {
        let cs = chars_of(s);
        let t = find_char(&cs, 0, '\t');
        if t >= cs.len() {
            return Err(ParseError::InvalidIDS);
        }
        let e = find_char(&cs, t + 1, '\t');
        if e == t + 1 {
            return Err(ParseError::InvalidIDS);
        }
        proof {
            lemma_find_from(cs@, t + 1, '\t');
        }
        let literal = cs[t + 1];
        let mut compositions: Vec<Composition> = Vec::new();
        let mut xrefs: Vec<XRef> = Vec::new();
        // `i` is the position of the tab that ends the field read last, or the end of the line.
        let mut i: usize = e;
        while i < cs.len()
            invariant
                cs@ == s@,
                t < cs@.len(),
                t == find_from(cs@, 0, '\t'),
                e == find_from(cs@, t + 1, '\t'),
                e != t + 1,
                e <= i <= cs@.len(),
                fields_from(cs@, e + 1) == with_fields_before(
                    compositions_view(compositions@),
                    xrefs@,
                    fields_from(cs@, i + 1),
                ),
            decreases cs@.len() - i,
        {
            let start = i + 1;
            let f_end = find_char(&cs, start, '\t');
            proof {
                lemma_find_from(cs@, start as int, '\t');
            }
            let ghost f = cs@.subrange(start as int, f_end as int);
            let ghost rest = fields_from(cs@, f_end + 1);
            let ghost comps_before = compositions_view(compositions@);
            let ghost xrefs_before = xrefs@;
            let ghost mut added_c: Seq<CompositionView> = seq![];
            let ghost mut added_x: Seq<XRef> = seq![];
            if f_end > start && cs[start] == '^' {
                match Composition::from_str(s.substring_char(start, f_end)) {
                    Ok(c) => {
                        proof {
                            added_c = seq![c@];
                        }
                        compositions.push(c);
                    },
                    Err(err) => {
                        assert(fields_from(cs@, start as int) == Err::<
                            (Seq<CompositionView>, Seq<XRef>),
                            ParseError,
                        >(err));
                        return Err(err);
                    },
                }
            } else if f_end > start && cs[start] == '*' {
                assert(f.drop_first() =~= cs@.subrange(start + 1, f_end as int));
                if let Ok(x) = XRef::from_str(s.substring_char(start + 1, f_end)) {
                    proof {
                        added_x = seq![x];
                    }
                    xrefs.push(x);
                }
            }
            proof {
                lemma_with_fields_before_empty(rest);
                assert(fields_from(cs@, start as int) == with_fields_before(added_c, added_x, rest));
                lemma_with_fields_before_assoc(comps_before, xrefs_before, added_c, added_x, rest);
                assert(compositions_view(compositions@) =~= comps_before + added_c);
                assert(xrefs@ =~= xrefs_before + added_x);
            }
            i = f_end;
        }
        Ok(IDS { literal, compositions, xrefs })
    }

    /// Returns the first composition that lists `origin` among its origins, if any.
    pub fn comp_by_lang(&self, origin: Origin) -> (r: Option<&Composition>)
        ensures
            ({
                let k = first_composition_with(self@.compositions, origin, 0);
                match r {
                    Some(c) => k < self.compositions@.len() && *c == self.compositions@[k],
                    None => k == self.compositions@.len(),
                }
            }),
    {
        let mut i: usize = 0;
        while i < self.compositions.len()
            invariant
                i <= self.compositions@.len(),
                first_composition_with(self@.compositions, origin, 0) == first_composition_with(
                    self@.compositions,
                    origin,
                    i as int,
                ),
            decreases self.compositions@.len() - i,
        {
            if lists_origin(&self.compositions[i].reg_origins, origin) {
                return Some(&self.compositions[i]);
            }
            i = i + 1;
        }
        None
    }
}

/// Parses a record line through `str::parse`.
impl std::str::FromStr for IDS {
    type Err = ParseError;

    fn from_str(s: &str) -> Result<IDS, ParseError> {
        IDS::from_str(s)
    }
}

} // verus!
