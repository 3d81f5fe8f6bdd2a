use vstd::prelude::*;

verus! {

/// The first position at or after `i` where `s` holds `c`, or `s.len()` when there is none.
pub open spec fn find_from(s: Seq<char>, i: int, c: char) -> int
    decreases s.len() - i,
{
    if i >= s.len() {
        s.len() as int
    } else if s[i] == c {
        i
    } else {
        find_from(s, i + 1, c)
    }
}

/// `find_from` stays within `[i, s.len()]`, finds `c` when it stops early, and skips no `c`.
pub proof fn lemma_find_from(s: Seq<char>, i: int, c: char)
    requires
        0 <= i <= s.len(),
    ensures
        i <= find_from(s, i, c) <= s.len(),
        find_from(s, i, c) < s.len() ==> s[find_from(s, i, c)] == c,
        forall|k: int| i <= k < find_from(s, i, c) ==> s[k] != c,
    decreases s.len() - i,
{
    if i < s.len() && s[i] != c {
        lemma_find_from(s, i + 1, c);
    }
}

/// The value of an ASCII digit in the given radix (`0-9`, then `a-z` or `A-Z`).
pub open spec fn digit_value(c: char, radix: nat) -> Option<nat> {
    let d: int = if '0' <= c && c <= '9' {
        c as int - '0' as int
    } else if 'a' <= c && c <= 'z' {
        c as int - 'a' as int + 10
    } else if 'A' <= c && c <= 'Z' {
        c as int - 'A' as int + 10
    } else {
        radix as int
    };
    if d < radix {
        Some(d as nat)
    } else {
        None
    }
}

/// The number that a sequence of digits writes, most significant first.
pub open spec fn digits_value(t: Seq<char>, radix: nat) -> nat
    decreases t.len(),
{
    if t.len() == 0 {
        0
    } else {
        digits_value(t.drop_last(), radix) * radix + digit_value(t.last(), radix).unwrap_or(0)
    }
}

/// The unsigned number that `t` writes: an optional `+`, then at least one digit and
/// nothing else; `None` when `t` is not of that form or the number exceeds `max`.
pub open spec fn unsigned_value(t: Seq<char>, radix: nat, max: nat) -> Option<nat> {
    let d = if t.len() > 0 && t[0] == '+' {
        t.drop_first()
    } else {
        t
    };
    if d.len() > 0 && (forall|k: int| 0 <= k < d.len() ==> (#[trigger] digit_value(d[k], radix)) is Some)
        && digits_value(d, radix) <= max {
        Some(digits_value(d, radix))
    } else {
        None
    }
}

/// Whether `v` is a Unicode scalar value: a code point that is not a surrogate.
pub open spec fn is_scalar_value(v: int) -> bool {
    (0 <= v < 0xD800) || (0xE000 <= v <= 0x10FFFF)
}

/// The code point that a notation such as `U+9AD8` gives: `U`, `+`, then one or more
/// hexadecimal digits of either case and nothing else, naming a Unicode scalar value.
pub open spec fn code_point_of(s: Seq<char>) -> Option<char> {
    if s.len() < 3 || s[0] != 'U' || s[1] != '+' || s[2] == '+' {
        None
    } else {
        match unsigned_value(s.subrange(2, s.len() as int), 16, u32::MAX as nat) {
            Some(v) => if is_scalar_value(v as int) {
                Some(v as char)
            } else {
                None
            },
            None => None,
        }
    }
}

/// Relies on `str::parse::<u8>`: decimal digits after an optional `+`, within `u8`.
#[verifier::external_body]
pub(crate) fn parse_decimal_u8(t: &str) -> (r: Option<u8>)
    ensures
        match unsigned_value(t@, 10, u8::MAX as nat) {
            Some(v) => r == Some(v as u8),
            None => r is None,
        },
{
    t.parse::<u8>().ok()
}

/// Relies on `u32::from_str_radix` with radix 16: hexadecimal digits of either case after an
/// optional `+`, within `u32`.
#[verifier::external_body]
fn parse_hex_u32(t: &str) -> (r: Option<u32>)
    ensures
        match unsigned_value(t@, 16, u32::MAX as nat) {
            Some(v) => r == Some(v as u32),
            None => r is None,
        },
{
    u32::from_str_radix(t, 16).ok()
}

/// Relies on `char::from_u32`: `Some` exactly for Unicode scalar values.
#[verifier::external_body]
fn char_from_u32(v: u32) -> (r: Option<char>)
    ensures
        r == (if is_scalar_value(v as int) {
            Some(v as char)
        } else {
            None
        }),
{
    char::from_u32(v)
}

/// The characters of `s`, in order.
pub fn chars_of(s: &str) -> (r: Vec<char>)
    ensures
        r@ == s@,
{
    let mut r: Vec<char> = Vec::new();
    for c in it: s.chars()
        invariant
            r@ == it.seq().take(it.index()),
    {
        r.push(c);
    }
    r
}

/// Finds the first position at or after `i` where `s` holds `c`, or `s.len()`.
pub fn find_char(s: &Vec<char>, i: usize, c: char) -> (r: usize)
    requires
        i <= s@.len(),
    ensures
        r == find_from(s@, i as int, c),
{
    let mut j = i;
    while j < s.len() && s[j] != c
        invariant
            i <= j <= s@.len(),
            find_from(s@, i as int, c) == find_from(s@, j as int, c),
        decreases s@.len() - j,
    {
        j = j + 1;
    }
    j
}

/// Converts a code point notation such as `U+9AD8` to the character it names.
pub fn utf_code_to_char(code: &str) -> (r: Option<char>)
    ensures
        r == code_point_of(code@),
{
    let s = chars_of(code);
    // The digits follow `U+` directly: the sign that `from_str_radix` would take is refused.
    if s.len() < 3 || s[0] != 'U' || s[1] != '+' || s[2] == '+' {
        return None;
    }
    let v = match parse_hex_u32(code.substring_char(2, s.len())) {
        Some(v) => v,
        None => return None,
    };
    char_from_u32(v)
}

} // verus!
