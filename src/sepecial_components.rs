use vstd::prelude::*;

verus! {

/// The private-use code point standing for each numbered unencoded component.
pub open spec fn special_char_of(nr: u8) -> Option<char> {
    match nr {
        1 => Some('\u{F2A5}'),
        2 => Some('\u{F2A6}'),
        3 => Some('\u{F2A7}'),
        4 => Some('\u{F313}'),
        5 => Some('\u{F2A9}'),
        6 => Some('\u{F2AA}'),
        7 => Some('\u{F4F3}'),
        8 => Some('\u{F2AB}'),
        9 => Some('\u{F2AC}'),
        10 => Some('\u{F2A8}'),
        11 => Some('\u{F2AD}'),
        12 => Some('\u{F2AE}'),
        13 => Some('\u{F29F}'),
        14 => Some('\u{F2B0}'),
        15 => Some('\u{F2B1}'),
        16 => Some('\u{F31A}'),
        17 => Some('\u{F2B3}'),
        18 => Some('\u{F2B4}'),
        19 => Some('\u{F2B5}'),
        20 => Some('\u{F315}'),
        21 => Some('\u{F101}'),
        22 => Some('\u{F2E6}'),
        23 => Some('\u{F2E9}'),
        24 => Some('\u{F2F2}'),
        25 => Some('\u{F2F4}'),
        26 => Some('\u{F2BA}'),
        27 => Some('\u{F2BB}'),
        28 => Some('\u{F2BC}'),
        29 => Some('\u{F2BD}'),
        30 => Some('\u{F2F5}'),
        31 => Some('\u{F2BF}'),
        32 => Some('\u{F2C0}'),
        33 => Some('\u{F2C1}'),
        35 => Some('\u{F2C3}'),
        36 => Some('\u{F2C4}'),
        39 => Some('\u{F2C7}'),
        40 => Some('\u{F2C8}'),
        41 => Some('\u{F2D3}'),
        42 => Some('\u{F2D4}'),
        43 => Some('\u{F2A4}'),
        47 => Some('\u{F2CA}'),
        49 => Some('\u{F2D2}'),
        50 => Some('\u{F319}'),
        51 => Some('\u{F2CB}'),
        52 => Some('\u{F2E8}'),
        53 => Some('\u{F2E7}'),
        54 => Some('\u{F2FA}'),
        55 => Some('\u{F2D0}'),
        56 => Some('\u{F2CF}'),
        57 => Some('\u{F2CE}'),
        58 => Some('\u{F2CD}'),
        59 => Some('\u{F13C}'),
        60 => Some('\u{F5F6}'),
        61 => Some('\u{F5F0}'),
        62 => Some('\u{F13D}'),
        63 => Some('\u{F2BE}'),
        67 => Some('\u{F2F7}'),
        68 => Some('\u{F5F4}'),
        69 => Some('\u{F5F5}'),
        70 => Some('\u{F2D1}'),
        _ => None,
    }
}

/// Converts the number of an unencoded component to its private-use character.
pub fn conv_special(nr: u8) -> (r: Option<char>)
    ensures
        r == special_char_of(nr),
{
    match nr {
        1 => Some('\u{F2A5}'),
        2 => Some('\u{F2A6}'),
        3 => Some('\u{F2A7}'),
        4 => Some('\u{F313}'),
        5 => Some('\u{F2A9}'),
        6 => Some('\u{F2AA}'),
        7 => Some('\u{F4F3}'),
        8 => Some('\u{F2AB}'),
        9 => Some('\u{F2AC}'),
        10 => Some('\u{F2A8}'),
        11 => Some('\u{F2AD}'),
        12 => Some('\u{F2AE}'),
        13 => Some('\u{F29F}'),
        14 => Some('\u{F2B0}'),
        15 => Some('\u{F2B1}'),
        16 => Some('\u{F31A}'),
        17 => Some('\u{F2B3}'),
        18 => Some('\u{F2B4}'),
        19 => Some('\u{F2B5}'),
        20 => Some('\u{F315}'),
        21 => Some('\u{F101}'),
        22 => Some('\u{F2E6}'),
        23 => Some('\u{F2E9}'),
        24 => Some('\u{F2F2}'),
        25 => Some('\u{F2F4}'),
        26 => Some('\u{F2BA}'),
        27 => Some('\u{F2BB}'),
        28 => Some('\u{F2BC}'),
        29 => Some('\u{F2BD}'),
        30 => Some('\u{F2F5}'),
        31 => Some('\u{F2BF}'),
        32 => Some('\u{F2C0}'),
        33 => Some('\u{F2C1}'),
        35 => Some('\u{F2C3}'),
        36 => Some('\u{F2C4}'),
        39 => Some('\u{F2C7}'),
        40 => Some('\u{F2C8}'),
        41 => Some('\u{F2D3}'),
        42 => Some('\u{F2D4}'),
        43 => Some('\u{F2A4}'),
        47 => Some('\u{F2CA}'),
        49 => Some('\u{F2D2}'),
        50 => Some('\u{F319}'),
        51 => Some('\u{F2CB}'),
        52 => Some('\u{F2E8}'),
        53 => Some('\u{F2E7}'),
        54 => Some('\u{F2FA}'),
        55 => Some('\u{F2D0}'),
        56 => Some('\u{F2CF}'),
        57 => Some('\u{F2CE}'),
        58 => Some('\u{F2CD}'),
        59 => Some('\u{F13C}'),
        60 => Some('\u{F5F6}'),
        61 => Some('\u{F5F0}'),
        62 => Some('\u{F13D}'),
        63 => Some('\u{F2BE}'),
        67 => Some('\u{F2F7}'),
        68 => Some('\u{F5F4}'),
        69 => Some('\u{F5F5}'),
        70 => Some('\u{F2D1}'),
        _ => None,
    }
}

/// Returns `true` if `c` is the private-use character of an unencoded component.
pub fn is_special(c: &char) -> (r: bool)
    ensures
        r == (exists|nr: u8| special_char_of(nr) == Some(*c)),
{
    let mut nr: u8 = 0;
    loop
        invariant
            forall|m: u8| m < nr ==> special_char_of(m) != Some(*c),
        decreases u8::MAX - nr,
    {
        if conv_special(nr) == Some(*c) {
            return true;
        }
        if nr == u8::MAX {
            assert forall|m: u8| special_char_of(m) != Some(*c) by {
                if m < nr {
                }
            }
            return false;
        }
        nr = nr + 1;
    }
}

} // verus!
