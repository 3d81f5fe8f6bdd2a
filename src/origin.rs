use vstd::prelude::*;

use crate::error::ParseError;

verus! {

/// What origin a radical composition is from
#[derive(Debug, Clone, Copy, PartialEq, Eq, Structural)]
pub enum Origin {
    China,
    HongKong,
    Japan,
    SouthKorea,
    Macau,
    NordKorea,
    Sat,
    Taiwan,
    UK,
    Unicode,
    Vietnam,
    UCS2003,
    Alternative,
    UnifiableVariant,
}

/// The origin that a one-letter code stands for, letters taken case-insensitively.
pub open spec fn origin_of(c: char) -> Option<Origin> {
    if c == 'G' || c == 'g' {
        Some(Origin::China)
    } else if c == 'H' || c == 'h' {
        Some(Origin::HongKong)
    } else if c == 'J' || c == 'j' {
        Some(Origin::Japan)
    } else if c == 'K' || c == 'k' {
        Some(Origin::SouthKorea)
    } else if c == 'M' || c == 'm' {
        Some(Origin::Macau)
    } else if c == 'P' || c == 'p' {
        Some(Origin::NordKorea)
    } else if c == 'S' || c == 's' {
        Some(Origin::Sat)
    } else if c == 'T' || c == 't' {
        Some(Origin::Taiwan)
    } else if c == 'B' || c == 'b' {
        Some(Origin::UK)
    } else if c == 'U' || c == 'u' {
        Some(Origin::Unicode)
    } else if c == 'V' || c == 'v' {
        Some(Origin::Vietnam)
    } else if c == 'X' || c == 'x' {
        Some(Origin::Alternative)
    } else if c == 'Z' || c == 'z' {
        Some(Origin::UnifiableVariant)
    } else {
        None
    }
}

/// Parses an origin from its one-letter code.
impl TryFrom<char> for Origin {
    type Error = ParseError;

    fn try_from(c: char) -> (r: Result<Origin, ParseError>)
        ensures
            r == origin_from_char(c),
    {
        match c {
            'G' | 'g' => Ok(Origin::China),
            'H' | 'h' => Ok(Origin::HongKong),
            'J' | 'j' => Ok(Origin::Japan),
            'K' | 'k' => Ok(Origin::SouthKorea),
            'M' | 'm' => Ok(Origin::Macau),
            'P' | 'p' => Ok(Origin::NordKorea),
            'S' | 's' => Ok(Origin::Sat),
            'T' | 't' => Ok(Origin::Taiwan),
            'B' | 'b' => Ok(Origin::UK),
            'U' | 'u' => Ok(Origin::Unicode),
            'V' | 'v' => Ok(Origin::Vietnam),
            'X' | 'x' => Ok(Origin::Alternative),
            'Z' | 'z' => Ok(Origin::UnifiableVariant),
            _ => Err(ParseError::InvalidOrigin(c)),
        }
    }
}

impl vstd::std_specs::convert::TryFromSpecImpl<char> for Origin {
    open spec fn obeys_try_from_spec() -> bool {
        true
    }

    open spec fn try_from_spec(c: char) -> Result<Origin, ParseError> {
        origin_from_char(c)
    }
}

/// The result of classifying `c` as an origin letter.
pub open spec fn origin_from_char(c: char) -> Result<Origin, ParseError> {
    match origin_of(c) {
        Some(o) => Ok(o),
        None => Err(ParseError::InvalidOrigin(c)),
    }
}


} // verus!
