use vstd::prelude::*;

use crate::error::ParseError;

verus! {

/// Describing in which form radicals get combined with each other
#[derive(Debug, Clone, Copy, PartialEq, Eq)]
pub enum DestructionForm {
    Vertically,
    Horizontally,
    Vertically3,
    Horizontally3,
    BoxInner,
    BoxOpenBottom,
    BoxOpenTop,
    BoxOpenRight,
    BoxOpenLeft,
    BoxOpenBottomRight,
    BoxOpenBottomLeft,
    BoxOpenTopRight,
    Diagonal,
}

/// The ideographic description character that writes each form; `BoxOpenLeft` has none.
pub open spec fn idc_char(f: DestructionForm) -> Option<char> {
    match f {
        DestructionForm::Vertically => Some('⿰'),
        DestructionForm::Horizontally => Some('⿱'),
        DestructionForm::Vertically3 => Some('⿲'),
        DestructionForm::Horizontally3 => Some('⿳'),
        DestructionForm::BoxInner => Some('⿴'),
        DestructionForm::BoxOpenBottom => Some('⿵'),
        DestructionForm::BoxOpenTop => Some('⿶'),
        DestructionForm::BoxOpenRight => Some('⿷'),
        DestructionForm::BoxOpenLeft => None,
        DestructionForm::BoxOpenBottomRight => Some('⿸'),
        DestructionForm::BoxOpenBottomLeft => Some('⿹'),
        DestructionForm::BoxOpenTopRight => Some('⿺'),
        DestructionForm::Diagonal => Some('⿻'),
    }
}

/// The form that an ideographic description character denotes.
pub open spec fn destruction_form_of(c: char) -> Option<DestructionForm> {
    if c == '⿰' {
        Some(DestructionForm::Vertically)
    } else if c == '⿱' {
        Some(DestructionForm::Horizontally)
    } else if c == '⿲' {
        Some(DestructionForm::Vertically3)
    } else if c == '⿳' {
        Some(DestructionForm::Horizontally3)
    } else if c == '⿴' {
        Some(DestructionForm::BoxInner)
    } else if c == '⿵' {
        Some(DestructionForm::BoxOpenBottom)
    } else if c == '⿶' {
        Some(DestructionForm::BoxOpenTop)
    } else if c == '⿷' {
        Some(DestructionForm::BoxOpenRight)
    } else if c == '⿸' {
        Some(DestructionForm::BoxOpenBottomRight)
    } else if c == '⿹' {
        Some(DestructionForm::BoxOpenBottomLeft)
    } else if c == '⿺' {
        Some(DestructionForm::BoxOpenTopRight)
    } else if c == '⿻' {
        Some(DestructionForm::Diagonal)
    } else {
        None
    }
}

/// The result of classifying `c` as a destruction form.
pub open spec fn destruction_form_from_char(c: char) -> Result<DestructionForm, ParseError> {
    match destruction_form_of(c) {
        Some(f) => Ok(f),
        None => Err(ParseError::InvalidDestructiveForm(c)),
    }
}

/// Classifying a character yields exactly the form whose description character it is:
/// each character of the table gives its own form, and no other character gives any.
pub proof fn lemma_destruction_form_table(c: char, f: DestructionForm)
    ensures
        destruction_form_of(c) == Some(f) <==> idc_char(f) == Some(c),
        destruction_form_of(c) is None <==> (forall|g: DestructionForm|
            #[trigger] idc_char(g) != Some(c)),
{
    if destruction_form_of(c) is None {
        assert forall|g: DestructionForm| #[trigger] idc_char(g) != Some(c) by {
            match g {
                DestructionForm::BoxOpenLeft => {},
                _ => {},
            }
        }
    } else {
        assert(idc_char(destruction_form_of(c)->0) == Some(c));
    }
}

/// Parses a destruction form from its ideographic description character.
impl TryFrom<char> for DestructionForm {
    type Error = ParseError;

    fn try_from(c: char) -> (r: Result<DestructionForm, ParseError>)
        ensures
            r == destruction_form_from_char(c),
    {
        match c {
            '⿰' => Ok(DestructionForm::Vertically),
            '⿱' => Ok(DestructionForm::Horizontally),
            '⿲' => Ok(DestructionForm::Vertically3),
            '⿳' => Ok(DestructionForm::Horizontally3),
            '⿴' => Ok(DestructionForm::BoxInner),
            '⿵' => Ok(DestructionForm::BoxOpenBottom),
            '⿶' => Ok(DestructionForm::BoxOpenTop),
            '⿷' => Ok(DestructionForm::BoxOpenRight),
            '⿸' => Ok(DestructionForm::BoxOpenBottomRight),
            '⿹' => Ok(DestructionForm::BoxOpenBottomLeft),
            '⿺' => Ok(DestructionForm::BoxOpenTopRight),
            '⿻' => Ok(DestructionForm::Diagonal),
            _ => Err(ParseError::InvalidDestructiveForm(c)),
        }
    }
}

impl vstd::std_specs::convert::TryFromSpecImpl<char> for DestructionForm {
    open spec fn obeys_try_from_spec() -> bool {
        true
    }

    open spec fn try_from_spec(c: char) -> Result<DestructionForm, ParseError> {
        destruction_form_from_char(c)
    }
}

} // verus!
