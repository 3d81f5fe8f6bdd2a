use vstd::prelude::*;

verus! {

/// Error occurring during the parsing process
#[derive(Debug, Clone, Copy, PartialEq, Eq)]
pub enum ParseError {
    InvalidOrigin(char),
    InvalidDestructiveForm(char),
    InvalidRefType(char),
    InvalidIDS,
    InvalidXRef,
    InvalidComposition,
    UnexpectedCharacter,
}

} // verus!
