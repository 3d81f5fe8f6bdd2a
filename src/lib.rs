use vstd::prelude::*;

pub mod composition;
pub mod destr_form;
pub mod error;
pub mod ids;
pub mod origin;
pub mod sepecial_components;
pub mod utils;
pub mod xref;

pub use composition::{Composition, CompositionPart};
pub use destr_form::DestructionForm;
pub use error::ParseError;
pub use ids::IDS;
pub use origin::Origin;
pub use xref::XRef;

verus! {

/// The radical or glyph of the data set that a variant form of a radical maps to; any other
/// character maps to itself.
pub open spec fn special_form_base(c: char) -> char {
    if c == '牜' {
        '牛'
    } else if c == '𤣩' {
        '玉'
    } else if c == '𥫗' {
        '竹'
    } else if c == '艹' {
        '艸'
    } else if c == '糹' {
        '糸'
    } else if c == '訁' {
        '言'
    } else if c == '釒' {
        '金'
    } else if c == '飠' {
        '食'
    } else if c == '子' {
        '孑'
    } else if c == '羊' {
        '⺶'
    } else {
        c
    }
}

/// Maps radicals to the respective radical/glyph used in the ids dataset
pub fn map_special_form(inp: char) -> (r: char)
    ensures
        r == special_form_base(inp),
{
    match inp {
        '牜' => '牛',
        '𤣩' => '玉',
        '𥫗' => '竹',
        '艹' => '艸',
        '糹' => '糸',
        '訁' => '言',
        '釒' => '金',
        '飠' => '食',
        '子' => '孑',
        '羊' => '⺶',
        _ => inp,
    }
}

} // verus!
