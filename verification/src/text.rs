//! Small helpers on optional text.

use vstd::prelude::*;
use crate::model::optional_text;

verus! {

/// The text an optional field stands for: its content when present, the empty
/// text when absent.
pub open spec fn text_or_empty(option: Option<Seq<char>>) -> Seq<char> {
    match option {
        Some(value) => value,
        None => Seq::empty(),
    }
}

/// Copies the text out of an optional field, giving the empty string for an
/// absent one.
pub fn option_to_string(option: &Option<String>) -> (text: String)
    ensures
        text@ == text_or_empty(optional_text(*option)),
{
    match option {
        Some(value) => value.clone(),
        None => String::new(),
    }
}

} // verus!
