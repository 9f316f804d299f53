//! Reading optional text fields.

use vstd::prelude::*;

verus! {

/// An optional borrowed text shows the same text as an optional stored one.
pub open spec fn shows_text(shown: Option<&str>, stored: Option<String>) -> bool {
    match (shown, stored) {
        (Some(s), Some(t)) => s@ == t@,
        (None, None) => true,
        _ => false,
    }
}

/// Borrows the text of an optional stored text.
pub fn optional_text(stored: &Option<String>) -> (shown: Option<&str>)
    ensures
        shows_text(shown, *stored),
{
    match stored {
        Some(text) => Some(text.as_str()),
        None => None,
    }
}

} // verus!
