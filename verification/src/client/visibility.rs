//! Document visibility wrapper.
use vstd::prelude::*;

use crate::client::document::Document;

verus! {

/// The visibility of a host document, as the host enumerates it.
#[derive(Clone, Copy, Debug, PartialEq, Eq, Structural)]
pub enum VisibilityState {
    Hidden,
    Visible,
}

/// Returns the current visibility state of the document, exactly as the
/// host document reports it.
pub fn get_visibility_state(document: &Document) -> (r: VisibilityState)
    ensures
        r == document.visibility,
{
    document.visibility
}

} // verus!
