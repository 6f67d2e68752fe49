//! A plain-data model of the host document facts the wrappers consult.
use vstd::prelude::*;

use crate::client::visibility::VisibilityState;

verus! {

/// The facts a host document reports to the fullscreen and visibility
/// wrappers.
///
/// `defined` models whether the document value the host handed out is a real
/// document (a host can answer with an undefined value); `fullscreen` is
/// whether fullscreen is currently active on it; `visibility` is its
/// current visibility state.
#[derive(Clone, Copy, Debug, PartialEq, Eq, Structural)]
pub struct Document {
    pub defined: bool,
    pub fullscreen: bool,
    pub visibility: VisibilityState,
}

} // verus!
