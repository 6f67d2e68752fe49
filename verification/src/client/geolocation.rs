//! Geolocation wrappers: the geolocation handle and a one-shot position
//! request.
use vstd::prelude::*;

verus! {

/// What the wrappers read of a host's geolocation handle: how the host
/// answers a position request made through it. `None` means the host
/// dispatches the request (and will invoke the caller's success callback);
/// `Some` carries the detail of the host's rejection.
#[derive(Clone, Debug)]
pub struct Geolocation {
    pub locate_error: Option<String>,
}

/// Returns the navigator's geolocation handle, which must be present: a
/// navigator without one is outside this wrapper's contract.
pub fn get_geolocation_object(geolocation: Option<Geolocation>) -> (r: Geolocation)
    requires
        geolocation is Some,
    ensures
        Some(r) == geolocation,
{
    geolocation.unwrap()
}

/// Request the device's current position through the navigator's
/// geolocation handle, which must be present.
///
/// When the host dispatches the request the result is success (the host
/// then invokes the caller's success callback at most once); when the host
/// rejects it the rejection detail is propagated unchanged.
pub fn get_current_position(geolocation: Option<Geolocation>) -> (r: Result<(), String>)
    requires
        geolocation is Some,
    ensures
        geolocation matches Some(handle) ==> match handle.locate_error {
            None => r is Ok,
            Some(detail) => r matches Err(m) && m@ == detail@,
        },
{
    match geolocation.unwrap().locate_error {
        None => Ok(()),
        Some(detail) => Err(detail),
    }
}

} // verus!
