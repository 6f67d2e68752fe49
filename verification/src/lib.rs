//! Browser-capability client: verified translation logic for a set of thin
//! wrappers over host (browser) APIs — clipboard, connectivity, fullscreen,
//! geolocation, language preferences, permissions and document visibility.
//!
//! Each wrapper in this crate is a pure decision: it takes the plain facts a
//! host environment reports (is the capability present? did the host accept
//! the operation? what value came back?) and produces the declared result
//! shape — a status/message response value, a primitive, or a propagated
//! host error. The asynchronous calls into a real host live outside this
//! library; they hand these functions plain values and take plain values
//! back, so every translation rule here is verified for every host answer.
pub mod client;
