//! Connectivity wrappers: online flag, connectivity callbacks, and the
//! navigator's connection information.
use vstd::prelude::*;

verus! {

/// The kind of connection a host's connection object reports.
#[derive(Clone, Copy, Debug, PartialEq, Eq, Structural)]
pub enum ConnectionType {
    Bluetooth,
    Cellular,
    Ethernet,
    NoConnection,
    Other,
    Unknown,
    Wifi,
}

/// What the wrappers read of a host's connection object: the connection
/// type it reports.
#[derive(Clone, Copy, Debug, PartialEq, Eq, Structural)]
pub struct NetworkInformation {
    pub connection_type: ConnectionType,
}

/// Which of the two caller-supplied connectivity callbacks is to be invoked.
#[derive(Clone, Copy, Debug, PartialEq, Eq, Structural)]
pub enum ConnectivityCallback {
    Online,
    Offline,
}

/// Check whether the user is online: returns exactly the navigator's online
/// flag.
pub fn is_online(on_line: bool) -> (r: bool)
    ensures
        r == on_line,
{
    if on_line {
        true
    } else {
        false
    }
}

/// Decide which connectivity callback to invoke for a navigator's online
/// flag: the online callback exactly when the host reports online, and the
/// offline callback exactly when it does not — never both.
pub fn check_connectivity(on_line: bool) -> (r: ConnectivityCallback)
    ensures
        on_line ==> r == ConnectivityCallback::Online,
        !on_line ==> r == ConnectivityCallback::Offline,
{
    if on_line {
        ConnectivityCallback::Online
    } else {
        ConnectivityCallback::Offline
    }
}

/// Returns the navigator's connection object, which must be present: a
/// navigator without one is outside this wrapper's contract.
pub fn get_network_information(connection: Option<NetworkInformation>) -> (r: NetworkInformation)
    requires
        connection is Some,
    ensures
        Some(r) == connection,
{
    connection.unwrap()
}

/// Returns the type of connection the navigator's connection object
/// reports; the connection object must be present.
pub fn get_type(connection: Option<NetworkInformation>) -> (r: ConnectionType)
    requires
        connection is Some,
    ensures
        connection matches Some(info) && r == info.connection_type,
{
    connection.unwrap().connection_type
}

} // verus!
