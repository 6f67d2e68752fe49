//! Permission-status wrapper.
use vstd::prelude::*;

verus! {

/// A permission's state, as a host's permission-status object reports it.
#[derive(Clone, Copy, Debug, PartialEq, Eq, Structural)]
pub enum PermissionState {
    Granted,
    Denied,
    Prompt,
}

/// What a caller reads of a host's permission-status object: the state it
/// reports.
#[derive(Clone, Copy, Debug, PartialEq, Eq, Structural)]
pub struct PermissionStatus {
    pub state: PermissionState,
}

/// The descriptor handed to the host's permission query: a single `name`
/// property holding the permission's name.
#[derive(Clone, Debug)]
pub struct PermissionDescriptor {
    pub name: String,
}

/// Builds the query descriptor for a permission name, carrying the name
/// unchanged.
pub fn permission_descriptor(permission: String) -> (r: PermissionDescriptor)
    ensures
        r.name@ == permission@,
{
    PermissionDescriptor { name: permission }
}

/// Query the status of a permission: propagates the host's answer to the
/// query unchanged, success or rejection.
///
/// The navigator must expose a permissions object and must have accepted
/// the query itself; a host without either is outside this wrapper's
/// contract.
pub fn get_permission_status(
    permissions_present: bool,
    query_accepted: bool,
    query_outcome: Result<PermissionStatus, String>,
) -> (r: Result<PermissionStatus, String>)
    requires
        permissions_present,
        query_accepted,
    ensures
        query_outcome matches Ok(status) ==> r == Ok::<PermissionStatus, String>(status),
        query_outcome matches Err(detail) ==> (r matches Err(m) && m@ == detail@),
{
    match query_outcome {
        Ok(status) => Ok(status),
        Err(detail) => Err(detail),
    }
}

} // verus!
