//! The services behind the remote calls.

use crate::status::Code;
use crate::status::Status;
use vstd::prelude::*;

pub mod auth_tester;
pub mod chat;
pub mod registry;

verus! {

/// What a caller is told when no connection to the store or to the cache
/// could be had.
pub fn acquire_connection_error_status() -> (status: Status)
    ensures
        status.code == Code::Internal,
        status.message@ == "Could not acquire a connection"@,
{
    Status::internal("Could not acquire a connection")
}

} // verus!
