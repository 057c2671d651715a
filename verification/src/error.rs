//! The errors the connection layer reports.

use vstd::prelude::*;

verus! {

/// Why a lookup in a connection pool failed.
#[derive(Clone, Copy, Debug, PartialEq, Eq, Structural)]
pub enum ConnectionPoolError {
    /// The index is at or past the number of connections the pool holds.
    IndexOutOfRange,
}

/// Why the cache could not be built or could not hand out a connection.
#[derive(Clone, Copy, Debug, PartialEq, Eq, Structural)]
pub enum ClientError {
    /// The local endpoint could not be set up; a later attempt may succeed.
    EndpointInitError,
    /// No identity could be generated from the keypair that was given.
    CacheCreationError,
}

} // verus!
