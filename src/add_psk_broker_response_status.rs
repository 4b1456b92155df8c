use vstd::prelude::*;

verus! {

/// The broker connection replaced the latest registration.
pub const OK: u128 = 0;

/// The broker descriptor was missing or not a connected stream socket.
pub const INVALID_REQUEST: u128 = 1;

/// The registry could not take the connection.
pub const INTERNAL_ERROR: u128 = 2;

} // verus!
