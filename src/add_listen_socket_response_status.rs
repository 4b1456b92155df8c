use vstd::prelude::*;

verus! {

/// The socket was registered.
pub const OK: u128 = 0;

/// The socket descriptor was missing or not a usable datagram socket.
pub const INVALID_REQUEST: u128 = 1;

/// The reactor refused the socket.
pub const INTERNAL_ERROR: u128 = 2;

} // verus!
