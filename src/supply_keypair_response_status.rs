use vstd::prelude::*;

verus! {

/// The keypair was stored and the server identity is built.
pub const OK: u128 = 0;

/// The server identity is already fixed; the new keypair was not taken.
pub const KEYPAIR_ALREADY_SUPPLIED: u128 = 1;

/// A fault inside the daemon.
pub const INTERNAL_ERROR: u128 = 2;

/// The descriptors were missing or their contents malformed.
pub const INVALID_REQUEST: u128 = 3;

} // verus!
