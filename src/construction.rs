use vstd::prelude::*;

verus! {

/// Length in bytes of the server's static secret key.
pub const SK_LEN: usize = 13608;

/// Length in bytes of the server's static public key.
pub const PK_LEN: usize = 524160;

/// A secret key and its public key, as read from the descriptors a client supplied.
pub struct Keypair {
    pub sk: Vec<u8>,
    pub pk: Vec<u8>,
}

/// The inputs collected while the cryptographic server is not yet built.
pub struct BuildCryptoServer {
    /// Filled at most once, by the first keypair that arrives.
    pub keypair: Option<Keypair>,
}

impl BuildCryptoServer {
    /// A builder with every slot still empty.
    pub fn new() -> (r: Self)
        ensures
            r.keypair is None,
    {
        BuildCryptoServer { keypair: None }
    }
}

/// The fully assembled server identity.
pub struct CryptoServer {
    pub sk: Vec<u8>,
    pub pk: Vec<u8>,
}

/// Why a construction site could not be erected.
#[derive(Debug, Clone, Copy, PartialEq, Eq, Structural)]
pub enum ErectError {
    /// The site is not accumulating inputs: it is `Void` or already holds the product.
    NotUnderConstruction,
    /// The builder still misses its keypair.
    KeypairMissing,
}

/// Lifecycle of the server identity: nothing yet, being assembled, or built.
pub enum ConstructionSite {
    Void,
    Builder(BuildCryptoServer),
    Product(CryptoServer),
}

impl ConstructionSite {
    /// Turns a builder whose keypair slot is filled into the product. Every other
    /// site is left as it was and the call fails.
    pub fn erect(&mut self) -> (r: Result<(), ErectError>)
        ensures
            match *old(self) {
                ConstructionSite::Builder(b) => match b.keypair {
                    Some(kp) => {
                        &&& r is Ok
                        &&& *final(self) == ConstructionSite::Product(CryptoServer { sk: kp.sk, pk: kp.pk })
                    },
                    None => r == Err::<(), ErectError>(ErectError::KeypairMissing) && *final(self) == *old(self),
                },
                _ => r == Err::<(), ErectError>(ErectError::NotUnderConstruction) && *final(self) == *old(self),
            },
    {
        let slot = match self {
            ConstructionSite::Builder(b) => b.keypair.take(),
            _ => {
                return Err(ErectError::NotUnderConstruction);
            },
        };
        match slot {
            Some(kp) => {
                *self = ConstructionSite::Product(CryptoServer { sk: kp.sk, pk: kp.pk });
                Ok(())
            },
            None => Err(ErectError::KeypairMissing),
        }
    }
}

} // verus!
