use vstd::prelude::*;

verus! {

/// Length of the byte buffer that a ping carries and gets back.
pub const PING_ECHO_LEN: usize = 256;

/// One control message: a type byte followed by a fixed-size payload.
pub struct Envelope<T> {
    pub msg_type: u8,
    pub payload: T,
}

pub struct PingRequestPayload {
    pub echo: [u8; PING_ECHO_LEN],
}

pub struct PingResponsePayload {
    pub echo: [u8; PING_ECHO_LEN],
}

/// The keypair itself travels as two descriptors.
pub struct SupplyKeypairRequestPayload {}

pub struct SupplyKeypairResponsePayload {
    pub status: u128,
}

/// The socket itself travels as a descriptor.
pub struct AddListenSocketRequestPayload {}

pub struct AddListenSocketResponsePayload {
    pub status: u128,
}

/// The broker connection itself travels as a descriptor.
pub struct AddPskBrokerRequestPayload {}

pub struct AddPskBrokerResponsePayload {
    pub status: u128,
}

pub type PingRequest = Envelope<PingRequestPayload>;

pub type PingResponse = Envelope<PingResponsePayload>;

pub type SupplyKeypairRequest = Envelope<SupplyKeypairRequestPayload>;

pub type SupplyKeypairResponse = Envelope<SupplyKeypairResponsePayload>;

pub type AddListenSocketRequest = Envelope<AddListenSocketRequestPayload>;

pub type AddListenSocketResponse = Envelope<AddListenSocketResponsePayload>;

pub type AddPskBrokerRequest = Envelope<AddPskBrokerRequestPayload>;

pub type AddPskBrokerResponse = Envelope<AddPskBrokerResponsePayload>;

} // verus!
