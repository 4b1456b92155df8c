use vstd::prelude::*;

use crate::broker_msgs::{
    decode_set_psk_request, frame_iface, is_set_psk_frame, return_code_of, set_psk_return_code,
    InvalidMessageTypeError, MsgType, SetPskError, SetPskRequest, MSG_TYPE_SET_PSK,
    RESPONSE_MSG_BUFFER_SIZE,
};

verus! {

/// The text that a byte sequence holds as UTF-8, or `None` where it is no valid UTF-8.
pub uninterp spec fn utf8_text(b: Seq<u8>) -> Option<Seq<char>>;

/// Relies on `std::str::from_utf8`: it accepts exactly the valid UTF-8 sequences and
/// gives the text they encode; an empty sequence is the empty text.
#[verifier::external_body]
fn str_from_utf8(b: &[u8]) -> (r: Option<String>)
    ensures
        r is Some <==> utf8_text(b@) is Some,
        r is Some ==> r->0@ == utf8_text(b@)->0,
        b@.len() == 0 ==> r is Some && r->0@.len() == 0,
{
    std::str::from_utf8(b).ok().map(String::from)
}

/// What a broker is asked to install: a key for one peer on one interface.
pub struct NetworkBrokerConfig {
    pub iface: String,
    pub peer_id: Vec<u8>,
    pub psk: Vec<u8>,
}

/// An implementation that installs pre-shared keys into the tunnel.
pub trait WireGuardBroker {
    fn set_psk(&mut self, config: NetworkBrokerConfig) -> Result<(), SetPskError>;
}

/// Errors of the broker server.
#[derive(Debug, Clone, Copy, PartialEq, Eq, Structural)]
pub enum BrokerServerError {
    /// An unknown request type was encountered.
    NoSuchRequestType(u8),
    /// The message was malformed or of an unsupported type.
    InvalidMessage,
}

impl From<InvalidMessageTypeError> for BrokerServerError {
    fn from(value: InvalidMessageTypeError) -> (r: Self)
        ensures
            r == BrokerServerError::InvalidMessage,
    {
        BrokerServerError::InvalidMessage
    }
}

impl vstd::std_specs::convert::FromSpecImpl<InvalidMessageTypeError> for BrokerServerError {
    open spec fn obeys_from_spec() -> bool {
        true
    }

    open spec fn from_spec(v: InvalidMessageTypeError) -> Self {
        BrokerServerError::InvalidMessage
    }
}

/// The configuration built from a decoded request and its interface name, or
/// `InvalidMessage` where the name was no valid UTF-8.
pub fn broker_config(req: SetPskRequest, iface: Option<String>) -> (r: Result<
    NetworkBrokerConfig,
    BrokerServerError,
>)
    ensures
        iface is None ==> r == Err::<NetworkBrokerConfig, BrokerServerError>(
            BrokerServerError::InvalidMessage,
        ),
        iface is Some ==> r is Ok && r->Ok_0.iface@ == iface->0@ && r->Ok_0.peer_id@
            == req.peer_id@ && r->Ok_0.psk@ == req.psk@,
{
    match iface {
        Some(name) => Ok(NetworkBrokerConfig { iface: name, peer_id: req.peer_id, psk: req.psk }),
        None => Err(BrokerServerError::InvalidMessage),
    }
}

/// The two response bytes that report a set-PSK outcome.
pub fn write_set_psk_response(res: &mut [u8; RESPONSE_MSG_BUFFER_SIZE], outcome: &Result<(), SetPskError>)
    ensures
        final(res)@ == seq![MSG_TYPE_SET_PSK, return_code_of(*outcome)],
{
    res[0] = MsgType::SetPsk.to_u8();
    res[1] = set_psk_return_code(outcome);
    assert(final(res)@ =~= seq![MSG_TYPE_SET_PSK, return_code_of(*outcome)]);
}

/// Serves the broker protocol on top of a tunnel implementation.
pub struct BrokerServer<Inner> {
    inner: Inner,
}

impl<Inner: WireGuardBroker> BrokerServer<Inner> {
    pub fn new(inner: Inner) -> (r: Self)
        ensures
            r.inner() == inner,
    {
        BrokerServer { inner }
    }

    pub closed spec fn inner(&self) -> Inner {
        self.inner
    }

    /// Handles one request frame and writes the response frame into `res`, returning
    /// its length. Only set-PSK requests of exactly the request size, with a UTF-8
    /// interface name, are served; every other frame is `InvalidMessage`, and the
    /// response buffer is then left as it was.
    pub fn handle_message(&mut self, req: &[u8], res: &mut [u8; RESPONSE_MSG_BUFFER_SIZE]) -> (r:
        Result<usize, BrokerServerError>)
        ensures
            r is Ok <==> is_set_psk_frame(req@) && utf8_text(frame_iface(req@)) is Some,
            r is Err ==> r == Err::<usize, BrokerServerError>(BrokerServerError::InvalidMessage)
                && *final(res) == *old(res),
            r is Ok ==> {
                &&& r == Ok::<usize, BrokerServerError>(RESPONSE_MSG_BUFFER_SIZE)
                &&& exists|outcome: Result<(), SetPskError>|
                    final(res)@ == seq![MSG_TYPE_SET_PSK, return_code_of(outcome)]
            },
    {
        if req.len() == 0 {
            return Err(BrokerServerError::InvalidMessage);
        }
        match MsgType::try_from_u8(req[0]) {
            Ok(MsgType::SetPsk) => {},
            Err(e) => {
                return Err(BrokerServerError::from(e));
            },
        }
        let request = match decode_set_psk_request(req) {
            Some(request) => request,
            None => {
                return Err(BrokerServerError::InvalidMessage);
            },
        };
        let outcome = self.handle_set_psk(request)?;
        write_set_psk_response(res, &outcome);
        Ok(RESPONSE_MSG_BUFFER_SIZE)
    }

    /// Installs the requested key through the tunnel implementation and gives back
    /// its outcome; `InvalidMessage` where the interface name is no valid UTF-8.
    fn handle_set_psk(&mut self, req: SetPskRequest) -> (r: Result<
        Result<(), SetPskError>,
        BrokerServerError,
    >)
        ensures
            r is Err <==> utf8_text(req.iface@) is None,
            r is Err ==> r == Err::<Result<(), SetPskError>, BrokerServerError>(
                BrokerServerError::InvalidMessage,
            ),
    {
        let iface = str_from_utf8(req.iface.as_slice());
        let config = broker_config(req, iface)?;
        Ok(self.inner.set_psk(config))
    }
}

} // verus!
