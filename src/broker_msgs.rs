use vstd::prelude::*;

verus! {

/// Length of a peer identifier.
pub const PEER_ID_LEN: usize = 32;

/// Length of a pre-shared key.
pub const PSK_LEN: usize = 32;

/// Capacity of the interface name field.
pub const IFACE_BUF_LEN: usize = 255;

/// Type byte of a set-PSK message.
pub const MSG_TYPE_SET_PSK: u8 = 1;

/// Offset of the peer identifier in a set-PSK request frame.
pub const PEER_ID_OFFSET: usize = 1;

/// Offset of the pre-shared key in a set-PSK request frame.
pub const PSK_OFFSET: usize = PEER_ID_OFFSET + PEER_ID_LEN;

/// Offset of the byte that gives the interface name's length.
pub const IFACE_LEN_OFFSET: usize = PSK_OFFSET + PSK_LEN;

/// Offset of the interface name buffer.
pub const IFACE_OFFSET: usize = IFACE_LEN_OFFSET + 1;

/// Size of a set-PSK request frame: type byte, peer id, key, name length and name buffer.
pub const REQUEST_MSG_BUFFER_SIZE: usize = IFACE_OFFSET + IFACE_BUF_LEN;

/// Size of a set-PSK response frame: type byte and return code.
pub const RESPONSE_MSG_BUFFER_SIZE: usize = 2;

/// Message types of the broker protocol.
#[derive(Debug, Clone, Copy, PartialEq, Eq, Structural)]
pub enum MsgType {
    SetPsk,
}

/// A type byte that names no message type.
#[derive(Debug, Clone, Copy, PartialEq, Eq, Structural)]
pub struct InvalidMessageTypeError;

impl MsgType {
    pub fn to_u8(self) -> (r: u8)
        ensures
            r == MSG_TYPE_SET_PSK,
    {
        match self {
            MsgType::SetPsk => MSG_TYPE_SET_PSK,
        }
    }

    pub fn try_from_u8(b: u8) -> (r: Result<MsgType, InvalidMessageTypeError>)
        ensures
            b == MSG_TYPE_SET_PSK ==> r == Ok::<MsgType, InvalidMessageTypeError>(MsgType::SetPsk),
            b != MSG_TYPE_SET_PSK ==> r is Err,
    {
        if b == MSG_TYPE_SET_PSK {
            Ok(MsgType::SetPsk)
        } else {
            Err(InvalidMessageTypeError)
        }
    }
}

/// Why the tunnel implementation could not install a key.
#[derive(Debug, Clone, Copy, PartialEq, Eq, Structural)]
pub enum SetPskError {
    InternalError,
    NoSuchInterface,
    NoSuchPeer,
}

/// Return code byte of a set-PSK response.
pub open spec fn return_code_of(r: Result<(), SetPskError>) -> u8 {
    match r {
        Ok(()) => 0,
        Err(SetPskError::InternalError) => 1,
        Err(SetPskError::NoSuchInterface) => 2,
        Err(SetPskError::NoSuchPeer) => 3,
    }
}

/// The return code that reports the outcome of installing a key.
pub fn set_psk_return_code(r: &Result<(), SetPskError>) -> (c: u8)
    ensures
        c == return_code_of(*r),
{
    match r {
        Ok(()) => 0,
        Err(SetPskError::InternalError) => 1,
        Err(SetPskError::NoSuchInterface) => 2,
        Err(SetPskError::NoSuchPeer) => 3,
    }
}

/// The fields of a set-PSK request.
pub struct SetPskRequest {
    pub peer_id: Vec<u8>,
    pub psk: Vec<u8>,
    /// The interface name's bytes, as many as the length byte gives.
    pub iface: Vec<u8>,
}

/// A byte sequence of the given length, all zero.
pub open spec fn zeros(n: nat) -> Seq<u8> {
    Seq::new(n, |i: int| 0u8)
}

/// The request frame that carries the given peer id, key and interface name.
pub open spec fn encoded_set_psk(peer_id: Seq<u8>, psk: Seq<u8>, iface: Seq<u8>) -> Seq<u8> {
    seq![MSG_TYPE_SET_PSK] + peer_id + psk + seq![iface.len() as u8] + iface + zeros(
        (IFACE_BUF_LEN - iface.len()) as nat,
    )
}

/// A frame that decodes as a set-PSK request: exactly the request's size, with the
/// set-PSK type byte first.
pub open spec fn is_set_psk_frame(b: Seq<u8>) -> bool {
    b.len() == REQUEST_MSG_BUFFER_SIZE && b[0] == MSG_TYPE_SET_PSK
}

pub open spec fn frame_peer_id(b: Seq<u8>) -> Seq<u8> {
    b.subrange(PEER_ID_OFFSET as int, PSK_OFFSET as int)
}

pub open spec fn frame_psk(b: Seq<u8>) -> Seq<u8> {
    b.subrange(PSK_OFFSET as int, IFACE_LEN_OFFSET as int)
}

pub open spec fn frame_iface(b: Seq<u8>) -> Seq<u8> {
    b.subrange(IFACE_OFFSET as int, IFACE_OFFSET + b[IFACE_LEN_OFFSET as int] as int)
}

/// The bytes of `b` from `start` up to `end`, as a vector.
fn copy_range(b: &[u8], start: usize, end: usize) -> (r: Vec<u8>)
    requires
        start <= end <= b@.len(),
    ensures
        r@ == b@.subrange(start as int, end as int),
{
    let mut r: Vec<u8> = Vec::new();
    let mut i: usize = start;
    while i < end
        invariant
            start <= i <= end <= b@.len(),
            r@ == b@.subrange(start as int, i as int),
        decreases end - i,
    {
        r.push(b[i]);
        i = i + 1;
    }
    r
}

/// Encodes a set-PSK request frame; `None` where the interface name does not fit.
pub fn encode_set_psk_request(peer_id: &[u8], psk: &[u8], iface: &[u8]) -> (r: Option<Vec<u8>>)
    requires
        peer_id@.len() == PEER_ID_LEN,
        psk@.len() == PSK_LEN,
    ensures
        r is Some <==> iface@.len() <= IFACE_BUF_LEN,
        r is Some ==> r->0@ == encoded_set_psk(peer_id@, psk@, iface@),
{
    if iface.len() > IFACE_BUF_LEN {
        return None;
    }
    let mut out: Vec<u8> = Vec::new();
    out.push(MSG_TYPE_SET_PSK);
    let mut i: usize = 0;
    while i < peer_id.len()
        invariant
            i <= peer_id@.len(),
            out@ == seq![MSG_TYPE_SET_PSK] + peer_id@.subrange(0, i as int),
        decreases peer_id@.len() - i,
    {
        out.push(peer_id[i]);
        i = i + 1;
    }
    assert(peer_id@.subrange(0, peer_id@.len() as int) == peer_id@);
    let ghost head = out@;
    i = 0;
    while i < psk.len()
        invariant
            i <= psk@.len(),
            out@ == head + psk@.subrange(0, i as int),
        decreases psk@.len() - i,
    {
        out.push(psk[i]);
        i = i + 1;
    }
    assert(psk@.subrange(0, psk@.len() as int) == psk@);
    out.push(iface.len() as u8);
    let ghost head = out@;
    i = 0;
    while i < iface.len()
        invariant
            i <= iface@.len(),
            out@ == head + iface@.subrange(0, i as int),
        decreases iface@.len() - i,
    {
        out.push(iface[i]);
        i = i + 1;
    }
    assert(iface@.subrange(0, iface@.len() as int) == iface@);
    let ghost head = out@;
    let pad: usize = IFACE_BUF_LEN - iface.len();
    i = 0;
    while i < pad
        invariant
            i <= pad,
            out@ == head + zeros(i as nat),
        decreases pad - i,
    {
        out.push(0u8);
        i = i + 1;
        assert(zeros(i as nat) == zeros((i - 1) as nat).push(0u8));
    }
    Some(out)
}

/// Decodes a set-PSK request frame; `None` where the frame has another type byte or
/// another size than a set-PSK request.
pub fn decode_set_psk_request(b: &[u8]) -> (r: Option<SetPskRequest>)
    ensures
        r is Some <==> is_set_psk_frame(b@),
        r is Some ==> {
            &&& r->0.peer_id@ == frame_peer_id(b@)
            &&& r->0.psk@ == frame_psk(b@)
            &&& r->0.iface@ == frame_iface(b@)
        },
{
    if b.len() != REQUEST_MSG_BUFFER_SIZE || b[0] != MSG_TYPE_SET_PSK {
        return None;
    }
    let iface_len: usize = b[IFACE_LEN_OFFSET] as usize;
    Some(
        SetPskRequest {
            peer_id: copy_range(b, PEER_ID_OFFSET, PSK_OFFSET),
            psk: copy_range(b, PSK_OFFSET, IFACE_LEN_OFFSET),
            iface: copy_range(b, IFACE_OFFSET, IFACE_OFFSET + iface_len),
        },
    )
}

/// Decoding an encoded set-PSK request gives back its peer id, key and interface
/// name exactly.
pub proof fn lemma_set_psk_round_trip(peer_id: Seq<u8>, psk: Seq<u8>, iface: Seq<u8>)
    requires
        peer_id.len() == PEER_ID_LEN,
        psk.len() == PSK_LEN,
        iface.len() <= IFACE_BUF_LEN,
    ensures
        is_set_psk_frame(encoded_set_psk(peer_id, psk, iface)),
        frame_peer_id(encoded_set_psk(peer_id, psk, iface)) == peer_id,
        frame_psk(encoded_set_psk(peer_id, psk, iface)) == psk,
        frame_iface(encoded_set_psk(peer_id, psk, iface)) == iface,
{
    let e = encoded_set_psk(peer_id, psk, iface);
    assert(e[IFACE_LEN_OFFSET as int] == iface.len() as u8);
    assert(frame_peer_id(e) =~= peer_id);
    assert(frame_psk(e) =~= psk);
    assert(frame_iface(e) =~= iface);
}

} // verus!
