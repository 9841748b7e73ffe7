use vstd::bytes::{spec_u32_from_le_bytes, spec_u32_to_le_bytes, u32_from_le_bytes, u32_to_le_bytes, lemma_auto_spec_u32_to_from_le_bytes};
use vstd::prelude::*;
use vstd::slice::{slice_subrange, slice_to_vec};
use crate::error::RconError;

verus! {

/// Bytes of the request id, the type tag and the two terminator bytes: the
/// least value that a frame's declared length can take.
pub const HEADER_LEN: u32 = 10;

/// The largest declared length that a frame may carry. Anything larger is
/// taken for garbage rather than allocated.
pub const MAX_DECLARED_LEN: u32 = 65536;

/// The largest payload that one frame can carry.
pub const MAX_PAYLOAD_LEN: usize = 65526;

/// The kind of a packet, as the client reads it. On the wire `ExecCommand`
/// and `AuthResponse` share a tag: a received tag 2 reads as `AuthResponse`.
#[derive(Clone, Copy, Debug, PartialEq, Eq, Structural)]
pub enum PacketType {
    Auth,
    AuthResponse,
    ExecCommand,
    ResponseValue,
    /// A tag that none of the others has.
    Unknown(i32),
}

/// The wire tag of a packet type.
pub open spec fn type_code(t: PacketType) -> i32 {
    match t {
        PacketType::Auth => 3,
        PacketType::AuthResponse => 2,
        PacketType::ExecCommand => 2,
        PacketType::ResponseValue => 0,
        PacketType::Unknown(n) => n,
    }
}

/// The packet type that a tag received from a server stands for.
pub open spec fn type_of_code(n: i32) -> PacketType {
    if n == 3 {
        PacketType::Auth
    } else if n == 2 {
        PacketType::AuthResponse
    } else if n == 0 {
        PacketType::ResponseValue
    } else {
        PacketType::Unknown(n)
    }
}

/// A packet type that reads back as itself: every type but `ExecCommand`,
/// whose tag reads back as `AuthResponse`, and an `Unknown` that holds a tag
/// of a known type.
pub open spec fn type_reads_back(t: PacketType) -> bool {
    type_of_code(type_code(t)) == t
}

/// The mathematical value of a packet.
pub ghost struct PacketModel {
    pub request_id: i32,
    pub packet_type: PacketType,
    pub payload: Seq<u8>,
}

/// One protocol packet.
#[derive(Debug)]
pub struct Packet {
    pub request_id: i32,
    pub packet_type: PacketType,
    pub payload: Vec<u8>,
}

impl View for Packet {
    type V = PacketModel;

    open spec fn view(&self) -> PacketModel {
        PacketModel { request_id: self.request_id, packet_type: self.packet_type, payload: self.payload@ }
    }
}

impl PacketModel {
    /// The payload fits in one frame.
    pub open spec fn wf(self) -> bool {
        self.payload.len() <= MAX_PAYLOAD_LEN
    }
}

/// The four little-endian bytes of a signed 32-bit integer.
pub open spec fn le_i32(x: i32) -> Seq<u8> {
    spec_u32_to_le_bytes(#[verifier::truncate] (x as u32))
}

/// The signed 32-bit integer that four little-endian bytes hold.
pub open spec fn i32_of_le(b: Seq<u8>) -> i32 {
    #[verifier::truncate] (spec_u32_from_le_bytes(b) as i32)
}

/// The frame of a packet: declared length, request id, tag, payload and two
/// zero bytes, where the length counts everything after itself.
pub open spec fn encoding(p: PacketModel) -> Seq<u8> {
    le_i32((HEADER_LEN + p.payload.len()) as i32) + le_i32(p.request_id) + le_i32(type_code(p.packet_type))
        + p.payload + seq![0u8, 0u8]
}

/// The length that the first four bytes of `b` declare.
pub open spec fn declared_len(b: Seq<u8>) -> int {
    i32_of_le(b.subrange(0, 4)) as int
}

/// The declared length is one that a frame can have.
pub open spec fn declared_len_ok(n: int) -> bool {
    HEADER_LEN <= n <= MAX_DECLARED_LEN
}

/// `b` is exactly one well-formed frame.
pub open spec fn is_frame(b: Seq<u8>) -> bool {
    &&& b.len() >= 4
    &&& declared_len_ok(declared_len(b))
    &&& b.len() == 4 + declared_len(b)
    &&& b[b.len() - 2] == 0u8
    &&& b[b.len() - 1] == 0u8
}

/// The packet that a well-formed frame holds.
pub open spec fn frame_packet(b: Seq<u8>) -> PacketModel {
    PacketModel {
        request_id: i32_of_le(b.subrange(4, 8)),
        packet_type: type_of_code(i32_of_le(b.subrange(8, 12))),
        payload: b.subrange(12, b.len() - 2),
    }
}

proof fn lemma_i32_le_round_trip(x: i32)
    ensures
        le_i32(x).len() == 4,
        i32_of_le(le_i32(x)) == x,
{
    lemma_auto_spec_u32_to_from_le_bytes();
    let u: u32 = #[verifier::truncate] (x as u32);
    assert(spec_u32_to_le_bytes(u).len() == 4);
    assert(spec_u32_from_le_bytes(spec_u32_to_le_bytes(u)) == u);
    assert((#[verifier::truncate] (u as i32)) == x) by (bit_vector)
        requires
            u == #[verifier::truncate] (x as u32),
    ;
}

/// Decoding the frame of a packet gives the packet back, for every packet
/// whose payload fits in a frame and whose type reads back as itself.
pub proof fn lemma_decode_encode(p: PacketModel)
    requires
        p.wf(),
        type_reads_back(p.packet_type),
    ensures
        is_frame(encoding(p)),
        frame_packet(encoding(p)) == p,
{
    let len = (HEADER_LEN + p.payload.len()) as i32;
    let tag = type_code(p.packet_type);
    lemma_i32_le_round_trip(len);
    lemma_i32_le_round_trip(p.request_id);
    lemma_i32_le_round_trip(tag);
    let b = encoding(p);
    assert(b.subrange(0, 4) =~= le_i32(len));
    assert(b.subrange(4, 8) =~= le_i32(p.request_id));
    assert(b.subrange(8, 12) =~= le_i32(tag));
    assert(b.subrange(12, b.len() - 2) =~= p.payload);
    assert(frame_packet(b) =~= p);
}

/// A byte sequence that is shorter than four bytes, or shorter than the
/// frame its first four bytes declare, is no frame: decoding it fails.
pub proof fn lemma_short_input_is_no_frame(b: Seq<u8>)
    requires
        b.len() < 4 || b.len() < 4 + declared_len(b),
    ensures
        !is_frame(b),
{
}

fn i32_to_le(x: i32) -> (r: Vec<u8>)
    ensures
        r@ == le_i32(x),
{
    u32_to_le_bytes(#[verifier::truncate] (x as u32))
}

pub(crate) fn i32_from_le(b: &[u8], at: usize) -> (r: i32)
    requires
        at <= 8,
        at + 4 <= b@.len(),
    ensures
        r == i32_of_le(b@.subrange(at as int, at + 4)),
{
    #[verifier::truncate]
    (u32_from_le_bytes(slice_subrange(b, at, at + 4)) as i32)
}

fn tag_of(t: PacketType) -> (r: i32)
    ensures
        r == type_code(t),
{
    match t {
        PacketType::Auth => 3,
        PacketType::AuthResponse => 2,
        PacketType::ExecCommand => 2,
        PacketType::ResponseValue => 0,
        PacketType::Unknown(n) => n,
    }
}

fn type_of_tag(n: i32) -> (r: PacketType)
    ensures
        r == type_of_code(n),
{
    if n == 3 {
        PacketType::Auth
    } else if n == 2 {
        PacketType::AuthResponse
    } else if n == 0 {
        PacketType::ResponseValue
    } else {
        PacketType::Unknown(n)
    }
}

impl Packet {
    pub fn new(request_id: i32, packet_type: PacketType, payload: Vec<u8>) -> (r: Packet)
        ensures
            r@ == (PacketModel { request_id, packet_type, payload: payload@ }),
    {
        Packet { request_id, packet_type, payload }
    }

    /// The frame that carries this packet.
    pub fn encode(&self) -> (r: Vec<u8>)
        requires
            self@.wf(),
        ensures
            r@ == encoding(self@),
    {
        let mut r = i32_to_le((HEADER_LEN as usize + self.payload.len()) as i32);
        let mut id = i32_to_le(self.request_id);
        r.append(&mut id);
        let mut tag = i32_to_le(tag_of(self.packet_type));
        r.append(&mut tag);
        let mut body = slice_to_vec(self.payload.as_slice());
        r.append(&mut body);
        r.push(0u8);
        r.push(0u8);
        assert(r@ =~= encoding(self@));
        r
    }

    /// The packet that one frame holds, or `MalformedFrame` where `b` is not
    /// exactly one well-formed frame.
    pub fn decode(b: &[u8]) -> (r: Result<Packet, RconError>)
        ensures
            r is Ok <==> is_frame(b@),
            r matches Ok(p) ==> p@ == frame_packet(b@),
            r matches Err(e) ==> e == RconError::MalformedFrame,
    {
        if b.len() < 4 {
            return Err(RconError::MalformedFrame);
        }
        let declared = i32_from_le(b, 0);
        if declared < HEADER_LEN as i32 || declared > MAX_DECLARED_LEN as i32 {
            return Err(RconError::MalformedFrame);
        }
        if b.len() != 4 + declared as usize {
            return Err(RconError::MalformedFrame);
        }
        let n = b.len();
        if b[n - 2] != 0u8 || b[n - 1] != 0u8 {
            return Err(RconError::MalformedFrame);
        }
        let request_id = i32_from_le(b, 4);
        let packet_type = type_of_tag(i32_from_le(b, 8));
        let payload = slice_to_vec(slice_subrange(b, 12, n - 2));
        Ok(Packet { request_id, packet_type, payload })
    }
}

} // verus!
