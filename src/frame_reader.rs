use vstd::prelude::*;
use crate::error::RconError;
use crate::packet::{encoding, lemma_decode_encode, type_reads_back, declared_len, declared_len_ok, frame_packet, i32_from_le, is_frame, Packet, PacketModel, HEADER_LEN, MAX_DECLARED_LEN};

verus! {

/// The number of bytes that the frame at the start of `buf` spans, length
/// prefix included.
pub open spec fn frame_span(buf: Seq<u8>) -> int {
    4 + declared_len(buf)
}

/// What the bytes at the start of a buffer give.
pub ghost enum ReadStep {
    /// The frame has not fully arrived.
    Pending,
    /// Its declared length is out of bounds, or the whole frame is not well
    /// formed.
    Malformed,
    /// A whole frame: the packet it holds, and the bytes after it.
    Frame(PacketModel, Seq<u8>),
}

pub open spec fn read_step(buf: Seq<u8>) -> ReadStep {
    if buf.len() < 4 {
        ReadStep::Pending
    } else if !declared_len_ok(declared_len(buf)) {
        ReadStep::Malformed
    } else if buf.len() < frame_span(buf) {
        ReadStep::Pending
    } else if is_frame(buf.subrange(0, frame_span(buf))) {
        ReadStep::Frame(frame_packet(buf.subrange(0, frame_span(buf))), buf.subrange(frame_span(buf), buf.len() as int))
    } else {
        ReadStep::Malformed
    }
}

/// A buffer that starts with the frame of a packet gives that packet and
/// the bytes after it.
pub proof fn lemma_read_step_frame(p: PacketModel, rest: Seq<u8>)
    requires
        p.wf(),
        type_reads_back(p.packet_type),
    ensures
        read_step(encoding(p) + rest) == ReadStep::Frame(p, rest),
{
    let f = encoding(p);
    let b = f + rest;
    lemma_decode_encode(p);
    assert(b.subrange(0, 4) =~= f.subrange(0, 4));
    assert(b.subrange(0, frame_span(b)) =~= f);
    assert(b.subrange(frame_span(b), b.len() as int) =~= rest);
}

/// Collects the bytes of one connection as they arrive and hands out whole
/// frames, so that a frame split over several reads is read as one.
pub struct FrameReader {
    buf: Vec<u8>,
}

impl View for FrameReader {
    type V = Seq<u8>;

    /// The bytes received and not yet handed out as a frame.
    closed spec fn view(&self) -> Seq<u8> {
        self.buf@
    }
}

impl FrameReader {
    pub fn new() -> (r: FrameReader)
        ensures
            r@ == Seq::<u8>::empty(),
    {
        FrameReader { buf: Vec::new() }
    }

    /// Appends bytes that arrived on the connection.
    pub fn push(&mut self, data: &[u8])
        ensures
            final(self)@ == old(self)@ + data@,
    {
        let mut more = vstd::slice::slice_to_vec(data);
        self.buf.append(&mut more);
    }

    /// Whether no byte is waiting: a close of the connection here falls
    /// between frames.
    pub fn is_empty(&self) -> (r: bool)
        ensures
            r == (self@.len() == 0),
    {
        self.buf.len() == 0
    }

    /// Takes the first frame off the buffer once all of it has arrived.
    /// Gives `None` while the length prefix or the rest of the frame is
    /// still missing, and `MalformedFrame`, with the buffer left as it was,
    /// where the declared length is out of bounds or the complete frame is
    /// not well formed.
    pub fn next_packet(&mut self) -> (r: Result<Option<Packet>, RconError>)
        ensures
            match read_step(old(self)@) {
                ReadStep::Pending => r == Ok::<Option<Packet>, RconError>(None) && final(self)@ == old(self)@,
                ReadStep::Malformed => r == Err::<Option<Packet>, RconError>(RconError::MalformedFrame)
                    && final(self)@ == old(self)@,
                ReadStep::Frame(p, rest) => r matches Ok(Some(q)) && q@ == p && final(self)@ == rest,
            },
    {
        if self.buf.len() < 4 {
            return Ok(None);
        }
        let declared = i32_from_le(self.buf.as_slice(), 0);
        assert(self.buf@.subrange(0, 4) == self@.subrange(0, 4));
        if declared < HEADER_LEN as i32 || declared > MAX_DECLARED_LEN as i32 {
            return Err(RconError::MalformedFrame);
        }
        let end = 4 + declared as usize;
        if self.buf.len() < end {
            return Ok(None);
        }
        let frame = vstd::slice::slice_subrange(self.buf.as_slice(), 0, end);
        assert(frame@.subrange(0, 4) =~= self.buf@.subrange(0, 4));
        match Packet::decode(frame) {
            Ok(p) => {
                let rest = self.buf.split_off(end);
                self.buf = rest;
                Ok(Some(p))
            },
            Err(e) => Err(e),
        }
    }
}

} // verus!
