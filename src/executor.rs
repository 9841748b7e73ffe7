use vstd::prelude::*;
use crate::error::RconError;
use crate::packet::{Packet, PacketModel, PacketType};

verus! {

/// How the end of a reply is found, since the protocol marks none.
#[derive(Clone, Copy, Debug, PartialEq, Eq, Structural)]
pub enum QuirkMode {
    /// Exactly one packet answers the command.
    Strict,
    /// An empty sentinel request follows the command; since the server
    /// answers in order, its answer marks the end of the command's reply.
    LenientSentinel,
}

/// Whether the executor is still collecting the reply.
#[derive(Clone, Copy, Debug, PartialEq, Eq, Structural)]
pub enum ExecPhase {
    Accumulating,
    BoundarySeen,
}

/// The mathematical value of an executor.
pub ghost struct ExecModel {
    pub mode: QuirkMode,
    pub command_id: i32,
    pub sentinel_id: i32,
    pub phase: ExecPhase,
    pub reply: Seq<u8>,
}

/// The state after one more reply packet, and whether the reply is complete.
pub open spec fn exec_step(e: ExecModel, p: PacketModel) -> (ExecModel, Result<bool, RconError>) {
    if p.request_id == e.command_id {
        let reply = e.reply + p.payload;
        match e.mode {
            QuirkMode::Strict => (ExecModel { phase: ExecPhase::BoundarySeen, reply, ..e }, Ok(true)),
            QuirkMode::LenientSentinel => (ExecModel { reply, ..e }, Ok(false)),
        }
    } else if e.mode == QuirkMode::LenientSentinel && p.request_id == e.sentinel_id {
        (ExecModel { phase: ExecPhase::BoundarySeen, ..e }, Ok(true))
    } else {
        (e, Err(RconError::UnexpectedRequestId))
    }
}

/// Feeds packets one by one, stopping at the first that completes the
/// reply or fails.
pub open spec fn exec_run(e: ExecModel, ps: Seq<PacketModel>) -> (ExecModel, Result<bool, RconError>)
    decreases ps.len(),
{
    if ps.len() == 0 {
        (e, Ok(false))
    } else {
        let (e1, r1) = exec_run(e, ps.drop_last());
        if r1 == Ok::<bool, RconError>(false) {
            exec_step(e1, ps.last())
        } else {
            (e1, r1)
        }
    }
}

/// The payloads of a sequence of packets, one after another.
pub open spec fn joined_payloads(ps: Seq<PacketModel>) -> Seq<u8>
    decreases ps.len(),
{
    if ps.len() == 0 {
        Seq::empty()
    } else {
        joined_payloads(ps.drop_last()) + ps.last().payload
    }
}

proof fn lemma_command_packets_accumulate(e: ExecModel, ps: Seq<PacketModel>)
    requires
        e.mode == QuirkMode::LenientSentinel,
        forall|i: int| 0 <= i < ps.len() ==> #[trigger] ps[i].request_id == e.command_id,
    ensures
        exec_run(e, ps) == (ExecModel { reply: e.reply + joined_payloads(ps), ..e }, Ok::<bool, RconError>(false)),
    decreases ps.len(),
{
    if ps.len() == 0 {
        assert(e.reply + joined_payloads(ps) =~= e.reply);
    } else {
        let init = ps.drop_last();
        assert forall|i: int| 0 <= i < init.len() implies #[trigger] init[i].request_id == e.command_id by {
            assert(init[i] == ps[i]);
        }
        lemma_command_packets_accumulate(e, init);
        assert(ps.last() == ps[ps.len() - 1]);
        assert(e.reply + joined_payloads(init) + ps.last().payload =~= e.reply + joined_payloads(ps));
    }
}

/// With the sentinel strategy, any number of packets under the command's id
/// followed by one under the sentinel's id complete the reply, and the
/// reply is the payloads of the command's packets joined in order: the
/// sentinel's own payload is left out.
pub proof fn lemma_sentinel_reassembly(e: ExecModel, ps: Seq<PacketModel>, sentinel: PacketModel)
    requires
        e.mode == QuirkMode::LenientSentinel,
        e.command_id != e.sentinel_id,
        forall|i: int| 0 <= i < ps.len() ==> #[trigger] ps[i].request_id == e.command_id,
        sentinel.request_id == e.sentinel_id,
    ensures
        exec_run(e, ps.push(sentinel)) == (
            ExecModel { phase: ExecPhase::BoundarySeen, reply: e.reply + joined_payloads(ps), ..e },
            Ok::<bool, RconError>(true),
        ),
{
    lemma_command_packets_accumulate(e, ps);
    assert(ps.push(sentinel).drop_last() =~= ps);
}

/// The packets that one command sends: the command itself and, in
/// `LenientSentinel` mode, an empty sentinel under its own id.
pub open spec fn request_models(mode: QuirkMode, command_id: i32, sentinel_id: i32, command: Seq<u8>) -> Seq<PacketModel> {
    let cmd = PacketModel { request_id: command_id, packet_type: PacketType::ExecCommand, payload: command };
    match mode {
        QuirkMode::Strict => seq![cmd],
        QuirkMode::LenientSentinel => seq![
            cmd,
            PacketModel { request_id: sentinel_id, packet_type: PacketType::ExecCommand, payload: Seq::empty() },
        ],
    }
}

/// One command exchange: sends the command, then gathers the payloads of
/// the packets that answer it into one reply.
pub struct Executor {
    mode: QuirkMode,
    command_id: i32,
    sentinel_id: i32,
    phase: ExecPhase,
    reply: Vec<u8>,
}

impl View for Executor {
    type V = ExecModel;

    closed spec fn view(&self) -> ExecModel {
        ExecModel {
            mode: self.mode,
            command_id: self.command_id,
            sentinel_id: self.sentinel_id,
            phase: self.phase,
            reply: self.reply@,
        }
    }
}

impl Executor {
    pub fn new(mode: QuirkMode, command_id: i32, sentinel_id: i32) -> (r: Executor)
        requires
            command_id != sentinel_id,
        ensures
            r@ == (ExecModel { mode, command_id, sentinel_id, phase: ExecPhase::Accumulating, reply: Seq::empty() }),
    {
        Executor { mode, command_id, sentinel_id, phase: ExecPhase::Accumulating, reply: Vec::new() }
    }

    pub fn phase(&self) -> (r: ExecPhase)
        ensures
            r == self@.phase,
    {
        self.phase
    }

    /// The packets to send, in order, to run `command`.
    pub fn request_packets(&self, command: &[u8]) -> (r: Vec<Packet>)
        ensures
            r@.len() == request_models(self@.mode, self@.command_id, self@.sentinel_id, command@).len(),
            forall|i: int|
                0 <= i < r@.len() ==> #[trigger] r@[i]@ == request_models(
                    self@.mode,
                    self@.command_id,
                    self@.sentinel_id,
                    command@,
                )[i],
    {
        let payload = vstd::slice::slice_to_vec(command);
        let mut r: Vec<Packet> = Vec::new();
        r.push(Packet::new(self.command_id, PacketType::ExecCommand, payload));
        match self.mode {
            QuirkMode::Strict => {},
            QuirkMode::LenientSentinel => {
                r.push(Packet::new(self.sentinel_id, PacketType::ExecCommand, Vec::new()));
            },
        }
        r
    }

    /// Reads one packet of the reply. `Ok(true)` once the reply is complete.
    pub fn on_packet(&mut self, p: Packet) -> (r: Result<bool, RconError>)
        requires
            old(self)@.phase == ExecPhase::Accumulating,
        ensures
            (final(self)@, r) == exec_step(old(self)@, p@),
    {
        if p.request_id == self.command_id {
            let mut payload = p.payload;
            self.reply.append(&mut payload);
            match self.mode {
                QuirkMode::Strict => {
                    self.phase = ExecPhase::BoundarySeen;
                    Ok(true)
                },
                QuirkMode::LenientSentinel => Ok(false),
            }
        } else if self.mode == QuirkMode::LenientSentinel && p.request_id == self.sentinel_id {
            self.phase = ExecPhase::BoundarySeen;
            Ok(true)
        } else {
            Err(RconError::UnexpectedRequestId)
        }
    }

    /// The payload bytes gathered so far.
    pub fn reply_bytes(&self) -> (r: &[u8])
        ensures
            r@ == self@.reply,
    {
        self.reply.as_slice()
    }
}

} // verus!
