use vstd::prelude::*;
use vstd::string::StringSliceAdditionalSpecFns;
use crate::error::RconError;
use crate::executor::{exec_step, request_models, ExecModel, ExecPhase, Executor, QuirkMode};
use crate::frame_reader::{lemma_read_step_frame, read_step, FrameReader, ReadStep};
use crate::handshake::{auth_step, AuthResult, Handshake};
use crate::packet::{encoding, PacketModel, PacketType, MAX_PAYLOAD_LEN};

verus! {

/// The id of the login request.
pub const LOGIN_ID: i32 = 1;

/// The id of the command request.
pub const COMMAND_ID: i32 = 2;

/// The id of the sentinel request that follows the command.
pub const SENTINEL_ID: i32 = 3;

/// The text that a reply's bytes read as.
pub uninterp spec fn text_of(b: Seq<u8>) -> Seq<char>;

/// Relies on `String::from_utf8_lossy`: the bytes read as UTF-8, with each
/// invalid sequence replaced; the text depends on the bytes alone.
#[verifier::external_body]
fn lossy_text(b: &[u8]) -> (r: String)
    ensures
        r@ == text_of(b@),
{
    String::from_utf8_lossy(b).into_owned()
}

/// What the caller is configured with, besides address and password.
#[derive(Clone, Copy, Debug, PartialEq, Eq, Structural)]
pub struct Options {
    /// How long connecting may take, in milliseconds.
    pub connect_timeout_ms: u64,
    pub quirk_mode: QuirkMode,
}

impl Options {
    /// Five seconds to connect, and the sentinel strategy for replies.
    pub fn standard() -> (r: Options)
        ensures
            r == (Options { connect_timeout_ms: 5000, quirk_mode: QuirkMode::LenientSentinel }),
    {
        Options { connect_timeout_ms: 5000, quirk_mode: QuirkMode::LenientSentinel }
    }
}

/// Where a session stands.
#[derive(Clone, Copy, Debug, PartialEq, Eq, Structural)]
pub enum SessionPhase {
    Connecting,
    Authenticating,
    Executing,
    Finished,
}

/// What the caller does next on behalf of a session.
#[derive(Debug)]
pub enum Action {
    /// Write these bytes to the connection, then call `poll`.
    Send(Vec<u8>),
    /// Wait for bytes, then hand them to `received`, or report a close.
    Receive,
    /// Call `poll` again: more buffered bytes may form a frame.
    Continue,
    /// Close the connection and return this to the user.
    Finish(Result<String, RconError>),
}

pub ghost enum ActionModel {
    Send(Seq<u8>),
    Receive,
    Continue,
    Finish(Result<Seq<char>, RconError>),
}

impl View for Action {
    type V = ActionModel;

    open spec fn view(&self) -> ActionModel {
        match self {
            Action::Send(b) => ActionModel::Send(b@),
            Action::Receive => ActionModel::Receive,
            Action::Continue => ActionModel::Continue,
            Action::Finish(Ok(s)) => ActionModel::Finish(Ok(s@)),
            Action::Finish(Err(e)) => ActionModel::Finish(Err(*e)),
        }
    }
}

/// The mathematical value of a session.
pub ghost struct SessionModel {
    pub phase: SessionPhase,
    pub buffer: Seq<u8>,
    pub handshake: Handshake,
    pub command_exec: ExecModel,
    pub password: Seq<u8>,
    pub command: Seq<u8>,
}

impl SessionModel {
    pub open spec fn wf(self) -> bool {
        &&& self.password.len() <= MAX_PAYLOAD_LEN
        &&& self.command.len() <= MAX_PAYLOAD_LEN
        &&& self.handshake.request_id == LOGIN_ID
        &&& self.command_exec.command_id == COMMAND_ID
        &&& self.command_exec.sentinel_id == SENTINEL_ID
        &&& self.phase == SessionPhase::Authenticating ==> self.handshake.wf()
        &&& self.phase == SessionPhase::Connecting ==> self.handshake.seen == 0
        &&& self.phase != SessionPhase::Finished ==> self.command_exec.phase == ExecPhase::Accumulating
    }

    /// The same session, finished.
    pub open spec fn finish(self) -> SessionModel {
        SessionModel { phase: SessionPhase::Finished, ..self }
    }
}

/// The login frame of a session.
pub open spec fn login_bytes(password: Seq<u8>) -> Seq<u8> {
    encoding(PacketModel { request_id: LOGIN_ID, packet_type: PacketType::Auth, payload: password })
}

/// The bytes that run a command: its frame, then the sentinel's if any.
pub open spec fn command_bytes(mode: QuirkMode, command: Seq<u8>) -> Seq<u8> {
    let ps = request_models(mode, COMMAND_ID, SENTINEL_ID, command);
    match mode {
        QuirkMode::Strict => encoding(ps[0]),
        QuirkMode::LenientSentinel => encoding(ps[0]) + encoding(ps[1]),
    }
}

/// One step of a session that reads what is buffered: the next state and
/// the action that the caller takes.
pub open spec fn poll_step(s: SessionModel) -> (SessionModel, ActionModel) {
    match read_step(s.buffer) {
        ReadStep::Pending => (s, ActionModel::Receive),
        ReadStep::Malformed => (s.finish(), ActionModel::Finish(Err(RconError::MalformedFrame))),
        ReadStep::Frame(p, rest) => {
            if s.phase == SessionPhase::Authenticating {
                let (h, out) = auth_step(s.handshake, p);
                let s1 = SessionModel { buffer: rest, handshake: h, ..s };
                match out {
                    None => (s1, ActionModel::Continue),
                    Some(AuthResult::Authenticated) => (
                        SessionModel { phase: SessionPhase::Executing, ..s1 },
                        ActionModel::Send(command_bytes(s.command_exec.mode, s.command)),
                    ),
                    Some(AuthResult::Rejected) => (s1.finish(), ActionModel::Finish(Err(RconError::AuthFailed))),
                    Some(AuthResult::ProtocolError) => (
                        s1.finish(),
                        ActionModel::Finish(Err(RconError::ProtocolError)),
                    ),
                }
            } else {
                let (e, out) = exec_step(s.command_exec, p);
                let s1 = SessionModel { buffer: rest, command_exec: e, ..s };
                match out {
                    Err(err) => (s1.finish(), ActionModel::Finish(Err(err))),
                    Ok(false) => (s1, ActionModel::Continue),
                    Ok(true) => (s1.finish(), ActionModel::Finish(Ok(text_of(e.reply)))),
                }
            }
        },
    }
}

/// The error that a close of the connection gives in each phase: during
/// login it counts as a rejection, since some servers close instead of
/// answering a wrong password.
pub open spec fn close_error(phase: SessionPhase) -> RconError {
    if phase == SessionPhase::Authenticating {
        RconError::AuthFailed
    } else {
        RconError::ConnectionClosed
    }
}

/// A login that the server answers with id -1 ends the session with
/// `AuthFailed` and asks the caller to close the connection, whatever the
/// password, the command, and the bytes that follow the answer. Every
/// session starts from the same state for the same inputs, so a call that
/// repeats a wrong password fails the same way each time.
pub proof fn lemma_rejected_login_fails(s: SessionModel, payload: Seq<u8>, rest: Seq<u8>)
    requires
        s.wf(),
        s.phase == SessionPhase::Authenticating,
        payload.len() <= MAX_PAYLOAD_LEN,
        s.buffer == encoding(PacketModel { request_id: -1i32, packet_type: PacketType::AuthResponse, payload }) + rest,
    ensures
        poll_step(s).0.phase == SessionPhase::Finished,
        poll_step(s).1 == ActionModel::Finish(Err(RconError::AuthFailed)),
{
    let p = PacketModel { request_id: -1i32, packet_type: PacketType::AuthResponse, payload };
    lemma_read_step_frame(p, rest);
}

/// One call: connect, log in, run one command, and end. The session makes
/// every decision; the caller owns the connection, performs the actions the
/// session returns, and reports what the network did.
pub struct Session {
    phase: SessionPhase,
    reader: FrameReader,
    handshake: Handshake,
    executor: Executor,
    password: Vec<u8>,
    command: Vec<u8>,
}

impl View for Session {
    type V = SessionModel;

    closed spec fn view(&self) -> SessionModel {
        SessionModel {
            phase: self.phase,
            buffer: self.reader@,
            handshake: self.handshake,
            command_exec: self.executor@,
            password: self.password@,
            command: self.command@,
        }
    }
}

impl Session {
    /// A session that has yet to connect.
    pub fn new(password: &str, command: &str, mode: QuirkMode) -> (r: Session)
        requires
            password.spec_bytes().len() <= MAX_PAYLOAD_LEN,
            command.spec_bytes().len() <= MAX_PAYLOAD_LEN,
        ensures
            r@.wf(),
            r@.phase == SessionPhase::Connecting,
            r@.buffer == Seq::<u8>::empty(),
            r@.handshake == (Handshake { request_id: LOGIN_ID, seen: 0 }),
            r@.command_exec == (ExecModel {
                mode,
                command_id: COMMAND_ID,
                sentinel_id: SENTINEL_ID,
                phase: ExecPhase::Accumulating,
                reply: Seq::empty(),
            }),
            r@.password == password.spec_bytes(),
            r@.command == command.spec_bytes(),
    {
        Session {
            phase: SessionPhase::Connecting,
            reader: FrameReader::new(),
            handshake: Handshake::new(LOGIN_ID),
            executor: Executor::new(mode, COMMAND_ID, SENTINEL_ID),
            password: vstd::slice::slice_to_vec(password.as_bytes()),
            command: vstd::slice::slice_to_vec(command.as_bytes()),
        }
    }

    pub fn phase(&self) -> (r: SessionPhase)
        ensures
            r == self@.phase,
    {
        self.phase
    }

    /// The connection is open: send the login.
    pub fn connected(&mut self) -> (r: Action)
        requires
            old(self)@.wf(),
            old(self)@.phase == SessionPhase::Connecting,
        ensures
            final(self)@ == (SessionModel { phase: SessionPhase::Authenticating, ..old(self)@ }),
            final(self)@.wf(),
            r@ == ActionModel::Send(login_bytes(old(self)@.password)),
    {
        self.phase = SessionPhase::Authenticating;
        let login = self.handshake.login_packet(self.password.as_slice()).encode();
        Action::Send(login)
    }

    /// The connection could not be opened.
    pub fn connect_failed(&mut self) -> (r: Action)
        requires
            old(self)@.phase == SessionPhase::Connecting,
        ensures
            final(self)@ == old(self)@.finish(),
            r@ == ActionModel::Finish(Err(RconError::ConnectError)),
    {
        self.phase = SessionPhase::Finished;
        Action::Finish(Err(RconError::ConnectError))
    }

    /// Bytes arrived on the connection.
    pub fn received(&mut self, data: &[u8])
        ensures
            final(self)@ == (SessionModel { buffer: old(self)@.buffer + data@, ..old(self)@ }),
    {
        self.reader.push(data);
    }

    /// The peer closed the connection.
    pub fn closed(&mut self) -> (r: Action)
        requires
            old(self)@.phase == SessionPhase::Authenticating || old(self)@.phase == SessionPhase::Executing,
        ensures
            final(self)@ == old(self)@.finish(),
            r@ == ActionModel::Finish(Err(close_error(old(self)@.phase))),
    {
        let e = if self.phase == SessionPhase::Authenticating {
            RconError::AuthFailed
        } else {
            RconError::ConnectionClosed
        };
        self.phase = SessionPhase::Finished;
        Action::Finish(Err(e))
    }

    /// Reads at most one frame from what has arrived and acts on it.
    pub fn poll(&mut self) -> (r: Action)
        requires
            old(self)@.wf(),
            old(self)@.phase == SessionPhase::Authenticating || old(self)@.phase == SessionPhase::Executing,
        ensures
            (final(self)@, r@) == poll_step(old(self)@),
            final(self)@.wf(),
    {
        let p = match self.reader.next_packet() {
            Err(e) => {
                self.phase = SessionPhase::Finished;
                return Action::Finish(Err(e));
            },
            Ok(None) => {
                return Action::Receive;
            },
            Ok(Some(p)) => p,
        };
        if self.phase == SessionPhase::Authenticating {
            match self.handshake.on_packet(&p) {
                None => Action::Continue,
                Some(AuthResult::Authenticated) => {
                    self.phase = SessionPhase::Executing;
                    Action::Send(self.command_bytes())
                },
                Some(AuthResult::Rejected) => {
                    self.phase = SessionPhase::Finished;
                    Action::Finish(Err(RconError::AuthFailed))
                },
                Some(AuthResult::ProtocolError) => {
                    self.phase = SessionPhase::Finished;
                    Action::Finish(Err(RconError::ProtocolError))
                },
            }
        } else {
            match self.executor.on_packet(p) {
                Err(e) => {
                    self.phase = SessionPhase::Finished;
                    Action::Finish(Err(e))
                },
                Ok(false) => Action::Continue,
                Ok(true) => {
                    self.phase = SessionPhase::Finished;
                    Action::Finish(Ok(lossy_text(self.executor.reply_bytes())))
                },
            }
        }
    }

    fn command_bytes(&self) -> (r: Vec<u8>)
        requires
            self@.wf(),
        ensures
            r@ == command_bytes(self@.command_exec.mode, self@.command),
    {
        let packets = self.executor.request_packets(self.command.as_slice());
        let mut out = packets[0].encode();
        if packets.len() > 1 {
            let mut sentinel = packets[1].encode();
            out.append(&mut sentinel);
        }
        out
    }
}

} // verus!
