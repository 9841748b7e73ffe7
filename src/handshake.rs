use vstd::prelude::*;
use crate::packet::{Packet, PacketModel, PacketType};

verus! {

/// How many packets the login exchange reads at most before it gives up.
pub const MAX_AUTH_PACKETS: u32 = 3;

/// How a server answered a login.
#[derive(Clone, Copy, Debug, PartialEq, Eq, Structural)]
pub enum AuthResult {
    Authenticated,
    Rejected,
    /// The exchange did not complete: no login answer within the bounded
    /// packet count, or an answer under an id that is neither ours nor -1.
    ProtocolError,
}

/// What a login answer under `got` means for a login sent under `sent`.
pub open spec fn classify(sent: i32, got: i32) -> AuthResult {
    if got == sent {
        AuthResult::Authenticated
    } else if got == -1 {
        AuthResult::Rejected
    } else {
        AuthResult::ProtocolError
    }
}

/// The login exchange: one `Auth` packet out, then packets in until an
/// `AuthResponse` comes. Packets of other types before it are skipped.
#[derive(Clone, Copy, Debug, PartialEq, Eq, Structural)]
pub struct Handshake {
    /// The id that the login packet carries.
    pub request_id: i32,
    /// How many packets have been read so far.
    pub seen: u32,
}

/// The state after one more packet, and the outcome once there is one.
pub open spec fn auth_step(h: Handshake, p: PacketModel) -> (Handshake, Option<AuthResult>) {
    let next = Handshake { request_id: h.request_id, seen: (h.seen + 1) as u32 };
    if p.packet_type == PacketType::AuthResponse {
        (next, Some(classify(h.request_id, p.request_id)))
    } else if h.seen + 1 >= MAX_AUTH_PACKETS {
        (next, Some(AuthResult::ProtocolError))
    } else {
        (next, None)
    }
}

impl Handshake {
    pub open spec fn wf(self) -> bool {
        &&& self.request_id >= 0
        &&& self.seen < MAX_AUTH_PACKETS
    }

    pub fn new(request_id: i32) -> (r: Handshake)
        requires
            request_id >= 0,
        ensures
            r == (Handshake { request_id, seen: 0 }),
            r.wf(),
    {
        Handshake { request_id, seen: 0 }
    }

    /// The login packet, which carries the password as its payload.
    pub fn login_packet(&self, password: &[u8]) -> (r: Packet)
        ensures
            r@ == (PacketModel {
                request_id: self.request_id,
                packet_type: PacketType::Auth,
                payload: password@,
            }),
    {
        let payload = vstd::slice::slice_to_vec(password);
        Packet::new(self.request_id, PacketType::Auth, payload)
    }

    /// Reads one packet of the exchange. `Some` once the exchange is over.
    pub fn on_packet(&mut self, p: &Packet) -> (r: Option<AuthResult>)
        requires
            old(self).wf(),
        ensures
            (*final(self), r) == auth_step(*old(self), p@),
            r is None ==> final(self).wf(),
    {
        self.seen = self.seen + 1;
        if p.packet_type == PacketType::AuthResponse {
            if p.request_id == self.request_id {
                Some(AuthResult::Authenticated)
            } else if p.request_id == -1 {
                Some(AuthResult::Rejected)
            } else {
                Some(AuthResult::ProtocolError)
            }
        } else if self.seen >= MAX_AUTH_PACKETS {
            Some(AuthResult::ProtocolError)
        } else {
            None
        }
    }
}

} // verus!
