//! A remote-console (RCON) protocol client, as a set of verified pure parts:
//! the frame codec, a reassembly buffer for the incoming byte stream, the
//! authentication handshake, the command executor and the session that
//! composes them. The caller owns the socket: it performs the actions that a
//! session asks for and hands back what the network did.
pub mod error;
pub mod packet;
pub mod frame_reader;
pub mod handshake;
pub mod executor;
pub mod session;
pub mod player_name;
