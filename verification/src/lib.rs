//! Message plane of a topic-oriented publish/subscribe broker.
//!
//! The crate holds the parts of the system that decide rather than perform:
//! the wire framing, topic validation, the session handshake, the payload
//! codecs, the client endpoints' frame handling and the server's topic router.
//! Transport, timers and task scheduling live with the caller, which feeds
//! these functions plain values and carries out the actions they return.

pub mod error;
pub mod topic;
pub mod wire;
pub mod frame;
pub mod buffer;
pub mod router;
pub mod trace;
pub mod codec;
pub mod handshake;
pub mod session;
pub mod endpoint;
