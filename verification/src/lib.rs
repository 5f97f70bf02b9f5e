//! Message-oriented transport core for a WebSocket-backed networking layer.
//!
//! The crate provides the pieces of a transport backend that are pure
//! computation: the binary codec for [`NetworkPacket`] values, the
//! length-prefixed framing protocol used by the send and receive loops,
//! the error taxonomy every component reports into, and the state machine
//! that drives the accept sequence. The asynchronous I/O shell that feeds
//! bytes and events into these functions lives outside the library.

pub mod accept;
pub mod error;
pub mod framing;
pub mod packet;
pub mod serialize;
pub mod ws;

pub use error::{NetworkError, WsError};
pub use packet::{ConnectionId, NetworkPacket};
pub use serialize::{BincodeSerializer, NetworkSerializer};
pub use ws::{NetworkSettings, WebSocketProvider};
