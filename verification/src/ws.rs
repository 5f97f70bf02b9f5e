//! The WebSocket-over-TCP transport backend.
//!
//! A connected socket is a WebSocket stream over TCP behind a shared,
//! lock-guarded handle (`Arc<Mutex<..>>`). Splitting a socket yields the
//! read half and the write half as two handles to that one resource: the
//! two loops get concurrent but mutually exclusive access, not disjoint
//! halves of memory. The asynchronous loops themselves live outside the
//! library; their per-step decisions are the verified functions of
//! [`crate::framing`] and [`crate::accept`].

use std::sync::Arc;

use futures_util::lock::Mutex;
use vstd::prelude::*;

use crate::framing::DEFAULT_MAX_MESSAGE_SIZE;

verus! {

#[verifier::external_type_specification]
#[verifier::external_body]
#[verifier::reject_recursive_types(T)]
pub struct ExMutex<T: ?Sized>(Mutex<T>);

/// The bound applied to one WebSocket frame where the settings do not
/// name one: 16 MiB.
pub const DEFAULT_MAX_FRAME_SIZE: usize = 16 * 1024 * 1024;

/// Transport configuration shared by all loops of one provider
/// instance; never mutated after creation.
#[derive(Clone, Debug)]
pub struct NetworkSettings {
    /// The largest message body the loops accept, in bytes.
    /// `None` means the 64 MiB default.
    pub max_message_size: Option<usize>,
    /// The largest WebSocket frame the backend accepts, in bytes.
    /// `None` means the 16 MiB default.
    pub max_frame_size: Option<usize>,
}

impl NetworkSettings {
    /// The message-size bound the loops enforce.
    pub open spec fn spec_max_message_size(&self) -> usize {
        match self.max_message_size {
            Some(n) => n,
            None => DEFAULT_MAX_MESSAGE_SIZE,
        }
    }

    /// The message-size bound the loops enforce: the configured value,
    /// or 64 MiB where none is set.
    pub fn effective_max_message_size(&self) -> (r: usize)
        ensures
            r == self.spec_max_message_size(),
    {
        match self.max_message_size {
            Some(n) => n,
            None => DEFAULT_MAX_MESSAGE_SIZE,
        }
    }
}

impl Default for NetworkSettings {
    /// The backend's defaults: 64 MiB messages, 16 MiB frames.
    fn default() -> (r: NetworkSettings)
        ensures
            r.max_message_size == Some(DEFAULT_MAX_MESSAGE_SIZE),
            r.max_frame_size == Some(DEFAULT_MAX_FRAME_SIZE),
    {
        NetworkSettings {
            max_message_size: Some(DEFAULT_MAX_MESSAGE_SIZE),
            max_frame_size: Some(DEFAULT_MAX_FRAME_SIZE),
        }
    }
}

/// The WebSocket transport provider. Its sockets are WebSocket streams
/// over TCP, held as `Arc<Mutex<..>>` shared handles.
#[derive(Debug)]
pub struct WebSocketProvider;

impl WebSocketProvider {
    /// Derives the read half and the write half from one connected
    /// socket. Both are the same shared resource: access is concurrent
    /// but serialized by the socket's lock, so neither half is a
    /// disjoint region of memory.
    pub fn split<T>(combined: Arc<Mutex<T>>) -> (r: (Arc<Mutex<T>>, Arc<Mutex<T>>))
        ensures
            r.0 == combined,
            r.1 == combined,
    {
        let read_half = clone_socket_handle(&combined);
        (read_half, combined)
    }
}

/// Relies on `Arc::clone`: the clone is a handle to the same shared
/// allocation as its argument.
#[verifier::external_body]
fn clone_socket_handle<T>(socket: &Arc<Mutex<T>>) -> (r: Arc<Mutex<T>>)
    ensures
        r == *socket,
{
    socket.clone()
}

} // verus!
