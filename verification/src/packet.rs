//! The unit of application-level communication and connection identity.

use vstd::prelude::*;

verus! {

/// An opaque, unique identifier for one logical connection.
///
/// It carries no ownership of the underlying socket; the connection
/// manager uses it for lookups and for attributing errors to a peer.
#[derive(Clone, Copy, Debug, PartialEq, Eq, Hash, Structural)]
pub struct ConnectionId {
    /// The numeric identity assigned by the connection manager.
    pub id: u64,
}

/// One application-level message: a type discriminator naming the
/// message kind, plus an opaque payload of bytes.
///
/// Packets are immutable once constructed; they exist only in transit
/// between the codec and a channel.
#[derive(Clone, Debug)]
pub struct NetworkPacket {
    /// Discriminator identifying the application message kind.
    pub kind: String,
    /// Opaque payload bytes for the application to interpret.
    pub payload: Vec<u8>,
}

/// The mathematical value of a [`NetworkPacket`]: its kind as a sequence
/// of characters and its payload as a sequence of bytes.
pub struct PacketModel {
    /// The message-kind discriminator.
    pub kind: Seq<char>,
    /// The payload bytes.
    pub payload: Seq<u8>,
}

impl View for NetworkPacket {
    type V = PacketModel;

    open spec fn view(&self) -> PacketModel {
        PacketModel { kind: self.kind@, payload: self.payload@ }
    }
}

impl NetworkPacket {
    /// Builds a packet from its kind and payload.
    pub fn new(kind: String, payload: Vec<u8>) -> (r: NetworkPacket)
        ensures
            r@.kind == kind@,
            r@.payload == payload@,
    {
        NetworkPacket { kind, payload }
    }
}

} // verus!
