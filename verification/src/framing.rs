//! The length-prefixed framing protocol layered on the transport.
//!
//! On the wire each message is an 8-byte unsigned little-endian length
//! `L` followed by `L` bytes of codec-encoded packet. The receive loop
//! reads 8 header bytes: zero bytes before end-of-file is a clean peer
//! disconnect, one to seven is a fatal framing violation, and a declared
//! length above the configured bound is a protocol violation that must
//! be rejected before any body is read.

use vstd::prelude::*;
use vstd::bytes::{
    lemma_auto_spec_u64_to_from_le_bytes, spec_u64_from_le_bytes, spec_u64_to_le_bytes,
    u64_from_le_bytes, u64_to_le_bytes,
};
use vstd::slice::{slice_subrange, slice_to_vec};

use crate::error::NetworkError;
use crate::packet::{NetworkPacket, PacketModel};
use crate::serialize::{encodable, spec_decode, spec_encode, BincodeSerializer, NetworkSerializer};

verus! {

/// The bound applied to one message's byte length where the settings do
/// not name one: 64 MiB.
pub const DEFAULT_MAX_MESSAGE_SIZE: usize = 64 * 1024 * 1024;

/// The bytes one framed message occupies on the wire.
pub open spec fn spec_frame(body: Seq<u8>) -> Seq<u8> {
    spec_u64_to_le_bytes(body.len() as u64) + body
}

/// The bytes a whole sequence of framed messages occupies on the wire.
pub open spec fn spec_concat_frames(bodies: Seq<Seq<u8>>) -> Seq<u8>
    decreases bodies.len(),
{
    if bodies.len() == 0 {
        Seq::empty()
    } else {
        spec_frame(bodies[0]) + spec_concat_frames(bodies.skip(1))
    }
}

/// What one read of the 8 header bytes means.
#[derive(Clone, Copy, Debug, PartialEq, Eq, Structural)]
pub enum HeaderOutcome {
    /// Zero bytes before end-of-file: the peer disconnected cleanly.
    Disconnected,
    /// Between one and seven bytes: the stream is desynchronized, a
    /// fatal framing violation.
    TruncatedHeader,
    /// A full header whose declared length exceeds the bound; the body
    /// must not be read or buffered.
    TooLarge(u64),
    /// A full header: read exactly this many body bytes next.
    Body(usize),
}

/// Classifies one header read: `n_read` is how many bytes arrived before
/// end-of-file, `header` the 8-byte header buffer, of which the first
/// `n_read` bytes are meaningful.
pub fn classify_header(n_read: usize, header: &[u8], max_message_size: usize) -> (r:
    HeaderOutcome)
    requires
        n_read <= 8,
        header@.len() == 8,
    ensures
        n_read == 0 ==> r == HeaderOutcome::Disconnected,
        0 < n_read < 8 ==> r == HeaderOutcome::TruncatedHeader,
        n_read == 8 ==> {
            let l = spec_u64_from_le_bytes(header@);
            if l > max_message_size {
                r == HeaderOutcome::TooLarge(l)
            } else {
                r == HeaderOutcome::Body(l as usize)
            }
        },
{
    if n_read == 0 {
        HeaderOutcome::Disconnected
    } else if n_read < 8 {
        HeaderOutcome::TruncatedHeader
    } else {
        let l = u64_from_le_bytes(header);
        if l > max_message_size as u64 {
            HeaderOutcome::TooLarge(l)
        } else {
            HeaderOutcome::Body(l as usize)
        }
    }
}

/// Builds the wire form of one packet: the 8-byte little-endian length
/// of the encoded body, immediately followed by the body, as a single
/// contiguous byte string, so a write of it cannot interleave another
/// message's bytes inside the frame.
pub fn encode_message(packet: &NetworkPacket) -> (r: Result<Vec<u8>, NetworkError>)
    ensures
        r matches Ok(f) ==> encodable(packet@) && f@ == spec_frame(spec_encode(packet@)),
        r matches Err(e) ==> !encodable(packet@) && e == NetworkError::Serialization,
        encodable(packet@) ==> r is Ok,
{
    let body = match BincodeSerializer::serialize(packet) {
        Ok(b) => b,
        Err(e) => {
            return Err(e);
        },
    };
    let mut out = u64_to_le_bytes(body.len() as u64);
    out.extend_from_slice(body.as_slice());
    proof {
        assert(out@ =~= spec_frame(spec_encode(packet@)));
    }
    Ok(out)
}

/// What the send loop does with the next pull from its message source.
pub enum SendStep {
    /// The source is closed: the loop terminates cleanly.
    Finished,
    /// The message could not be encoded: skip it and continue.
    Skip,
    /// Write this complete frame, then continue.
    Frame(Vec<u8>),
}

/// One decision of the send loop: `next` is what the message source
/// handed back, `None` meaning it is closed.
pub fn send_step(next: Option<NetworkPacket>) -> (r: SendStep)
    ensures
        r is Finished <==> next is None,
        next matches Some(p) ==> (if encodable(p@) {
            r matches SendStep::Frame(f) && f@ == spec_frame(spec_encode(p@))
        } else {
            r is Skip
        }),
{
    match next {
        None => SendStep::Finished,
        Some(packet) => match encode_message(&packet) {
            Ok(frame) => SendStep::Frame(frame),
            Err(_) => SendStep::Skip,
        },
    }
}

/// How a byte stream, read to its end under the framing protocol, stops.
#[derive(Clone, Copy, Debug, PartialEq, Eq, Structural)]
pub enum StreamEnd {
    /// End-of-file fell exactly on a frame boundary.
    Clean,
    /// One to seven header bytes remained: a fatal framing violation.
    Truncated,
    /// A declared length exceeded the bound: a protocol violation.
    Oversize,
    /// A full header, but fewer body bytes than it declared.
    Incomplete,
}

/// The frame bodies found in a byte stream, and how reading stops: at
/// each position either end-of-file, a short header, an oversize
/// declared length, a short body, or one whole frame followed by the
/// rest of the stream.
pub open spec fn spec_split_frames(b: Seq<u8>, max: nat) -> (Seq<Seq<u8>>, StreamEnd)
    decreases b.len(),
{
    if b.len() == 0 {
        (Seq::empty(), StreamEnd::Clean)
    } else if b.len() < 8 {
        (Seq::empty(), StreamEnd::Truncated)
    } else {
        let l = spec_u64_from_le_bytes(b.subrange(0, 8)) as int;
        if l > max {
            (Seq::empty(), StreamEnd::Oversize)
        } else if b.len() < 8 + l {
            (Seq::empty(), StreamEnd::Incomplete)
        } else {
            let rest = spec_split_frames(b.skip(8 + l), max);
            (seq![b.subrange(8, 8 + l)] + rest.0, rest.1)
        }
    }
}

/// Splits a buffered byte stream into its frame bodies, never keeping a
/// body above `max_message_size` bytes.
pub fn split_frames(bytes: &[u8], max_message_size: usize) -> (r: (Vec<Vec<u8>>, StreamEnd))
    ensures
        r.0.deep_view() == spec_split_frames(bytes@, max_message_size as nat).0,
        r.1 == spec_split_frames(bytes@, max_message_size as nat).1,
{
    let ghost max: nat = max_message_size as nat;
    let n = bytes.len();
    let mut frames: Vec<Vec<u8>> = Vec::new();
    let mut pos: usize = 0;
    proof {
        assert(bytes@.skip(0) =~= bytes@);
    }
    loop
        invariant
            pos <= n,
            n == bytes@.len(),
            max == max_message_size as nat,
            spec_split_frames(bytes@, max).0 =~~= frames.deep_view() + spec_split_frames(
                bytes@.skip(pos as int),
                max,
            ).0,
            spec_split_frames(bytes@, max).1 == spec_split_frames(bytes@.skip(pos as int), max).1,
        decreases n - pos,
    {
        let ghost rest = bytes@.skip(pos as int);
        let remaining = n - pos;
        if remaining == 0 {
            proof {
                assert(frames.deep_view() + spec_split_frames(rest, max).0 =~~= frames.deep_view());
            }
            return (frames, StreamEnd::Clean);
        }
        if remaining < 8 {
            proof {
                assert(frames.deep_view() + spec_split_frames(rest, max).0 =~~= frames.deep_view());
            }
            return (frames, StreamEnd::Truncated);
        }
        let header = slice_subrange(bytes, pos, pos + 8);
        proof {
            assert(header@ =~= rest.subrange(0, 8));
        }
        let l64 = u64_from_le_bytes(header);
        proof {
            assert(spec_u64_from_le_bytes(rest.subrange(0, 8)) == l64);
        }
        if l64 > max_message_size as u64 {
            proof {
                assert(frames.deep_view() + spec_split_frames(rest, max).0 =~~= frames.deep_view());
            }
            return (frames, StreamEnd::Oversize);
        }
        let l = l64 as usize;
        if remaining - 8 < l {
            proof {
                assert(frames.deep_view() + spec_split_frames(rest, max).0 =~~= frames.deep_view());
            }
            return (frames, StreamEnd::Incomplete);
        }
        let body = slice_to_vec(slice_subrange(bytes, pos + 8, pos + 8 + l));
        let ghost prev = frames.deep_view();
        proof {
            assert(body@ =~= rest.subrange(8, 8 + l as int));
            assert(rest.skip(8 + l as int) =~= bytes@.skip(pos as int + 8 + l as int));
            assert(spec_split_frames(rest, max).0 == seq![rest.subrange(8, 8 + l as int)]
                + spec_split_frames(rest.skip(8 + l as int), max).0);
            assert(prev + spec_split_frames(rest, max).0 =~~= prev.push(body@)
                + spec_split_frames(bytes@.skip(pos as int + 8 + l as int), max).0);
        }
        frames.push(body);
        pos = pos + 8 + l;
        proof {
            assert(frames.deep_view() =~~= prev.push(body@));
        }
    }
}

/// Splitting inverts framing: a stream that is exactly the frames of
/// `bodies`, none longer than the bound, splits back into `bodies` and
/// ends cleanly.
pub proof fn lemma_split_concat_frames(bodies: Seq<Seq<u8>>, max: nat)
    requires
        max <= u64::MAX,
        forall|i: int| 0 <= i < bodies.len() ==> #[trigger] bodies[i].len() <= max,
    ensures
        spec_split_frames(spec_concat_frames(bodies), max) == (bodies, StreamEnd::Clean),
    decreases bodies.len(),
{
    lemma_auto_spec_u64_to_from_le_bytes();
    if bodies.len() == 0 {
        assert(spec_split_frames(spec_concat_frames(bodies), max).0 =~~= bodies);
    } else {
        let b0 = bodies[0];
        let s = spec_concat_frames(bodies);
        let tail = spec_concat_frames(bodies.skip(1));
        assert(s == spec_frame(b0) + tail);
        assert(spec_u64_to_le_bytes(b0.len() as u64).len() == 8);
        assert(s.len() == 8 + b0.len() + tail.len());
        assert(s.subrange(0, 8) =~= spec_u64_to_le_bytes(b0.len() as u64));
        let l = spec_u64_from_le_bytes(s.subrange(0, 8)) as int;
        assert(l == b0.len());
        assert(s.subrange(8, 8 + l) =~= b0);
        assert(s.skip(8 + l) =~= tail);
        lemma_split_concat_frames(bodies.skip(1), max);
        assert(spec_split_frames(s, max).0 =~~= bodies);
    }
}

/// How the receive side, fed a buffered stream, stops.
#[derive(Clone, Copy, Debug, PartialEq, Eq, Structural)]
pub enum RecvEnd {
    /// The peer disconnected cleanly at a frame boundary.
    CleanDisconnect,
    /// A short header: fatal framing violation.
    TruncatedHeader,
    /// A declared length above the bound: protocol violation.
    Oversize,
    /// A body shorter than its header declared.
    IncompleteBody,
    /// A body the codec rejected; the stream position is unrecoverable.
    DecodeFailure,
}

/// The receive-side end state for each way the byte stream can stop.
pub open spec fn spec_recv_end(e: StreamEnd) -> RecvEnd {
    match e {
        StreamEnd::Clean => RecvEnd::CleanDisconnect,
        StreamEnd::Truncated => RecvEnd::TruncatedHeader,
        StreamEnd::Oversize => RecvEnd::Oversize,
        StreamEnd::Incomplete => RecvEnd::IncompleteBody,
    }
}

/// Runs the receive side of the framing protocol over a buffered byte
/// stream: splits it into frames and decodes each body in order,
/// stopping at the first body the codec rejects.
pub fn decode_stream(bytes: &[u8], max_message_size: usize) -> (r: (Vec<NetworkPacket>, RecvEnd))
    ensures
        ({
            let split = spec_split_frames(bytes@, max_message_size as nat);
            let bodies = split.0;
            &&& r.0@.len() <= bodies.len()
            &&& forall|i: int|
                0 <= i < r.0@.len() ==> spec_decode(#[trigger] bodies[i]) == Some(r.0@[i]@)
            &&& (r.1 == RecvEnd::DecodeFailure ==> r.0@.len() < bodies.len() && spec_decode(
                bodies[r.0@.len() as int],
            ) is None)
            &&& (r.1 != RecvEnd::DecodeFailure ==> r.0@.len() == bodies.len() && r.1
                == spec_recv_end(split.1))
        }),
{
    let (bodies, end) = split_frames(bytes, max_message_size);
    let ghost spec_bodies = spec_split_frames(bytes@, max_message_size as nat).0;
    let mut packets: Vec<NetworkPacket> = Vec::new();
    let mut i: usize = 0;
    while i < bodies.len()
        invariant
            i <= bodies.len(),
            packets@.len() == i,
            bodies.deep_view() == spec_bodies,
            spec_bodies == spec_split_frames(bytes@, max_message_size as nat).0,
            forall|j: int|
                0 <= j < i ==> spec_decode(#[trigger] spec_bodies[j]) == Some(packets@[j]@),
        decreases bodies.len() - i,
    {
        proof {
            assert(bodies[i as int]@ == spec_bodies[i as int]);
        }
        match BincodeSerializer::deserialize(bodies[i].as_slice()) {
            Ok(p) => {
                packets.push(p);
            },
            Err(_) => {
                proof {
                    assert(spec_bodies.len() == bodies@.len());
                    assert(spec_decode(spec_bodies[i as int]) is None);
                }
                return (packets, RecvEnd::DecodeFailure);
            },
        }
        i = i + 1;
    }
    (packets, recv_end_of(end))
}

/// The executable twin of [`spec_recv_end`].
fn recv_end_of(e: StreamEnd) -> (r: RecvEnd)
    ensures
        r == spec_recv_end(e),
{
    match e {
        StreamEnd::Clean => RecvEnd::CleanDisconnect,
        StreamEnd::Truncated => RecvEnd::TruncatedHeader,
        StreamEnd::Oversize => RecvEnd::Oversize,
        StreamEnd::Incomplete => RecvEnd::IncompleteBody,
    }
}

/// Framing round trip: a stream that carries the frames of any sequence
/// of encodable packets, each encoding within the bound, splits cleanly
/// back into the same packets in the same order.
pub proof fn lemma_message_stream_round_trip(packets: Seq<PacketModel>, max: nat)
    requires
        max <= u64::MAX,
        forall|i: int|
            0 <= i < packets.len() ==> encodable(#[trigger] packets[i]) && spec_encode(
                packets[i],
            ).len() <= max,
    ensures
        ({
            let stream = spec_concat_frames(packets.map_values(|p: PacketModel| spec_encode(p)));
            let split = spec_split_frames(stream, max);
            &&& split.1 == StreamEnd::Clean
            &&& split.0.len() == packets.len()
            &&& forall|i: int|
                0 <= i < packets.len() ==> spec_decode(#[trigger] split.0[i]) == Some(packets[i])
        }),
{
    let bodies = packets.map_values(|p: PacketModel| spec_encode(p));
    assert(forall|i: int| 0 <= i < bodies.len() ==> #[trigger] bodies[i].len() <= max);
    lemma_split_concat_frames(bodies, max);
    assert forall|i: int| 0 <= i < packets.len() implies spec_decode(
        #[trigger] spec_split_frames(spec_concat_frames(bodies), max).0[i],
    ) == Some(packets[i]) by {
        crate::serialize::lemma_encode_decode(packets[i]);
    }
}

} // verus!
