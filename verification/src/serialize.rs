//! The binary codec for [`NetworkPacket`] values.
//!
//! A packet is encoded as the byte length of its UTF-8 kind string
//! (8 bytes, unsigned little-endian), the kind bytes, the byte length of
//! its payload (8 bytes, unsigned little-endian), and the payload bytes.
//! Decoding accepts exactly the byte strings this encoding produces and
//! reports a serialization error on every other input.

use vstd::prelude::*;
use vstd::bytes::{
    lemma_auto_spec_u64_to_from_le_bytes, spec_u64_from_le_bytes, spec_u64_to_le_bytes,
    u64_from_le_bytes, u64_to_le_bytes,
};
use vstd::slice::{slice_subrange, slice_to_vec};
use vstd::utf8::{decode_utf8, encode_utf8, valid_utf8};

use crate::error::NetworkError;
use crate::packet::{NetworkPacket, PacketModel};

verus! {

broadcast use vstd::utf8::encode_utf8_valid_utf8, vstd::utf8::encode_utf8_decode_utf8;

/// The byte string a packet model encodes to.
pub open spec fn spec_encode(p: PacketModel) -> Seq<u8> {
    spec_u64_to_le_bytes(encode_utf8(p.kind).len() as u64) + encode_utf8(p.kind)
        + spec_u64_to_le_bytes(p.payload.len() as u64) + p.payload
}

/// Whether a packet model is representable: both byte lengths fit in the
/// 8-byte prefixes. Every packet held in a [`NetworkPacket`] satisfies
/// this, since its fields are sized by the machine.
pub open spec fn encodable(p: PacketModel) -> bool {
    encode_utf8(p.kind).len() <= u64::MAX && p.payload.len() <= u64::MAX
}

/// The packet model a byte string decodes to, or `None` where the bytes
/// are not an encoding: too short for the two prefixes, a kind or payload
/// length that disagrees with the number of bytes present, or kind bytes
/// that are not valid UTF-8.
pub open spec fn spec_decode(b: Seq<u8>) -> Option<PacketModel> {
    if b.len() < 16 {
        None
    } else {
        let k = spec_u64_from_le_bytes(b.subrange(0, 8)) as int;
        if b.len() < 16 + k {
            None
        } else {
            let kind_bytes = b.subrange(8, 8 + k);
            let m = spec_u64_from_le_bytes(b.subrange(8 + k, 16 + k)) as int;
            if b.len() != 16 + k + m {
                None
            } else if !valid_utf8(kind_bytes) {
                None
            } else {
                Some(
                    PacketModel {
                        kind: decode_utf8(kind_bytes),
                        payload: b.subrange(16 + k, b.len() as int),
                    },
                )
            }
        }
    }
}

/// Decoding inverts encoding: every representable packet model comes back
/// unchanged from its own encoding.
pub proof fn lemma_encode_decode(p: PacketModel)
    requires
        encodable(p),
    ensures
        spec_decode(spec_encode(p)) == Some(p),
{
    lemma_auto_spec_u64_to_from_le_bytes();
    let kb = encode_utf8(p.kind);
    let b = spec_encode(p);
    assert(b.len() == 16 + kb.len() + p.payload.len());
    assert(b.subrange(0, 8) =~= spec_u64_to_le_bytes(kb.len() as u64));
    let k = kb.len() as int;
    assert(b.subrange(8, 8 + k) =~= kb);
    assert(b.subrange(8 + k, 16 + k) =~= spec_u64_to_le_bytes(p.payload.len() as u64));
    assert(b.subrange(16 + k, b.len() as int) =~= p.payload);
    assert(decode_utf8(kb) == p.kind);
    assert(spec_decode(b) == Some(p));
}

/// A capability for converting packets to and from opaque byte strings.
///
/// The two spec functions give the implementation's encoding relation;
/// the proof obligation makes every implementation's decode invert its
/// encode, so the round-trip law holds of any codec, not only the
/// provided one.
pub trait NetworkSerializer {
    /// The byte string this codec produces for a packet model, or `None`
    /// where the model is not representable.
    spec fn codec_encode(p: PacketModel) -> Option<Seq<u8>>;

    /// The packet model this codec reads out of a byte string, or `None`
    /// on malformed input.
    spec fn codec_decode(b: Seq<u8>) -> Option<PacketModel>;

    /// Round trip: decoding an encoding yields the packet it came from.
    proof fn codec_round_trip(p: PacketModel)
        requires
            Self::codec_encode(p) is Some,
        ensures
            Self::codec_decode(Self::codec_encode(p)->Some_0) == Some(p),
    ;

    /// Serializes the given packet into bytes.
    fn serialize(value: &NetworkPacket) -> (r: Result<Vec<u8>, NetworkError>)
        ensures
            r matches Ok(b) ==> Self::codec_encode(value@) == Some(b@),
            r matches Err(e) ==> Self::codec_encode(value@) is None
                && e == NetworkError::Serialization,
    ;

    /// Deserializes the given bytes into a packet.
    fn deserialize(bytes: &[u8]) -> (r: Result<NetworkPacket, NetworkError>)
        ensures
            r matches Ok(p) ==> Self::codec_decode(bytes@) == Some(p@),
            r matches Err(e) ==> Self::codec_decode(bytes@) is None
                && e == NetworkError::Serialization,
            Self::codec_decode(bytes@) matches Some(m) ==> r matches Ok(p) && p@ == m,
    ;
}

/// The provided codec: two length-prefixed fields, lengths as 8-byte
/// unsigned little-endian integers, the kind as UTF-8 bytes. This is
/// byte-for-byte the layout the bincode crate's default configuration
/// (fixed-width integers, little-endian) gives a packet's fields, so
/// peers using bincode interoperate with it.
pub struct BincodeSerializer;

impl NetworkSerializer for BincodeSerializer {
    open spec fn codec_encode(p: PacketModel) -> Option<Seq<u8>> {
        if encodable(p) {
            Some(spec_encode(p))
        } else {
            None
        }
    }

    open spec fn codec_decode(b: Seq<u8>) -> Option<PacketModel> {
        spec_decode(b)
    }

    proof fn codec_round_trip(p: PacketModel) {
        lemma_encode_decode(p);
    }

    fn serialize(value: &NetworkPacket) -> (r: Result<Vec<u8>, NetworkError>) {
        let kind_bytes: &[u8] = value.kind.as_str().as_bytes();
        let klen: u64 = kind_bytes.len() as u64;
        let plen: u64 = value.payload.len() as u64;
        let mut out: Vec<u8> = Vec::new();
        let kprefix = u64_to_le_bytes(klen);
        out.extend_from_slice(kprefix.as_slice());
        out.extend_from_slice(kind_bytes);
        let pprefix = u64_to_le_bytes(plen);
        out.extend_from_slice(pprefix.as_slice());
        out.extend_from_slice(value.payload.as_slice());
        proof {
            assert(out@ =~= spec_encode(value@));
        }
        Ok(out)
    }

    fn deserialize(bytes: &[u8]) -> (r: Result<NetworkPacket, NetworkError>) {
        let n = bytes.len();
        if n < 16 {
            return Err(NetworkError::Serialization);
        }
        let k64 = u64_from_le_bytes(slice_subrange(bytes, 0, 8));
        if k64 > (n - 16) as u64 {
            return Err(NetworkError::Serialization);
        }
        let k = k64 as usize;
        let kind_slice = slice_subrange(bytes, 8, 8 + k);
        let m64 = u64_from_le_bytes(slice_subrange(bytes, 8 + k, 16 + k));
        if m64 != (n - 16 - k) as u64 {
            return Err(NetworkError::Serialization);
        }
        let kind = match utf8_to_string(kind_slice) {
            Some(s) => s,
            None => {
                return Err(NetworkError::Serialization);
            },
        };
        let payload_slice = slice_subrange(bytes, 16 + k, n);
        let payload = slice_to_vec(payload_slice);
        proof {
            assert(encode_utf8(kind@) =~= bytes@.subrange(8, 8 + k as int));
            assert(decode_utf8(bytes@.subrange(8, 8 + k as int)) == kind@);
        }
        Ok(NetworkPacket { kind, payload })
    }
}

/// Relies on `String::from_utf8`: it succeeds exactly on valid UTF-8
/// input and returns the string those bytes encode.
#[verifier::external_body]
fn utf8_to_string(bytes: &[u8]) -> (r: Option<String>)
    ensures
        r matches Some(s) ==> encode_utf8(s@) == bytes@,
        valid_utf8(bytes@) ==> r is Some,
{
    String::from_utf8(bytes.to_vec()).ok()
}

} // verus!
