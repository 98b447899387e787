use vstd::prelude::*;

use crate::error::CacheError;
use crate::snapshot::CacheEntry;

verus! {

/// The MessagePack encoding of a snapshot's two fields, written as a
/// two-element array of integers. Named rather than spelled out: the exact
/// byte layout is the serializer's, and both directions of the pipeline are
/// stated against this one name.
pub uninterp spec fn snapshot_encoding(balance: u64, nonce: u64) -> Seq<u8>;

/// What the MessagePack deserializer makes of a byte sequence: the `(u64,
/// u64)` pair it decodes, or `None` for bytes it rejects. The deserializer is
/// a pure function of its input, so its acceptance is a function of the bytes
/// alone.
pub uninterp spec fn msgpack_decoding(bytes: Seq<u8>) -> Option<(u64, u64)>;

/// The LZ4 frame that the frame compressor, at its default settings, emits
/// for the given input bytes. The compressor is a pure function of its input,
/// so the frame is a function of the bytes alone.
pub uninterp spec fn lz4_frame(data: Seq<u8>) -> Seq<u8>;

/// What the frame decompressor makes of a byte sequence: the decompressed
/// contents, or `None` for a malformed or truncated frame. The decompressor
/// is a pure function of its input.
pub uninterp spec fn lz4_frame_decoding(bytes: Seq<u8>) -> Option<Seq<u8>>;

/// The full on-disk byte form of a snapshot: its binary encoding, framed by
/// the compressor.
pub open spec fn encoded_bytes(entry: CacheEntry) -> Seq<u8> {
    lz4_frame(snapshot_encoding(entry.balance, entry.nonce))
}

/// What the decode pipeline makes of a byte sequence: the snapshot whose
/// frame decompresses and whose contents deserialize, or `None` for anything
/// else. Decoding is a function of the bytes alone, so two reads of equal
/// bytes return equal results.
pub open spec fn decoded_snapshot(bytes: Seq<u8>) -> Option<CacheEntry> {
    match lz4_frame_decoding(bytes) {
        Some(plain) => match msgpack_decoding(plain) {
            Some(fields) => Some(CacheEntry { balance: fields.0, nonce: fields.1 }),
            None => None,
        },
        None => None,
    }
}

/// Relies on `rmp_serde::to_vec`: serializing a `(u64, u64)` pair to
/// MessagePack yields bytes that depend on the two integers alone, and
/// writing two integers into an in-memory buffer cannot fail (the writer's
/// only error is out of memory).
#[verifier::external_body]
fn msgpack_encode(entry: &CacheEntry) -> (r: Vec<u8>)
    ensures
        r@ == snapshot_encoding(entry.balance, entry.nonce),
{
    rmp_serde::to_vec(&(entry.balance, entry.nonce))
        .expect("encoding two integers into memory cannot fail")
}

/// Relies on `rmp_serde::from_slice`: which byte sequences it accepts as a
/// `(u64, u64)` pair, and the pair decoded from them, depend on the bytes
/// alone; the bytes that the serializer emitted for a pair decode back to
/// exactly that pair.
#[verifier::external_body]
fn msgpack_decode(bytes: &[u8]) -> (r: Result<CacheEntry, String>)
    ensures
        r matches Ok(e) ==> msgpack_decoding(bytes@) == Some((e.balance, e.nonce)),
        (r is Ok) <==> msgpack_decoding(bytes@) is Some,
        r matches Ok(e) ==> forall|balance: u64, nonce: u64|
            bytes@ == snapshot_encoding(balance, nonce) ==> e.balance == balance && e.nonce
                == nonce,
        r matches Err(_) ==> forall|balance: u64, nonce: u64|
            bytes@ != snapshot_encoding(balance, nonce),
{
    match rmp_serde::from_slice::<(u64, u64)>(bytes) {
        Ok((balance, nonce)) => Ok(CacheEntry { balance, nonce }),
        Err(e) => Err(e.to_string()),
    }
}

/// Relies on `lz4_flex::frame::FrameEncoder`: writing the input through a
/// default-settings encoder into a buffer and finishing the frame emits the
/// frame for those bytes. Compressing into memory cannot fail: the buffer's
/// writes are infallible and the encoder reserves the worst-case output size
/// before compressing each block.
#[verifier::external_body]
fn lz4_compress(data: &[u8]) -> (r: Vec<u8>)
    ensures
        r@ == lz4_frame(data@),
{
    let mut enc = lz4_flex::frame::FrameEncoder::new(Vec::new());
    std::io::Write::write_all(&mut enc, data)
        .expect("compressing into memory cannot fail");
    enc.finish().expect("finishing an in-memory frame cannot fail")
}

/// Relies on `lz4_flex::frame::FrameDecoder`: which byte sequences it accepts
/// and what they decompress to depend on the bytes alone; a frame the encoder
/// emitted decompresses to the bytes the frame was made from, and a malformed
/// frame yields an error, never a panic.
#[verifier::external_body]
fn lz4_decompress(data: &[u8]) -> (r: Result<Vec<u8>, String>)
    ensures
        r matches Ok(o) ==> lz4_frame_decoding(data@) == Some(o@),
        (r is Ok) <==> lz4_frame_decoding(data@) is Some,
        r matches Ok(o) ==> forall|s: Seq<u8>| data@ == lz4_frame(s) ==> o@ == s,
        r matches Err(_) ==> forall|s: Seq<u8>| data@ != lz4_frame(s),
{
    let mut dec = lz4_flex::frame::FrameDecoder::new(data);
    let mut out = Vec::new();
    match std::io::Read::read_to_end(&mut dec, &mut out) {
        Ok(_) => Ok(out),
        Err(e) => Err(e.to_string()),
    }
}

/// Encode step of the pipeline: serialize the snapshot to its compact binary
/// form, then stream it through the frame compressor into an in-memory
/// buffer. Both steps work in memory and always succeed; only the completed
/// frame is returned, and the caller writes it to the file in one piece.
pub fn encode_snapshot(entry: &CacheEntry) -> (r: Vec<u8>)
    ensures
        r@ == encoded_bytes(*entry),
{
    let plain = msgpack_encode(entry);
    lz4_compress(plain.as_slice())
}

/// Decode step of the pipeline: undo the frame compression, then deserialize
/// the snapshot. Succeeds exactly on the bytes that decode, returning what
/// they decode to; whatever the encode step produced decodes back to the very
/// snapshot it was given; arbitrary other bytes (truncated or corrupt files)
/// yield an error naming `path`, never a panic.
pub fn decode_snapshot(bytes: &[u8], path: &str) -> (r: Result<CacheEntry, CacheError>)
    ensures
        r matches Ok(d) ==> decoded_snapshot(bytes@) == Some(d),
        (r is Ok) <==> decoded_snapshot(bytes@) is Some,
        forall|entry: CacheEntry| bytes@ == encoded_bytes(entry) ==> (r matches Ok(d) && d
            == entry),
        r matches Err(e) ==> e.path_chars() == path@ && e matches CacheError::ReadSerde { .. },
{
    let plain = match lz4_decompress(bytes) {
        Ok(p) => p,
        Err(detail) => return Err(CacheError::ReadSerde { path: path.to_owned(), detail }),
    };
    match msgpack_decode(plain.as_slice()) {
        Ok(entry) => Ok(entry),
        Err(detail) => Err(CacheError::ReadSerde { path: path.to_owned(), detail }),
    }
}

} // verus!
