//! A thin, verified adapter over the zstd frame codec: compressing a byte
//! buffer and decompressing it back, with the round trip proved to restore
//! the original bytes.

use vstd::prelude::*;

verus! {

/// How an adapter call can fail.
///
/// Decompression fails only when the input is not a well-formed frame;
/// compression fails only when the underlying encoder could not be set up
/// or flushed.
#[derive(Clone, Copy, Debug, PartialEq, Eq, Structural)]
pub enum CodecError {
    MalformedInput,
    EncoderFailure,
}

/// The frame that compressing `data` at the default effort level yields.
///
/// Compression is deterministic for a fixed library and effort level, so the
/// frame is a function of the input bytes alone; its exact shape is left
/// unspecified.
pub uninterp spec fn compressed(data: Seq<u8>) -> Seq<u8>;

#[verifier::external_type_specification]
#[verifier::external_body]
pub struct ExIoError(std::io::Error);

/// Relies on `zstd::stream::encode_all` at effort level 0 (the library's
/// default): on success the output is the frame for the input bytes, a
/// function of those bytes alone.
#[verifier::external_body]
fn zstd_compress(data: &[u8]) -> (r: Result<Vec<u8>, std::io::Error>)
    ensures
        (r matches Ok(v) ==> v@ == compressed(data@)),
{
    zstd::stream::encode_all(data, 0)
}

/// Relies on `zstd::stream::decode_all`: decompression inverts compression,
/// so on a frame for some buffer it succeeds and returns exactly that buffer.
#[verifier::external_body]
fn zstd_decompress(data: &[u8]) -> (r: Result<Vec<u8>, std::io::Error>)
    ensures
        (r is Err ==> forall|b: Seq<u8>| data@ != #[trigger] compressed(b)),
        (r matches Ok(v) ==> forall|b: Seq<u8>| data@ == #[trigger] compressed(b) ==> v@ == b),
{
    zstd::stream::decode_all(data)
}

/// Compress an arbitrary byte buffer into a self-describing frame.
///
/// On success the output is the frame for the input bytes; a failure of the
/// underlying encoder is reported as `EncoderFailure` rather than aborting.
pub fn encode(pcm_data: &[u8]) -> (r: Result<Vec<u8>, CodecError>)
    ensures
        (r matches Ok(v) ==> v@ == compressed(pcm_data@)),
        (r matches Err(e) ==> e == CodecError::EncoderFailure),
{
    match zstd_compress(pcm_data) {
        Ok(v) => Ok(v),
        Err(_) => Err(CodecError::EncoderFailure),
    }
}

/// Decompress a frame back into the buffer it was made from.
///
/// On any frame that `encode` produced, this succeeds and returns exactly
/// the bytes that were encoded; input that is no well-formed frame is
/// reported as `MalformedInput` rather than aborting.
pub fn decode(data: &[u8]) -> (r: Result<Vec<u8>, CodecError>)
    ensures
        (forall|b: Seq<u8>| data@ == #[trigger] compressed(b) ==> (r matches Ok(v) && v@ == b)),
        (r matches Err(e) ==> e == CodecError::MalformedInput),
{
    match zstd_decompress(data) {
        Ok(v) => Ok(v),
        Err(_) => Err(CodecError::MalformedInput),
    }
}

/// Round-trip law: decoding an encoded buffer restores the original bytes.
///
/// The only failure path is the underlying encoder's; whenever encoding
/// succeeds, decoding its output succeeds as well.
pub fn round_trip(data: &[u8]) -> (r: Result<Vec<u8>, CodecError>)
    ensures
        (r matches Ok(v) ==> v@ == data@),
        (r matches Err(e) ==> e == CodecError::EncoderFailure),
{
    match encode(data) {
        Ok(frame) => {
            match decode(frame.as_slice()) {
                Ok(v) => Ok(v),
                Err(_) => {
                    proof {
                        assert(false);
                    }
                    Err(CodecError::EncoderFailure)
                }
            }
        }
        Err(e) => Err(e),
    }
}

/// Idempotence of the round trip: running it a second time over the result
/// of a first run yields the same bytes as the single run.
pub fn round_trip_twice(data: &[u8]) -> (r: Result<Vec<u8>, CodecError>)
    ensures
        (r matches Ok(v) ==> v@ == data@),
        (r matches Err(e) ==> e == CodecError::EncoderFailure),
{
    match round_trip(data) {
        Ok(v) => round_trip(v.as_slice()),
        Err(e) => Err(e),
    }
}

/// Determinism of encoding: two frames produced from the same input bytes
/// are byte-identical.
pub proof fn lemma_encode_deterministic(data: Seq<u8>, c1: Seq<u8>, c2: Seq<u8>)
    requires
        c1 == compressed(data),
        c2 == compressed(data),
    ensures
        c1 == c2,
{
}

} // verus!
