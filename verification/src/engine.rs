//! Trusted boundary to the external compression engine.
//!
//! Everything the rest of the crate knows about the engine is stated here:
//! two uninterpreted names for what the engine computes, and one wrapper per
//! engine call whose contract speaks over those names.

use vstd::prelude::*;

verus! {

/// The zlib-format encoding that the engine produces for a byte sequence.
pub uninterp spec fn deflated(s: Seq<u8>) -> Seq<u8>;

/// The engine's decoding of a byte sequence: `Some` of the decompressed
/// bytes when the sequence is a complete, valid zlib stream, `None` when it
/// is not.
pub uninterp spec fn inflated(s: Seq<u8>) -> Option<Seq<u8>>;

/// Whether the engine accepts `s` as a complete, valid zlib stream.
pub open spec fn inflate_ok(s: Seq<u8>) -> bool {
    inflated(s) is Some
}

/// The bytes that a valid zlib stream `s` decodes to.
pub open spec fn inflate_out(s: Seq<u8>) -> Seq<u8>
    recommends
        inflate_ok(s),
{
    inflated(s)->0
}

/// Outcome of one decompression attempt against a fixed destination capacity.
pub(crate) enum InflateStep {
    /// The whole decompressed payload, which fit within the capacity.
    Done(Vec<u8>),
    /// The capacity was too small to hold the whole decompressed payload.
    NeedMore,
    /// The input is not a valid zlib stream.
    Failed,
}

/// Relies on `miniz_oxide::deflate::compress_to_vec_zlib`: a deterministic
/// zlib encoding of `src` at a fixed compression level, never empty (the
/// stream always carries a header and a checksum), which the engine's own
/// decoder accepts and decodes back to `src`.
#[verifier::external_body]
pub(crate) fn deflate_bytes(src: &[u8]) -> (r: Vec<u8>)
    ensures
        r@ == deflated(src@),
        inflated(r@) == Some(src@),
        r@.len() > 0,
{
    miniz_oxide::deflate::compress_to_vec_zlib(src, 6)
}

/// Relies on `miniz_oxide::inflate::decompress_to_vec_zlib_with_limit`: it
/// decodes a complete, valid zlib stream in full whenever the decompressed
/// payload fits in `limit` bytes, reports `HasMoreOutput` only when the
/// payload does not fit, and fails in any other way only on input that is
/// not a valid zlib stream.
#[verifier::external_body]
pub(crate) fn inflate_limited(src: &[u8], limit: usize) -> (r: InflateStep)
    ensures
        r matches InflateStep::Done(v) ==> inflated(src@) == Some(v@),
        r is NeedMore && inflate_ok(src@) ==> inflate_out(src@).len() > limit,
        r is Failed ==> !inflate_ok(src@),
{
    match miniz_oxide::inflate::decompress_to_vec_zlib_with_limit(src, limit) {
        Ok(v) => InflateStep::Done(v),
        Err(e) => match e.status {
            miniz_oxide::inflate::TINFLStatus::HasMoreOutput => InflateStep::NeedMore,
            _ => InflateStep::Failed,
        },
    }
}

} // verus!
