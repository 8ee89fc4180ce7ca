//! A safe compress/decompress pair over an external zlib engine.
//!
//! The engine does the encoding itself; this crate owns the boundary
//! discipline around it: each call returns a fresh buffer trimmed to the
//! exact payload, decompression retries with a doubled destination capacity
//! whenever the engine reports that the buffer was too small, and every
//! other engine failure is collapsed into `None`.

use vstd::prelude::*;

pub mod engine;

use engine::InflateStep;

verus! {

/// Initial destination capacity for decompression; doubled after each
/// buffer-too-small report from the engine.
pub const BUF_SIZE: usize = 4096;

/// Compress `src` into a fresh, exactly-sized buffer.
///
/// A single engine call always succeeds, so no error path exists: the
/// result is the engine's (never empty) zlib encoding of `src`, and
/// decompressing it yields `src` again.
pub fn compress(src: &[u8]) -> (r: Vec<u8>)
    ensures
        r@ == engine::deflated(src@),
        engine::inflate_ok(r@),
        engine::inflate_out(r@) == src@,
        r@.len() > 0,
{
    engine::deflate_bytes(src)
}

/// Decompress `src`, growing the destination until the payload fits.
///
/// Returns `Some` of the decompressed bytes exactly when `src` is a valid
/// zlib stream whose payload can be addressed in memory; anything the
/// engine rejects comes back as `None`, never as an error.
pub fn uncompress(src: &[u8]) -> (r: Option<Vec<u8>>)
    ensures
        r matches Some(v) ==> engine::inflate_ok(src@) && v@ == engine::inflate_out(src@),
        !engine::inflate_ok(src@) ==> r is None,
        engine::inflate_ok(src@) && engine::inflate_out(src@).len() <= usize::MAX ==> r is Some,
{
    uncompress_from(src, BUF_SIZE)
}

/// One decompression attempt at capacity `bufsize`, retrying at double the
/// capacity (saturating at `usize::MAX`) whenever the payload did not fit.
fn uncompress_from(src: &[u8], bufsize: usize) -> (r: Option<Vec<u8>>)
    requires
        1 <= bufsize,
    ensures
        r matches Some(v) ==> engine::inflate_ok(src@) && v@ == engine::inflate_out(src@),
        !engine::inflate_ok(src@) ==> r is None,
        engine::inflate_ok(src@) && engine::inflate_out(src@).len() <= usize::MAX ==> r is Some,
    decreases usize::MAX - bufsize,
{
    match engine::inflate_limited(src, bufsize) {
        InflateStep::Done(v) => Some(v),
        InflateStep::NeedMore => {
            if bufsize == usize::MAX {
                // Even a maximal destination was too small: the payload
                // cannot be addressed in memory.
                None
            } else if bufsize <= usize::MAX / 2 {
                uncompress_from(src, bufsize * 2)
            } else {
                uncompress_from(src, usize::MAX)
            }
        },
        InflateStep::Failed => None,
    }
}

} // verus!
