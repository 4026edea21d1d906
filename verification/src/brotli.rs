//! Brotli compression of program code, through the `brotli2` bindings.

use vstd::prelude::*;
use std::io::Read;
use brotli2::CompressMode;
use brotli2::CompressParams;
use brotli2::read::BrotliEncoder;

verus! {

/// The stream `brotli2`'s reading encoder writes for `data` at a level.
pub uninterp spec fn brotli_stream(data: Seq<u8>, level: u32) -> Seq<u8>;

/// `brotli2::read::BrotliEncoder` over `data`, read to its end: the data
/// compressed at `level` (Brotli's levels run from 0 to 11). The encoder fails
/// only when driven out of order, which reading to the end never does, or
/// when memory runs out; reading from a byte slice never fails.
#[verifier::external_body]
pub(crate) fn brotli_encode(data: &[u8], level: u32) -> (res: Result<Vec<u8>, String>)
    requires
        level <= 11,
    ensures
        res is Ok,
        res matches Ok(c) ==> c@ == brotli_stream(data@, level),
{
    let mut compressed = Vec::new();
    match BrotliEncoder::new(data, level).read_to_end(&mut compressed) {
        Ok(_) => Ok(compressed),
        Err(e) => Err(e.to_string()),
    }
}

/// What Brotli's one-shot encoder writes for `data` at a quality and window.
pub uninterp spec fn brotli_encoded(data: Seq<u8>, quality: u32, window: u32) -> Seq<u8>;

/// What Brotli's one-shot decoder reads out of `data`, where it is a whole
/// Brotli stream.
pub uninterp spec fn brotli_decoded(data: Seq<u8>) -> Option<Seq<u8>>;

/// The most bytes Brotli's one-shot encoder writes for `input_size` bytes
/// (`BrotliEncoderMaxCompressedSize`): the input, two bytes of header, four
/// for each 16 MiB block, three or four for the rest and one to end it.
pub open spec fn max_compressed_size(input_size: nat) -> nat {
    let large_blocks = input_size / 0x100_0000;
    let tail = input_size - large_blocks * 0x100_0000;
    let tail_overhead: nat = if tail > 0x10_0000 { 4 } else { 3 };
    if input_size == 0 {
        1
    } else {
        input_size + 2 + 4 * large_blocks + tail_overhead + 1
    }
}

/// `brotli2::raw::compress_buf` with generic mode into a buffer of
/// `capacity` bytes: the stream, which the decoder reads back as `data`.
/// Where the buffer is too small or the encoder fails, an error.
#[verifier::external_body]
fn compress_buf(data: &[u8], quality: u32, window: u32, capacity: usize) -> (res: Result<Vec<u8>, ()>)
    ensures
        res matches Ok(c) ==> c@ == brotli_encoded(data@, quality, window) && brotli_decoded(c@) == Some(data@),
{
    let mut params = CompressParams::new();
    params.quality(quality).lgwin(window).mode(CompressMode::Generic);
    let mut buffer = vec![0u8; capacity];
    match brotli2::raw::compress_buf(&params, data, &mut &mut buffer[..]) {
        Ok(size) => {
            buffer.truncate(size);
            Ok(buffer)
        },
        Err(_) => Err(()),
    }
}

/// `brotli2::raw::decompress_buf` into a buffer of `capacity` bytes: what the
/// stream decodes to. Where it is no whole stream or does not fit, an error.
#[verifier::external_body]
fn decompress_buf(data: &[u8], capacity: usize) -> (res: Result<Vec<u8>, ()>)
    ensures
        res matches Ok(d) ==> brotli_decoded(data@) == Some(d@),
{
    let mut buffer = vec![0u8; capacity];
    match brotli2::raw::decompress_buf(data, &mut &mut buffer[..]) {
        Ok(size) => {
            buffer.truncate(size);
            Ok(buffer)
        },
        Err(_) => Err(()),
    }
}

fn max_compressed_size_of(input_size: usize) -> (res: usize)
    requires
        input_size + 8 + 4 * (input_size / 0x100_0000) <= usize::MAX,
    ensures
        res == max_compressed_size(input_size as nat),
{
    if input_size == 0 {
        return 1;
    }
    let large_blocks = input_size / 0x100_0000;
    let tail = input_size - large_blocks * 0x100_0000;
    let tail_overhead: usize = if tail > 0x10_0000 { 4 } else { 3 };
    input_size + 2 + 4 * large_blocks + tail_overhead + 1
}

/// Compresses `data` at a quality and window, into a buffer as large as the
/// encoder can need.
pub fn compress(data: &[u8], quality: u32, window: u32) -> (res: Result<Vec<u8>, String>)
    requires
        data@.len() + 8 + 4 * (data@.len() / 0x100_0000) <= usize::MAX,
    ensures
        res matches Ok(c) ==> c@ == brotli_encoded(data@, quality, window) && brotli_decoded(c@) == Some(data@),
        res matches Err(e) ==> e@ == "failed to compress data 0"@,
{
    let needed = max_compressed_size_of(data.len());
    match compress_buf(data, quality, window, needed) {
        Ok(compressed) => Ok(compressed),
        Err(_) => Err(String::from_str("failed to compress data 0")),
    }
}

/// Decompresses a Brotli stream into a buffer 1 MiB and 64 bytes larger than
/// the stream.
pub fn decompress(data: &[u8]) -> (res: Result<Vec<u8>, String>)
    requires
        data@.len() + 64 + 1024 * 1024 <= usize::MAX,
    ensures
        res matches Ok(d) ==> brotli_decoded(data@) == Some(d@),
        res matches Err(e) ==> e@ == "failed to decompress data 0"@,
{
    match decompress_buf(data, data.len() + 64 + 1024 * 1024) {
        Ok(decompressed) => Ok(decompressed),
        Err(_) => Err(String::from_str("failed to decompress data 0")),
    }
}

} // verus!
