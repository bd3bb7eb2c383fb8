//! Optional compression of chunk bytes on the wire.
//!
//! Compression is transparent: it changes the bytes on the wire, never the
//! bytes written to a destination file.  `prepare_chunk` is what a sender
//! does to file bytes before they travel, `recover_chunk` what a receiver
//! does to wire bytes before they are appended, and the contract of
//! `recover_chunk` states the transparency: whatever a sender prepared,
//! compressed or not, the receiver recovers the original bytes exactly.

use std::io::Read;
use std::io::Write;

use vstd::prelude::*;

use crate::messages::TransferError;

verus! {

/// The bytes that the deflate-family compressor produces for a byte buffer,
/// at the fixed default level.  The result is a function of the input bytes
/// alone; nothing here states what it is on given bytes.
pub uninterp spec fn zlib_of(bytes: Seq<u8>) -> Seq<u8>;

/// Relies on flate2's `write::ZlibEncoder` (`new`, `write_all`, `finish`):
/// compressing a buffer at the default level is a function of the bytes
/// alone, and writing into a `Vec` sink cannot fail.
#[verifier::external_body]
fn compress_chunk(bytes: &Vec<u8>) -> (r: Vec<u8>)
    ensures
        r@ == zlib_of(bytes@),
{
    let mut encoder = flate2::write::ZlibEncoder::new(Vec::new(), flate2::Compression::default());
    encoder.write_all(bytes.as_slice()).expect("writing into a Vec sink cannot fail");
    encoder.finish().expect("writing into a Vec sink cannot fail")
}

/// Relies on flate2's `read::ZlibDecoder` (`new`, `read_to_end`): decoding
/// is lossless, so a buffer that the encoder produced from some bytes
/// decodes back to exactly those bytes; a buffer that is not valid zlib data
/// is reported as an error, never a panic.
#[verifier::external_body]
fn decompress_chunk(bytes: &Vec<u8>) -> (r: Result<Vec<u8>, TransferError>)
    ensures
        r matches Ok(recovered) ==> (forall|original: Seq<u8>|
            bytes@ == zlib_of(original) ==> recovered@ == original),
        r matches Err(e) ==> e == TransferError::Decompress && (forall|original: Seq<u8>|
            bytes@ != zlib_of(original)),
{
    let mut decoder = flate2::read::ZlibDecoder::new(bytes.as_slice());
    let mut out: Vec<u8> = Vec::new();
    match decoder.read_to_end(&mut out) {
        Ok(_) => Ok(out),
        Err(_) => Err(TransferError::Decompress),
    }
}

/// The bytes a chunk travels as: compressed when the transfer asked for
/// compression, the chunk itself otherwise.
pub open spec fn wire_bytes(chunk: Seq<u8>, compress: bool) -> Seq<u8> {
    if compress {
        zlib_of(chunk)
    } else {
        chunk
    }
}

/// What a sender does to file bytes before they travel.
pub fn prepare_chunk(chunk: Vec<u8>, compress: bool) -> (r: Vec<u8>)
    ensures
        r@ == wire_bytes(chunk@, compress),
{
    if compress {
        compress_chunk(&chunk)
    } else {
        chunk
    }
}

/// What a receiver does to wire bytes before appending them.
///
/// The postcondition is the compression-transparency statement: if the wire
/// bytes are what some sender prepared from original bytes under the same
/// `compress` flag, recovery succeeds and yields those original bytes
/// exactly, so enabling compression never changes what reaches the
/// destination file.
pub fn recover_chunk(wire: Vec<u8>, compress: bool) -> (r: Result<Vec<u8>, TransferError>)
    ensures
        r matches Ok(recovered) ==> (forall|original: Seq<u8>|
            wire@ == wire_bytes(original, compress) ==> recovered@ == original),
        r matches Err(e) ==> e == TransferError::Decompress && compress && (forall|
            original: Seq<u8>,
        |
            wire@ != wire_bytes(original, compress)),
{
    if compress {
        decompress_chunk(&wire)
    } else {
        Ok(wire)
    }
}

} // verus!
