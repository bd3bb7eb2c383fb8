//! The server request dispatcher's decision logic.
//!
//! The server handles one request per connection: it reads the connection to
//! end-of-stream, decodes the buffer as a frame (`frame::decode_frame`),
//! routes it by direction and step, performs the filesystem side effect, and
//! writes exactly one response record back.  Everything the filesystem tells
//! the server — whether the resolved path exists, its length, its
//! modification time, a computed checksum — arrives here as plain values,
//! and each `respond_*` function states exactly which response record and
//! which side effect those observations decide.

use vstd::prelude::*;

use crate::chunk::wire_bytes;
use crate::chunk::prepare_chunk;
use crate::chunk::recover_chunk;
use crate::frame::Direction;
use crate::frame::FileCopyStep;
use crate::messages::DeleteServerInitalise;
use crate::messages::DownloadServerInitalise;
use crate::messages::DownloadServerTransfer;
use crate::messages::UploadServerEnd;
use crate::messages::UploadServerInitalise;
use crate::messages::UploadServerTransfer;

verus! {

/// The handler a frame is routed to, by (direction, step).
#[derive(Debug, Clone, Copy, PartialEq, Eq, Structural)]
pub enum RequestKind {
    DownloadInitialise,
    DownloadTransfer,
    UploadInitialise,
    UploadTransfer,
    UploadEnd,
    DeleteInitialise,
}

/// Which (direction, step) pairs name a handler.  Download has no End step
/// on the wire — completion is inferred client-side from length — and
/// delete has only Initialise.
pub open spec fn spec_route(direction: Direction, step: FileCopyStep) -> Option<RequestKind> {
    match (direction, step) {
        (Direction::Download, FileCopyStep::Initialise) => Some(RequestKind::DownloadInitialise),
        (Direction::Download, FileCopyStep::Transfer) => Some(RequestKind::DownloadTransfer),
        (Direction::Download, FileCopyStep::End) => None,
        (Direction::Upload, FileCopyStep::Initialise) => Some(RequestKind::UploadInitialise),
        (Direction::Upload, FileCopyStep::Transfer) => Some(RequestKind::UploadTransfer),
        (Direction::Upload, FileCopyStep::End) => Some(RequestKind::UploadEnd),
        (Direction::Delete, FileCopyStep::Initialise) => Some(RequestKind::DeleteInitialise),
        (Direction::Delete, FileCopyStep::Transfer) => None,
        (Direction::Delete, FileCopyStep::End) => None,
    }
}

/// Routes a decoded frame header to its handler; a pair outside the table is
/// refused and the connection is dropped without side effects.
pub fn route(direction: Direction, step: FileCopyStep) -> (r: Option<RequestKind>)
    ensures
        r == spec_route(direction, step),
{
    match (direction, step) {
        (Direction::Download, FileCopyStep::Initialise) => Some(RequestKind::DownloadInitialise),
        (Direction::Download, FileCopyStep::Transfer) => Some(RequestKind::DownloadTransfer),
        (Direction::Upload, FileCopyStep::Initialise) => Some(RequestKind::UploadInitialise),
        (Direction::Upload, FileCopyStep::Transfer) => Some(RequestKind::UploadTransfer),
        (Direction::Upload, FileCopyStep::End) => Some(RequestKind::UploadEnd),
        (Direction::Delete, FileCopyStep::Initialise) => Some(RequestKind::DeleteInitialise),
        _ => None,
    }
}

/// Response to a download Initialise, from what the filesystem reported of
/// the resolved source: its authoritative length, modification time and
/// checksum on success, and an error-carrying record — never a transport
/// failure — when the file is absent or its checksum could not be computed.
pub fn respond_download_initialise(
    exists: bool,
    filelen: u64,
    mtime: u64,
    checksum: Option<u64>,
) -> (r: DownloadServerInitalise)
    ensures
        !exists ==> (r.error_msg matches Some(m) && m@ == "file not found on server"@)
            && r.filelen == 0 && r.mtime == 0 && r.crc == 0,
        exists && checksum is None ==> (r.error_msg matches Some(m) && m@
            == "could not compute checksum"@) && r.filelen == 0 && r.mtime == 0 && r.crc == 0,
        checksum matches Some(crc) ==> (exists ==> r.error_msg is None && r.filelen == filelen
            && r.mtime == mtime && r.crc == crc),
{
    if !exists {
        DownloadServerInitalise {
            error_msg: Some("file not found on server".to_owned()),
            filelen: 0,
            mtime: 0,
            crc: 0,
        }
    } else {
        match checksum {
            None => DownloadServerInitalise {
                error_msg: Some("could not compute checksum".to_owned()),
                filelen: 0,
                mtime: 0,
                crc: 0,
            },
            Some(crc) => DownloadServerInitalise { error_msg: None, filelen, mtime, crc },
        }
    }
}

/// Response to a download Transfer, from the bytes read at the requested
/// offset: zero bytes read is the "no more data" error (a correct client
/// never asks past the end, it checks length first), and a non-empty read
/// is served compressed exactly when the request asked for that.
pub fn respond_download_transfer(read: Vec<u8>, compress: bool) -> (r: DownloadServerTransfer)
    ensures
        read@.len() == 0 ==> (r.error_msg matches Some(m) && m@ == "no more data"@)
            && r.bytes@.len() == 0,
        read@.len() > 0 ==> r.error_msg is None && r.bytes@ == wire_bytes(read@, compress),
{
    if read.len() == 0 {
        DownloadServerTransfer { error_msg: Some("no more data".to_owned()), bytes: Vec::new() }
    } else {
        DownloadServerTransfer { error_msg: None, bytes: prepare_chunk(read, compress) }
    }
}

/// Response to an upload Initialise, from whether the destination exists and
/// how long it is.  The returned flag says whether the destination must be
/// deleted first: exactly when it exists and the upload does not resume.
/// The reported length is the destination's current length for a resuming
/// upload and zero otherwise, so the client starts reading there.
pub fn respond_upload_initialise(is_continue: bool, exists: bool, current_len: u64) -> (r: (
    UploadServerInitalise,
    bool,
))
    ensures
        r.1 == (exists && !is_continue),
        r.0.error_msg is None,
        r.0.filelen == (if exists && is_continue {
            current_len
        } else {
            0u64
        }),
{
    if exists && is_continue {
        (UploadServerInitalise { error_msg: None, filelen: current_len }, false)
    } else {
        (UploadServerInitalise { error_msg: None, filelen: 0 }, exists && !is_continue)
    }
}

/// Response to an upload Transfer, from the raw bytes of the bulk tail: the
/// bytes to append to the destination — decompressed first exactly when the
/// record's flag says they travelled compressed — or an error-carrying
/// record when they could not be decompressed, in which case nothing is
/// appended.
pub fn respond_upload_transfer(raw: Vec<u8>, compress: bool) -> (r: (
    UploadServerTransfer,
    Option<Vec<u8>>,
))
    ensures
        r.1 matches Some(to_append) ==> r.0.error_msg is None && (forall|original: Seq<u8>|
            raw@ == wire_bytes(original, compress) ==> to_append@ == original),
        r.1 is None ==> (r.0.error_msg matches Some(m) && m@ == "could not decompress chunk"@)
            && compress && (forall|original: Seq<u8>| raw@ != wire_bytes(original, compress)),
{
    match recover_chunk(raw, compress) {
        Ok(to_append) => (UploadServerTransfer { error_msg: None }, Some(to_append)),
        Err(_) => (
            UploadServerTransfer { error_msg: Some("could not decompress chunk".to_owned()) },
            None,
        ),
    }
}

/// Response to an upload End, from whether the destination exists, the
/// checksum computed over it, and the checksum of the empty byte sequence
/// (handed in by the shell from the same checksum primitive).  The returned
/// flags say whether an empty destination file is to be created first and
/// whether the claimed modification time is to be stamped.  An absent
/// destination is completed exactly when the claimed checksum is the empty
/// sequence's: that is the End step of a zero-length upload, which sends no
/// Transfer and must still create and stamp the destination.
pub fn respond_upload_end(claimed_crc: u64, empty_crc: u64, exists: bool, computed: Option<
    u64,
>) -> (r: (UploadServerEnd, bool, bool))
    ensures
        !exists && claimed_crc == empty_crc ==> r.0.error_msg is None && r.1 && r.2,
        !exists && claimed_crc != empty_crc ==> (r.0.error_msg matches Some(m) && m@
            == "destination does not exist"@) && !r.1 && !r.2,
        exists ==> !r.1,
        exists && computed is None ==> (r.0.error_msg matches Some(m) && m@
            == "could not compute checksum"@) && !r.2,
        exists && (computed matches Some(c) && c != claimed_crc) ==> (r.0.error_msg matches Some(m)
            && m@ == "CRC does not match"@) && !r.2,
        exists && (computed matches Some(c) && c == claimed_crc) ==> r.0.error_msg is None && r.2,
{
    if !exists {
        if claimed_crc == empty_crc {
            (UploadServerEnd { error_msg: None }, true, true)
        } else {
            (
                UploadServerEnd { error_msg: Some("destination does not exist".to_owned()) },
                false,
                false,
            )
        }
    } else {
        match computed {
            None => (
                UploadServerEnd { error_msg: Some("could not compute checksum".to_owned()) },
                false,
                false,
            ),
            Some(c) => {
                if c != claimed_crc {
                    (
                        UploadServerEnd { error_msg: Some("CRC does not match".to_owned()) },
                        false,
                        false,
                    )
                } else {
                    (UploadServerEnd { error_msg: None }, false, true)
                }
            },
        }
    }
}

/// Response to a delete Initialise, from whether the resolved path exists.
/// Deleting a non-existent path is an application error, not a protocol
/// error; the returned flag says whether the path is to be removed: exactly
/// when it exists.
pub fn respond_delete(exists: bool) -> (r: (DeleteServerInitalise, bool))
    ensures
        r.0.error_msg is Some <==> !exists,
        !exists ==> (r.0.error_msg matches Some(m) && m@ == "file not found on server"@),
        r.1 == exists,
{
    if exists {
        (DeleteServerInitalise { error_msg: None }, true)
    } else {
        (DeleteServerInitalise { error_msg: Some("file not found on server".to_owned()) }, false)
    }
}

} // verus!
