//! The request and response records carried in frame payloads, one pair per
//! (direction, step), and the error taxonomy the client surfaces.
//!
//! A response record's `error_msg` carries an application error as a string:
//! a present message signals failure and aborts the client's logical
//! operation; an absent one signals success.  Protocol errors (a malformed
//! frame) are never carried inside records: they abort the connection itself.
//!
//! Records travel through an external record serializer; the raw chunk bytes
//! of Transfer-step frames do not, they ride in the bulk sub-framing behind
//! the serialized record (see `frame`).

use vstd::prelude::*;

use crate::frame::ProtocolError;

verus! {

/// Download, Initialise step, client to server: which file is wanted.
#[derive(Debug, Clone, PartialEq)]
pub struct DownloadClientInitalise {
    /// Path of the source file, relative to the server's root.
    pub serverside_path: String,
}

/// Download, Initialise step, server to client: the transfer's contract.
/// The length, modification time and checksum reported here are authoritative
/// for the rest of the operation and are never re-queried.
#[derive(Debug, Clone, PartialEq)]
pub struct DownloadServerInitalise {
    pub error_msg: Option<String>,
    pub filelen: u64,
    pub mtime: u64,
    pub crc: u64,
}

/// Download, Transfer step, client to server: one chunk request.
#[derive(Debug, Clone, PartialEq)]
pub struct DownloadClientTransfer {
    pub serverside_path: String,
    /// First byte wanted: always the destination's currently observed length.
    pub from_byte: u64,
    /// Largest number of file bytes wanted back.
    pub chunk_size: usize,
    /// Whether the server should compress the chunk before sending.
    pub compress: bool,
}

/// Download, Transfer step, server to client: one chunk of file bytes.  The
/// bytes ride in the bulk sub-framing, compressed when the request asked for
/// that.
#[derive(Debug, Clone, PartialEq)]
pub struct DownloadServerTransfer {
    pub error_msg: Option<String>,
    pub bytes: Vec<u8>,
}

/// Upload, Initialise step, client to server: where the file goes and
/// whether an existing destination is to be continued or replaced.
#[derive(Debug, Clone, PartialEq)]
pub struct UploadClientInitalise {
    pub serverside_path: String,
    pub is_continue: bool,
}

/// Upload, Initialise step, server to client: the destination's current
/// length (zero if it is absent, or was just deleted for a non-resuming
/// upload), which tells the client where to start reading.
#[derive(Debug, Clone, PartialEq)]
pub struct UploadServerInitalise {
    pub error_msg: Option<String>,
    pub filelen: u64,
}

/// Upload, Transfer step, client to server: one chunk of file bytes to
/// append.  On the wire the path and flag are serialized as metadata and the
/// bytes ride behind them in the bulk sub-framing.
#[derive(Debug, Clone, PartialEq)]
pub struct UploadClientTransfer {
    pub serverside_path: String,
    /// Whether `bytes` is compressed and must be decompressed before being
    /// appended.
    pub compress: bool,
    pub bytes: Vec<u8>,
}

/// Upload, Transfer step, server to client: success or an application error.
#[derive(Debug, Clone, PartialEq)]
pub struct UploadServerTransfer {
    pub error_msg: Option<String>,
}

/// Upload, End step, client to server: the baseline modification time to
/// stamp and the checksum the destination must match.
#[derive(Debug, Clone, PartialEq)]
pub struct UploadClientEnd {
    pub serverside_path: String,
    pub mtime: u64,
    pub crc: u64,
}

/// Upload, End step, server to client: success or an application error.
#[derive(Debug, Clone, PartialEq)]
pub struct UploadServerEnd {
    pub error_msg: Option<String>,
}

/// Delete, Initialise step, client to server: which file to remove.  The
/// delete direction has no Transfer or End steps.
#[derive(Debug, Clone, PartialEq)]
pub struct DeleteClientInitalise {
    pub serverside_path: String,
}

/// Delete, Initialise step, server to client: success or an application
/// error (in particular, that the path did not exist).
#[derive(Debug, Clone, PartialEq)]
pub struct DeleteServerInitalise {
    pub error_msg: Option<String>,
}

/// Why a logical operation was aborted.  Transport failures (a refused or
/// reset connection, a partial write) never reach this type: they abort in
/// the unverified shell around the library.
#[derive(Debug, Clone, PartialEq)]
pub enum TransferError {
    /// A malformed frame or bulk payload: a version mismatch, not a
    /// transient condition.
    Protocol(ProtocolError),
    /// An error the server reported inside a response record, surfaced
    /// verbatim.
    Application(String),
    /// Compressed chunk bytes that could not be decompressed.
    Decompress,
    /// The destination's checksum did not match the authoritative one after
    /// a completed download; the destination is left as written.
    Integrity,
}

} // verus!
