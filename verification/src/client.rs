//! The client-side transfer orchestrators.
//!
//! A logical download, upload or deletion is a short conversation of
//! request/response frames, one fresh connection per step.  The machines
//! here hold the client's state for one such conversation and decide, from
//! each response or local observation, the next thing the unverified shell
//! must do — the returned action.  The shell performs the action (connect
//! and send, measure or append to the destination file, compute a checksum)
//! and reports the outcome through the matching `on_*` method.
//!
//! Resumption never trusts remembered offsets: every chunk request starts at
//! the destination's currently *observed* length, so a client that crashed
//! and restarted continues correctly from whatever actually reached disk.

use vstd::prelude::*;

use crate::chunk::wire_bytes;
use crate::chunk::prepare_chunk;
use crate::chunk::recover_chunk;
use crate::frame::ProtocolError;
use crate::messages::DeleteServerInitalise;
use crate::messages::DownloadClientInitalise;
use crate::messages::DownloadClientTransfer;
use crate::messages::DownloadServerInitalise;
use crate::messages::DownloadServerTransfer;
use crate::messages::TransferError;
use crate::messages::UploadClientEnd;
use crate::messages::UploadClientInitalise;
use crate::messages::UploadClientTransfer;
use crate::messages::UploadServerEnd;
use crate::messages::UploadServerInitalise;
use crate::messages::UploadServerTransfer;

verus! {

/// Default number of file bytes per Transfer request.  It sits under the
/// record serializer's per-message size ceiling of a few megabytes; chunk
/// bytes themselves bypass that ceiling through the bulk sub-framing, but a
/// modest chunk also keeps every partial destination a coherent prefix.
pub const DEFAULT_CHUNK_SIZE: usize = 3_048_576;

/// Where a download conversation stands; each phase waits for exactly one
/// report from the shell.
#[derive(Debug, Clone, Copy, PartialEq, Eq, Structural)]
pub enum DownloadPhase {
    /// Created; nothing sent yet.
    Ready,
    /// Waiting for the destination to be prepared.
    Preparing,
    /// Initialise sent; waiting for the server's reply.
    Initialising,
    /// Waiting for the destination's currently observed length.
    Measuring,
    /// Transfer sent; waiting for the chunk reply.
    Transferring,
    /// Waiting for the recovered chunk to be appended.
    Appending,
    /// Waiting for the empty destination file to be created.
    CreatingEmpty,
    /// Waiting for the destination's checksum.
    Checking,
    /// Waiting for the modification time to be stamped.
    Stamping,
    /// Finished successfully.
    Complete,
    /// Aborted; the destination is left as written so far.
    Failed,
}

/// What the shell must do next for a download.
#[derive(Debug)]
pub enum DownloadAction {
    /// Ensure the destination's parent directories exist; when the flag is
    /// set, also remove an existing destination file first.
    PrepareDest(bool),
    /// Send the Initialise request and report the reply.
    SendInitialise(DownloadClientInitalise),
    /// Report the destination's current length, zero if it is absent.
    MeasureDest,
    /// Send the Transfer request and report the reply.
    SendTransfer(DownloadClientTransfer),
    /// Append exactly these bytes to the destination file.
    Append(Vec<u8>),
    /// Create the destination as an empty file if it does not exist.
    CreateEmpty,
    /// Compute the destination's checksum and report it.
    ComputeChecksum,
    /// Stamp this modification time onto the destination.
    SetModifiedTime(u64),
    /// The download is complete.
    Succeed,
    /// The download is aborted for this reason.
    Abort(TransferError),
}

/// Client state for one logical download.
///
/// The authoritative fields (`filelen`, `mtime`, `crc`) are the transfer's
/// contract: fixed by the server's Initialise reply, trusted nowhere before
/// that, and never re-queried after.
pub struct DownloadClient {
    /// Path of the source file, relative to the server's root.
    pub serverside_path: String,
    /// Largest number of file bytes asked for per Transfer request.
    pub chunk_size: usize,
    /// Whether an existing destination is continued rather than replaced.
    pub resume: bool,
    /// Whether chunks travel compressed.
    pub compress: bool,
    /// Authoritative source length, valid once past `Initialising`.
    pub filelen: u64,
    /// Authoritative source modification time, valid once past `Initialising`.
    pub mtime: u64,
    /// Authoritative source checksum, valid once past `Initialising`.
    pub crc: u64,
    pub phase: DownloadPhase,
}

impl DownloadClient {
    /// Fields that never change after construction.
    pub open spec fn same_config(self, other: DownloadClient) -> bool {
        &&& self.serverside_path@ == other.serverside_path@
        &&& self.chunk_size == other.chunk_size
        &&& self.resume == other.resume
        &&& self.compress == other.compress
    }

    /// The authoritative contract fields, unchanged.
    pub open spec fn same_contract(self, other: DownloadClient) -> bool {
        &&& self.filelen == other.filelen
        &&& self.mtime == other.mtime
        &&& self.crc == other.crc
    }

    pub fn new(serverside_path: String, chunk_size: usize, resume: bool, compress: bool) -> (r:
        DownloadClient)
        ensures
            r.serverside_path@ == serverside_path@,
            r.chunk_size == chunk_size,
            r.resume == resume,
            r.compress == compress,
            r.phase is Ready,
    {
        DownloadClient {
            serverside_path,
            chunk_size,
            resume,
            compress,
            filelen: 0,
            mtime: 0,
            crc: 0,
            phase: DownloadPhase::Ready,
        }
    }

    /// First decision: the destination is prepared before anything is sent,
    /// and an existing destination is removed exactly when not resuming.
    pub fn start(&mut self) -> (action: DownloadAction)
        requires
            old(self).phase is Ready,
        ensures
            old(self).same_config(*final(self)),
            old(self).same_contract(*final(self)),
            final(self).phase is Preparing,
            action matches DownloadAction::PrepareDest(remove) && remove == !old(self).resume,
    {
        self.phase = DownloadPhase::Preparing;
        DownloadAction::PrepareDest(!self.resume)
    }

    /// The destination is ready: send the Initialise request naming the
    /// source path.
    pub fn on_dest_prepared(&mut self) -> (action: DownloadAction)
        requires
            old(self).phase is Preparing,
        ensures
            old(self).same_config(*final(self)),
            old(self).same_contract(*final(self)),
            final(self).phase is Initialising,
            action matches DownloadAction::SendInitialise(req) && req.serverside_path@ == old(
                self,
            ).serverside_path@,
    {
        self.phase = DownloadPhase::Initialising;
        DownloadAction::SendInitialise(
            DownloadClientInitalise { serverside_path: self.serverside_path.clone() },
        )
    }

    /// The server's Initialise reply either carries an application error,
    /// which aborts the download, or fixes the authoritative length,
    /// modification time and checksum for the rest of the operation.
    pub fn on_init_reply(&mut self, reply: DownloadServerInitalise) -> (action: DownloadAction)
        requires
            old(self).phase is Initialising,
        ensures
            old(self).same_config(*final(self)),
            reply.error_msg matches Some(m) ==> final(self).phase is Failed && (
            action matches DownloadAction::Abort(e) && e matches TransferError::Application(am)
                && am@ == m@),
            reply.error_msg is None ==> final(self).phase is Measuring && action
                is MeasureDest && final(self).filelen == reply.filelen && final(self).mtime
                == reply.mtime && final(self).crc == reply.crc,
    {
        match reply.error_msg {
            Some(m) => {
                self.phase = DownloadPhase::Failed;
                DownloadAction::Abort(TransferError::Application(m))
            },
            None => {
                self.filelen = reply.filelen;
                self.mtime = reply.mtime;
                self.crc = reply.crc;
                self.phase = DownloadPhase::Measuring;
                DownloadAction::MeasureDest
            },
        }
    }

    /// The loop's decision, from the destination's observed length alone: a
    /// zero-length source gets an empty destination file; a destination at
    /// least as long as the source ends the loop; anything shorter asks for
    /// the next chunk, starting exactly at the observed length.
    pub fn on_dest_length(&mut self, observed_len: u64) -> (action: DownloadAction)
        requires
            old(self).phase is Measuring,
        ensures
            old(self).same_config(*final(self)),
            old(self).same_contract(*final(self)),
            old(self).filelen == 0 ==> final(self).phase is CreatingEmpty && action
                is CreateEmpty,
            old(self).filelen > 0 && observed_len >= old(self).filelen ==> final(self).phase
                is Checking && action is ComputeChecksum,
            old(self).filelen > 0 && observed_len < old(self).filelen ==> final(self).phase
                is Transferring && (action matches DownloadAction::SendTransfer(req)
                && req.serverside_path@ == old(self).serverside_path@ && req.from_byte
                == observed_len && req.chunk_size == old(self).chunk_size && req.compress == old(
                self,
            ).compress),
            action is SendTransfer <==> old(self).filelen > 0 && observed_len < old(self).filelen,
    {
        if self.filelen == 0 {
            self.phase = DownloadPhase::CreatingEmpty;
            DownloadAction::CreateEmpty
        } else if observed_len >= self.filelen {
            self.phase = DownloadPhase::Checking;
            DownloadAction::ComputeChecksum
        } else {
            self.phase = DownloadPhase::Transferring;
            DownloadAction::SendTransfer(
                DownloadClientTransfer {
                    serverside_path: self.serverside_path.clone(),
                    from_byte: observed_len,
                    chunk_size: self.chunk_size,
                    compress: self.compress,
                },
            )
        }
    }

    /// The chunk reply either carries an application error, which aborts the
    /// download, or chunk bytes to recover and append.  Recovery is the
    /// compression-transparency point: whatever bytes the server prepared
    /// under the same flag, the appended bytes are the original file bytes.
    pub fn on_transfer_reply(&mut self, reply: DownloadServerTransfer) -> (action: DownloadAction)
        requires
            old(self).phase is Transferring,
        ensures
            old(self).same_config(*final(self)),
            old(self).same_contract(*final(self)),
            reply.error_msg matches Some(m) ==> final(self).phase is Failed && (
            action matches DownloadAction::Abort(e) && e matches TransferError::Application(am)
                && am@ == m@),
            action matches DownloadAction::Append(appended) ==> reply.error_msg is None
                && final(self).phase is Appending && (forall|original: Seq<u8>|
                reply.bytes@ == wire_bytes(original, old(self).compress) ==> appended@
                    == original),
            action matches DownloadAction::Abort(e) ==> (reply.error_msg is None
                ==> final(self).phase is Failed && e == TransferError::Decompress && (forall|
                original: Seq<u8>,
            |
                reply.bytes@ != wire_bytes(original, old(self).compress))),
            reply.error_msg is None ==> action is Append || action is Abort,
    {
        match reply.error_msg {
            Some(m) => {
                self.phase = DownloadPhase::Failed;
                DownloadAction::Abort(TransferError::Application(m))
            },
            None => {
                match recover_chunk(reply.bytes, self.compress) {
                    Ok(recovered) => {
                        self.phase = DownloadPhase::Appending;
                        DownloadAction::Append(recovered)
                    },
                    Err(e) => {
                        self.phase = DownloadPhase::Failed;
                        DownloadAction::Abort(e)
                    },
                }
            },
        }
    }

    /// The chunk reached the destination: observe the new length and let the
    /// loop decide again.  The machine never counts bytes itself.
    pub fn on_bytes_appended(&mut self) -> (action: DownloadAction)
        requires
            old(self).phase is Appending,
        ensures
            old(self).same_config(*final(self)),
            old(self).same_contract(*final(self)),
            final(self).phase is Measuring,
            action is MeasureDest,
    {
        self.phase = DownloadPhase::Measuring;
        DownloadAction::MeasureDest
    }

    /// The empty destination exists; even a zero-length download is
    /// checksummed and stamped like any other.
    pub fn on_empty_created(&mut self) -> (action: DownloadAction)
        requires
            old(self).phase is CreatingEmpty,
        ensures
            old(self).same_config(*final(self)),
            old(self).same_contract(*final(self)),
            final(self).phase is Checking,
            action is ComputeChecksum,
    {
        self.phase = DownloadPhase::Checking;
        DownloadAction::ComputeChecksum
    }

    /// Post-transfer verification: a destination checksum different from the
    /// authoritative one is an integrity error, reported as such and leaving
    /// the destination in its intermediate state; a matching one has the
    /// authoritative modification time stamped on.
    pub fn on_checksum(&mut self, computed: u64) -> (action: DownloadAction)
        requires
            old(self).phase is Checking,
        ensures
            old(self).same_config(*final(self)),
            old(self).same_contract(*final(self)),
            computed != old(self).crc ==> final(self).phase is Failed && (
            action matches DownloadAction::Abort(e) && e == TransferError::Integrity),
            computed == old(self).crc ==> final(self).phase is Stamping && (
            action matches DownloadAction::SetModifiedTime(t) && t == old(self).mtime),
    {
        if computed != self.crc {
            self.phase = DownloadPhase::Failed;
            DownloadAction::Abort(TransferError::Integrity)
        } else {
            self.phase = DownloadPhase::Stamping;
            DownloadAction::SetModifiedTime(self.mtime)
        }
    }

    /// A reply that could not be decoded — a malformed bulk payload, or
    /// bytes that are not the expected response record — aborts the whole
    /// operation as a protocol error.  The machine goes terminal, so no
    /// further frames are sent and nothing reaches the destination beyond
    /// the chunks already appended.
    pub fn on_malformed_reply(&mut self, error: ProtocolError) -> (action: DownloadAction)
        requires
            old(self).phase is Initialising || old(self).phase is Transferring,
        ensures
            old(self).same_config(*final(self)),
            old(self).same_contract(*final(self)),
            final(self).phase is Failed,
            action matches DownloadAction::Abort(e) && e == TransferError::Protocol(error),
    {
        self.phase = DownloadPhase::Failed;
        DownloadAction::Abort(TransferError::Protocol(error))
    }

    /// The modification time is stamped: the download is complete.
    pub fn on_time_set(&mut self) -> (action: DownloadAction)
        requires
            old(self).phase is Stamping,
        ensures
            old(self).same_config(*final(self)),
            old(self).same_contract(*final(self)),
            final(self).phase is Complete,
            action is Succeed,
    {
        self.phase = DownloadPhase::Complete;
        DownloadAction::Succeed
    }
}

/// Where an upload conversation stands; each phase waits for exactly one
/// report from the shell.
#[derive(Debug, Clone, Copy, PartialEq, Eq, Structural)]
pub enum UploadPhase {
    /// Created; nothing sent yet.
    Ready,
    /// Initialise sent; waiting for the server's reply.
    Initialising,
    /// Waiting for the source file to be opened and positioned.
    Opening,
    /// Waiting for the next chunk read from the source.
    Reading,
    /// Transfer sent; waiting for the server's reply.
    Transferring,
    /// End sent; waiting for the server's reply.
    Ending,
    /// Finished successfully.
    Complete,
    /// Aborted.
    Failed,
}

/// What the shell must do next for an upload.
#[derive(Debug)]
pub enum UploadAction {
    /// Send the Initialise request and report the reply.
    SendInitialise(UploadClientInitalise),
    /// Open the source file, seek to this byte, and report when positioned.
    OpenSourceAt(u64),
    /// Read up to this many bytes at the current position and report them;
    /// an empty read means the source is exhausted.
    ReadChunk(usize),
    /// Send the Transfer request — its bytes are already in wire form — and
    /// report the reply.
    SendTransfer(UploadClientTransfer),
    /// Send the End request and report the reply.
    SendEnd(UploadClientEnd),
    /// The upload is complete.
    Succeed,
    /// The upload is aborted for this reason.
    Abort(TransferError),
}

/// Client state for one logical upload.
///
/// The baseline fields (`filelen`, `mtime`, `crc`) are computed over the
/// source up front, before anything is sent; they are the canonical values
/// the upload must deliver, and the End step hands them to the server for
/// verification and stamping.
pub struct UploadClient {
    /// Destination path, relative to the server's root, filename included.
    pub serverside_path: String,
    /// Largest number of file bytes read and sent per Transfer request.
    pub chunk_size: usize,
    /// Whether an existing destination is continued rather than replaced.
    pub resume: bool,
    /// Whether chunks travel compressed.
    pub compress: bool,
    /// Baseline source length.
    pub filelen: u64,
    /// Baseline source modification time.
    pub mtime: u64,
    /// Baseline source checksum.
    pub crc: u64,
    pub phase: UploadPhase,
}

impl UploadClient {
    /// Fields that never change after construction: for an upload, the
    /// baseline is part of the configuration.
    pub open spec fn same_config(self, other: UploadClient) -> bool {
        &&& self.serverside_path@ == other.serverside_path@
        &&& self.chunk_size == other.chunk_size
        &&& self.resume == other.resume
        &&& self.compress == other.compress
        &&& self.filelen == other.filelen
        &&& self.mtime == other.mtime
        &&& self.crc == other.crc
    }

    pub fn new(
        serverside_path: String,
        chunk_size: usize,
        resume: bool,
        compress: bool,
        filelen: u64,
        mtime: u64,
        crc: u64,
    ) -> (r: UploadClient)
        ensures
            r.serverside_path@ == serverside_path@,
            r.chunk_size == chunk_size,
            r.resume == resume,
            r.compress == compress,
            r.filelen == filelen,
            r.mtime == mtime,
            r.crc == crc,
            r.phase is Ready,
    {
        UploadClient {
            serverside_path,
            chunk_size,
            resume,
            compress,
            filelen,
            mtime,
            crc,
            phase: UploadPhase::Ready,
        }
    }

    /// First decision: send the Initialise request naming the destination
    /// and whether an existing one is continued.
    pub fn start(&mut self) -> (action: UploadAction)
        requires
            old(self).phase is Ready,
        ensures
            old(self).same_config(*final(self)),
            final(self).phase is Initialising,
            action matches UploadAction::SendInitialise(req) && req.serverside_path@ == old(
                self,
            ).serverside_path@ && req.is_continue == old(self).resume,
    {
        self.phase = UploadPhase::Initialising;
        UploadAction::SendInitialise(
            UploadClientInitalise {
                serverside_path: self.serverside_path.clone(),
                is_continue: self.resume,
            },
        )
    }

    /// The server's Initialise reply either carries an application error,
    /// which aborts the upload, or the destination's current length.  A
    /// zero-length source skips the byte stream entirely and goes straight
    /// to the End step, which still creates and stamps the destination.  A
    /// destination already as long as a non-empty source is treated as
    /// complete — success with no Transfer or End step; anything else has
    /// the source opened at exactly the reported length, so only missing
    /// bytes travel.
    pub fn on_init_reply(&mut self, reply: UploadServerInitalise) -> (action: UploadAction)
        requires
            old(self).phase is Initialising,
        ensures
            old(self).same_config(*final(self)),
            reply.error_msg matches Some(m) ==> final(self).phase is Failed && (
            action matches UploadAction::Abort(e) && e matches TransferError::Application(am)
                && am@ == m@),
            reply.error_msg is None && old(self).filelen == 0 ==> final(self).phase is Ending && (
            action matches UploadAction::SendEnd(req) && req.serverside_path@ == old(
                self,
            ).serverside_path@ && req.mtime == old(self).mtime && req.crc == old(self).crc),
            reply.error_msg is None && old(self).filelen > 0 && reply.filelen == old(self).filelen
                ==> final(self).phase is Complete && action is Succeed,
            reply.error_msg is None && old(self).filelen > 0 && reply.filelen != old(self).filelen
                ==> final(self).phase is Opening && (
            action matches UploadAction::OpenSourceAt(from) && from == reply.filelen),
    {
        match reply.error_msg {
            Some(m) => {
                self.phase = UploadPhase::Failed;
                UploadAction::Abort(TransferError::Application(m))
            },
            None => {
                if self.filelen == 0 {
                    self.phase = UploadPhase::Ending;
                    UploadAction::SendEnd(
                        UploadClientEnd {
                            serverside_path: self.serverside_path.clone(),
                            mtime: self.mtime,
                            crc: self.crc,
                        },
                    )
                } else if reply.filelen == self.filelen {
                    self.phase = UploadPhase::Complete;
                    UploadAction::Succeed
                } else {
                    self.phase = UploadPhase::Opening;
                    UploadAction::OpenSourceAt(reply.filelen)
                }
            },
        }
    }

    /// The source is positioned: read the first chunk.
    pub fn on_source_opened(&mut self) -> (action: UploadAction)
        requires
            old(self).phase is Opening,
        ensures
            old(self).same_config(*final(self)),
            final(self).phase is Reading,
            action matches UploadAction::ReadChunk(n) && n == old(self).chunk_size,
    {
        self.phase = UploadPhase::Reading;
        UploadAction::ReadChunk(self.chunk_size)
    }

    /// The next chunk of source bytes: an empty read ends the byte stream
    /// and sends the End request carrying the baseline modification time and
    /// checksum; a non-empty read travels as a Transfer request, its bytes
    /// in wire form — compressed exactly when the upload asked for that.
    pub fn on_chunk_read(&mut self, data: Vec<u8>) -> (action: UploadAction)
        requires
            old(self).phase is Reading,
        ensures
            old(self).same_config(*final(self)),
            data@.len() == 0 ==> final(self).phase is Ending && (
            action matches UploadAction::SendEnd(req) && req.serverside_path@ == old(
                self,
            ).serverside_path@ && req.mtime == old(self).mtime && req.crc == old(self).crc),
            data@.len() > 0 ==> final(self).phase is Transferring && (
            action matches UploadAction::SendTransfer(req) && req.serverside_path@ == old(
                self,
            ).serverside_path@ && req.compress == old(self).compress && req.bytes@ == wire_bytes(
                data@,
                old(self).compress,
            )),
            action is SendTransfer <==> data@.len() > 0,
    {
        if data.len() == 0 {
            self.phase = UploadPhase::Ending;
            UploadAction::SendEnd(
                UploadClientEnd {
                    serverside_path: self.serverside_path.clone(),
                    mtime: self.mtime,
                    crc: self.crc,
                },
            )
        } else {
            self.phase = UploadPhase::Transferring;
            let wire = prepare_chunk(data, self.compress);
            UploadAction::SendTransfer(
                UploadClientTransfer {
                    serverside_path: self.serverside_path.clone(),
                    compress: self.compress,
                    bytes: wire,
                },
            )
        }
    }

    /// The server's Transfer reply: an application error aborts the whole
    /// upload — a chunk is never retried — and success moves on to the next
    /// read.
    pub fn on_transfer_reply(&mut self, reply: UploadServerTransfer) -> (action: UploadAction)
        requires
            old(self).phase is Transferring,
        ensures
            old(self).same_config(*final(self)),
            reply.error_msg matches Some(m) ==> final(self).phase is Failed && (
            action matches UploadAction::Abort(e) && e matches TransferError::Application(am)
                && am@ == m@),
            reply.error_msg is None ==> final(self).phase is Reading && (
            action matches UploadAction::ReadChunk(n) && n == old(self).chunk_size),
    {
        match reply.error_msg {
            Some(m) => {
                self.phase = UploadPhase::Failed;
                UploadAction::Abort(TransferError::Application(m))
            },
            None => {
                self.phase = UploadPhase::Reading;
                UploadAction::ReadChunk(self.chunk_size)
            },
        }
    }

    /// A reply that could not be decoded — a malformed payload, or bytes
    /// that are not the expected response record — aborts the whole
    /// operation as a protocol error.  The machine goes terminal, so no
    /// further frames are sent.
    pub fn on_malformed_reply(&mut self, error: ProtocolError) -> (action: UploadAction)
        requires
            old(self).phase is Initialising || old(self).phase is Transferring || old(
                self,
            ).phase is Ending,
        ensures
            old(self).same_config(*final(self)),
            final(self).phase is Failed,
            action matches UploadAction::Abort(e) && e == TransferError::Protocol(error),
    {
        self.phase = UploadPhase::Failed;
        UploadAction::Abort(TransferError::Protocol(error))
    }

    /// The server's End reply: an application error — a missing destination
    /// or a checksum mismatch — is fatal; success completes the upload.
    pub fn on_end_reply(&mut self, reply: UploadServerEnd) -> (action: UploadAction)
        requires
            old(self).phase is Ending,
        ensures
            old(self).same_config(*final(self)),
            reply.error_msg matches Some(m) ==> final(self).phase is Failed && (
            action matches UploadAction::Abort(e) && e matches TransferError::Application(am)
                && am@ == m@),
            reply.error_msg is None ==> final(self).phase is Complete && action is Succeed,
    {
        match reply.error_msg {
            Some(m) => {
                self.phase = UploadPhase::Failed;
                UploadAction::Abort(TransferError::Application(m))
            },
            None => {
                self.phase = UploadPhase::Complete;
                UploadAction::Succeed
            },
        }
    }
}

/// The upload's precondition on its source, decided from what the shell
/// observed of it: the source must exist and be a regular file, and an
/// upload of anything else is rejected before a single frame is sent.
pub fn validate_upload_source(exists: bool, is_file: bool) -> (r: Result<(), TransferError>)
    ensures
        r is Ok <==> exists && is_file,
        r matches Err(e) ==> (e matches TransferError::Application(m) && m@
            == "source path does not exist on client"@),
{
    if exists && is_file {
        Ok(())
    } else {
        Err(TransferError::Application("source path does not exist on client".to_owned()))
    }
}

/// The client's reading of a delete reply: any reported application error —
/// in particular a non-existent path — is surfaced verbatim and fatal to the
/// operation; an absent one is success.
pub fn delete_outcome(reply: DeleteServerInitalise) -> (r: Result<(), TransferError>)
    ensures
        reply.error_msg matches Some(m) ==> (r matches Err(e)
            && e matches TransferError::Application(am) && am@ == m@),
        reply.error_msg is None ==> r is Ok,
{
    match reply.error_msg {
        Some(m) => Err(TransferError::Application(m)),
        None => Ok(()),
    }
}

} // verus!
