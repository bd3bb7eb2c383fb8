//! A resumable, integrity-checked file-transfer protocol.
//!
//! The crate covers the wire protocol and the transfer state machine: the
//! framing that multiplexes operation direction and protocol step onto a byte
//! stream, the length-prefixed bulk sub-framing that carries raw chunk bytes,
//! the client-side orchestrators for uploads, downloads and deletions, and the
//! server-side request dispatcher's decision logic.  Sockets, the filesystem,
//! checksums over files on disk and record serialization are external
//! collaborators: the functions here consume their observations as plain
//! values and state exactly what is decided from them.

pub mod chunk;
pub mod client;
pub mod frame;
pub mod messages;
pub mod model;
pub mod server;

pub use frame::FileCopyStep;
