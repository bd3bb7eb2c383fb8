use tcp_file_copy::client::delete_outcome;
use tcp_file_copy::client::validate_upload_source;
use tcp_file_copy::client::DownloadAction;
use tcp_file_copy::client::DownloadClient;
use tcp_file_copy::client::DownloadPhase;
use tcp_file_copy::client::UploadAction;
use tcp_file_copy::client::UploadClient;
use tcp_file_copy::client::UploadPhase;
use tcp_file_copy::frame::ProtocolError;
use tcp_file_copy::messages::DeleteServerInitalise;
use tcp_file_copy::messages::DownloadServerInitalise;
use tcp_file_copy::messages::TransferError;
use tcp_file_copy::server::respond_download_initialise;
use tcp_file_copy::server::respond_download_transfer;
use tcp_file_copy::server::respond_upload_end;
use tcp_file_copy::server::respond_upload_initialise;
use tcp_file_copy::server::respond_upload_transfer;

/// Stand-in for the external checksum primitive: any function of the bytes
/// will do for driving the machines, as long as both sides use the same one.
fn sim_crc(data: &[u8]) -> u64 {
    let mut acc: u64 = 0xcbf2_9ce4_8422_2325;
    for &b in data {
        acc = acc.wrapping_mul(0x1000_0000_01b3) ^ (b as u64);
    }
    acc
}

/// Outcome of one simulated logical operation: the result, the destination
/// bytes, the stamped modification time if any, and how many Transfer
/// requests were issued.
type SimOutcome = (Result<(), TransferError>, Vec<u8>, Option<u64>, usize);

/// Drives a `DownloadClient` against the server's verified decision
/// functions, with the source file, the destination file and the reported
/// checksum simulated in memory.
fn run_download(
    source: &[u8],
    reported_crc: u64,
    mtime: u64,
    initial_dest: Vec<u8>,
    chunk_size: usize,
    resume: bool,
    compress: bool,
) -> SimOutcome {
    let mut machine = DownloadClient::new("dir/file.bin".to_owned(), chunk_size, resume, compress);
    let mut dest = initial_dest;
    let mut stamped: Option<u64> = None;
    let mut transfers: usize = 0;
    let mut action = machine.start();
    loop {
        action = match action {
            DownloadAction::PrepareDest(remove_existing) => {
                if remove_existing {
                    dest.clear();
                }
                machine.on_dest_prepared()
            }
            DownloadAction::SendInitialise(req) => {
                assert_eq!(req.serverside_path, "dir/file.bin");
                let reply = respond_download_initialise(
                    true,
                    source.len() as u64,
                    mtime,
                    Some(reported_crc),
                );
                machine.on_init_reply(reply)
            }
            DownloadAction::MeasureDest => machine.on_dest_length(dest.len() as u64),
            DownloadAction::SendTransfer(req) => {
                transfers += 1;
                let from = req.from_byte as usize;
                assert_eq!(from, dest.len());
                assert!(from < source.len());
                let end = source.len().min(from + req.chunk_size);
                let reply = respond_download_transfer(source[from..end].to_vec(), req.compress);
                machine.on_transfer_reply(reply)
            }
            DownloadAction::Append(bytes) => {
                dest.extend_from_slice(&bytes);
                machine.on_bytes_appended()
            }
            DownloadAction::CreateEmpty => machine.on_empty_created(),
            DownloadAction::ComputeChecksum => machine.on_checksum(sim_crc(&dest)),
            DownloadAction::SetModifiedTime(t) => {
                stamped = Some(t);
                machine.on_time_set()
            }
            DownloadAction::Succeed => return (Ok(()), dest, stamped, transfers),
            DownloadAction::Abort(e) => return (Err(e), dest, stamped, transfers),
        };
    }
}

/// Drives an `UploadClient` the same way; the remote destination is `None`
/// while absent.
fn run_upload(
    source: &[u8],
    mtime: u64,
    mut remote: Option<Vec<u8>>,
    chunk_size: usize,
    resume: bool,
    compress: bool,
) -> (Result<(), TransferError>, Option<Vec<u8>>, Option<u64>, usize) {
    let mut machine = UploadClient::new(
        "dir/file.bin".to_owned(),
        chunk_size,
        resume,
        compress,
        source.len() as u64,
        mtime,
        sim_crc(source),
    );
    let mut stamped: Option<u64> = None;
    let mut transfers: usize = 0;
    let mut pos: usize = 0;
    let mut action = machine.start();
    loop {
        action = match action {
            UploadAction::SendInitialise(req) => {
                assert_eq!(req.serverside_path, "dir/file.bin");
                let current_len = remote.as_ref().map_or(0, |d| d.len() as u64);
                let (reply, remove) =
                    respond_upload_initialise(req.is_continue, remote.is_some(), current_len);
                if remove {
                    remote = None;
                }
                machine.on_init_reply(reply)
            }
            UploadAction::OpenSourceAt(from) => {
                pos = from as usize;
                machine.on_source_opened()
            }
            UploadAction::ReadChunk(n) => {
                let end = source.len().min(pos + n);
                let data = if pos < end { source[pos..end].to_vec() } else { Vec::new() };
                pos = end.max(pos);
                machine.on_chunk_read(data)
            }
            UploadAction::SendTransfer(req) => {
                transfers += 1;
                let (reply, to_append) = respond_upload_transfer(req.bytes, req.compress);
                if let Some(bytes) = to_append {
                    remote.get_or_insert_with(Vec::new).extend_from_slice(&bytes);
                }
                machine.on_transfer_reply(reply)
            }
            UploadAction::SendEnd(req) => {
                let computed = remote.as_ref().map(|d| sim_crc(d));
                let empty_crc = sim_crc(&[]);
                let (reply, create_empty, stamp) =
                    respond_upload_end(req.crc, empty_crc, remote.is_some(), computed);
                if create_empty {
                    remote = Some(Vec::new());
                }
                if stamp {
                    stamped = Some(req.mtime);
                }
                machine.on_end_reply(reply)
            }
            UploadAction::Succeed => return (Ok(()), remote, stamped, transfers),
            UploadAction::Abort(e) => return (Err(e), remote, stamped, transfers),
        };
    }
}

#[test]
fn download_fresh_reproduces_source() {
    let source: Vec<u8> = (0..100u32).map(|i| (i * 7 % 256) as u8).collect();
    let (outcome, dest, stamped, transfers) =
        run_download(&source, sim_crc(&source), 5000, Vec::new(), 16, false, false);
    assert_eq!(outcome, Ok(()));
    assert_eq!(dest, source);
    assert_eq!(stamped, Some(5000));
    assert_eq!(transfers, 7); // 100 bytes in chunks of 16
}

#[test]
fn download_resume_completes_any_prefix() {
    let source: Vec<u8> = (0..50u32).map(|i| (i * 13 % 256) as u8).collect();
    for k in [0usize, 1, 25, 48, 49] {
        let partial = source[..k].to_vec();
        let (outcome, dest, _, _) =
            run_download(&source, sim_crc(&source), 1, partial, 8, true, false);
        assert_eq!(outcome, Ok(()));
        assert_eq!(dest, source, "resume from length {k} must reproduce the source");
    }
}

#[test]
fn download_resume_of_complete_destination_sends_no_transfer() {
    let source = vec![3u8; 30];
    let (outcome, dest, stamped, transfers) =
        run_download(&source, sim_crc(&source), 42, source.clone(), 8, true, false);
    assert_eq!(outcome, Ok(()));
    assert_eq!(dest, source);
    assert_eq!(stamped, Some(42));
    assert_eq!(transfers, 0);
}

#[test]
fn download_zero_length_file_sends_no_transfer() {
    let (outcome, dest, stamped, transfers) =
        run_download(&[], sim_crc(&[]), 900, Vec::new(), 8, false, false);
    assert_eq!(outcome, Ok(()));
    assert!(dest.is_empty());
    assert_eq!(stamped, Some(900));
    assert_eq!(transfers, 0);
}

#[test]
fn download_compression_never_changes_destination_bytes() {
    let source: Vec<u8> = (0..3000u32).map(|i| (i % 17) as u8).collect();
    let (_, plain, _, _) =
        run_download(&source, sim_crc(&source), 1, Vec::new(), 512, false, false);
    let (_, compressed, _, _) =
        run_download(&source, sim_crc(&source), 1, Vec::new(), 512, false, true);
    assert_eq!(plain, source);
    assert_eq!(compressed, source);
}

#[test]
fn download_wrong_reported_checksum_fails_and_keeps_destination() {
    let source = vec![9u8; 40];
    let wrong = sim_crc(&source) ^ 1;
    let (outcome, dest, stamped, _) =
        run_download(&source, wrong, 7, Vec::new(), 8, false, false);
    assert_eq!(outcome, Err(TransferError::Integrity));
    // The destination is left in its intermediate state, not removed and
    // not stamped: the transfer did not silently succeed.
    assert_eq!(dest, source);
    assert_eq!(stamped, None);
}

#[test]
fn download_server_error_aborts() {
    let mut machine = DownloadClient::new("gone.bin".to_owned(), 8, false, false);
    let _ = machine.start();
    let _ = machine.on_dest_prepared();
    let reply = respond_download_initialise(false, 0, 0, None);
    let action = machine.on_init_reply(reply);
    match action {
        DownloadAction::Abort(TransferError::Application(m)) => {
            assert_eq!(m, "file not found on server");
        }
        other => panic!("expected an application abort, got {other:?}"),
    }
}

#[test]
fn upload_fresh_reproduces_source() {
    let source: Vec<u8> = (0..77u32).map(|i| (i * 31 % 256) as u8).collect();
    let (outcome, remote, stamped, transfers) =
        run_upload(&source, 1234, None, 10, true, false);
    assert_eq!(outcome, Ok(()));
    assert_eq!(remote.as_deref(), Some(&source[..]));
    assert_eq!(stamped, Some(1234));
    assert_eq!(transfers, 8); // 77 bytes in chunks of 10
}

#[test]
fn upload_resume_completes_any_prefix() {
    let source: Vec<u8> = (0..60u32).map(|i| (i * 3 % 256) as u8).collect();
    for k in [0usize, 1, 30, 59] {
        let partial = Some(source[..k].to_vec());
        let (outcome, remote, _, _) = run_upload(&source, 1, partial, 7, true, false);
        assert_eq!(outcome, Ok(()));
        assert_eq!(remote.as_deref(), Some(&source[..]), "resume from length {k}");
    }
}

#[test]
fn upload_of_complete_destination_sends_no_transfer() {
    let source = vec![4u8; 20];
    let (outcome, remote, _, transfers) =
        run_upload(&source, 1, Some(source.clone()), 7, true, false);
    assert_eq!(outcome, Ok(()));
    assert_eq!(remote.as_deref(), Some(&source[..]));
    assert_eq!(transfers, 0);
}

#[test]
fn upload_replace_discards_existing_destination() {
    let source = vec![1u8, 2, 3];
    let stale = Some(vec![9u8; 50]);
    let (outcome, remote, stamped, _) = run_upload(&source, 8, stale, 2, false, false);
    assert_eq!(outcome, Ok(()));
    assert_eq!(remote.as_deref(), Some(&source[..]));
    assert_eq!(stamped, Some(8));
}

#[test]
fn upload_compression_never_changes_destination_bytes() {
    let source: Vec<u8> = (0..2500u32).map(|i| (i % 23) as u8).collect();
    let (_, plain, _, _) = run_upload(&source, 1, None, 400, true, false);
    let (_, compressed, _, _) = run_upload(&source, 1, None, 400, true, true);
    assert_eq!(plain.as_deref(), Some(&source[..]));
    assert_eq!(compressed.as_deref(), Some(&source[..]));
}

#[test]
fn upload_zero_length_creates_empty_destination() {
    // No Transfer frame is issued, yet the destination file exists
    // afterwards, empty and stamped with the source's modification time.
    let (outcome, remote, stamped, transfers) = run_upload(&[], 321, None, 8, true, false);
    assert_eq!(outcome, Ok(()));
    assert_eq!(remote.as_deref(), Some(&[][..]));
    assert_eq!(stamped, Some(321));
    assert_eq!(transfers, 0);
}

#[test]
fn upload_zero_length_replace_leaves_empty_destination() {
    let stale = Some(vec![9u8; 12]);
    let (outcome, remote, stamped, transfers) = run_upload(&[], 5, stale, 8, false, false);
    assert_eq!(outcome, Ok(()));
    assert_eq!(remote.as_deref(), Some(&[][..]));
    assert_eq!(stamped, Some(5));
    assert_eq!(transfers, 0);
}

#[test]
fn round_trip_empty_file() {
    let mtime = 60_000;
    let (up, remote, up_stamped, up_transfers) = run_upload(&[], mtime, None, 16, true, false);
    assert_eq!(up, Ok(()));
    assert_eq!(up_stamped, Some(mtime));
    assert_eq!(up_transfers, 0);
    let remote = remote.expect("upload must create the empty destination");
    let (down, local, down_stamped, down_transfers) =
        run_download(&remote, sim_crc(&remote), mtime, Vec::new(), 16, false, false);
    assert_eq!(down, Ok(()));
    assert!(local.is_empty());
    assert_eq!(down_stamped, Some(mtime));
    assert_eq!(down_transfers, 0);
}

#[test]
fn round_trip_upload_then_download() {
    let source: Vec<u8> = (0..500u32).map(|i| (i * 11 % 256) as u8).collect();
    let mtime = 777_000;
    let (up, remote, up_stamped, _) = run_upload(&source, mtime, None, 64, true, true);
    assert_eq!(up, Ok(()));
    assert_eq!(up_stamped, Some(mtime));
    let remote = remote.expect("upload must create the destination");
    assert_eq!(remote, source);
    let (down, local, down_stamped, _) =
        run_download(&remote, sim_crc(&remote), mtime, Vec::new(), 64, false, true);
    assert_eq!(down, Ok(()));
    assert_eq!(local, source);
    assert_eq!(down_stamped, Some(mtime));
}

#[test]
fn download_malformed_reply_aborts_as_protocol_error() {
    let mut machine = DownloadClient::new("a.bin".to_owned(), 8, false, false);
    let _ = machine.start();
    let _ = machine.on_dest_prepared();
    let _ = machine.on_init_reply(DownloadServerInitalise {
        error_msg: None,
        filelen: 10,
        mtime: 1,
        crc: 2,
    });
    let action = machine.on_dest_length(0);
    assert!(matches!(action, DownloadAction::SendTransfer(_)));
    // The chunk reply could not be decoded: the operation aborts as a
    // protocol error and the machine is terminal, so nothing more can be
    // sent or appended.
    let action = machine.on_malformed_reply(ProtocolError::BulkTooShort);
    match action {
        DownloadAction::Abort(TransferError::Protocol(p)) => {
            assert_eq!(p, ProtocolError::BulkTooShort);
        }
        other => panic!("expected a protocol abort, got {other:?}"),
    }
    assert_eq!(machine.phase, DownloadPhase::Failed);
}

#[test]
fn upload_malformed_reply_aborts_as_protocol_error() {
    let mut machine = UploadClient::new("a.bin".to_owned(), 8, true, false, 10, 1, 2);
    let _ = machine.start();
    let action = machine.on_malformed_reply(ProtocolError::BadRecord);
    match action {
        UploadAction::Abort(TransferError::Protocol(p)) => {
            assert_eq!(p, ProtocolError::BadRecord);
        }
        other => panic!("expected a protocol abort, got {other:?}"),
    }
    assert_eq!(machine.phase, UploadPhase::Failed);
}

#[test]
fn upload_source_must_be_a_regular_file() {
    assert_eq!(validate_upload_source(true, true), Ok(()));
    let missing = validate_upload_source(false, false);
    match missing {
        Err(TransferError::Application(m)) => {
            assert_eq!(m, "source path does not exist on client");
        }
        other => panic!("expected an application error, got {other:?}"),
    }
    assert!(validate_upload_source(true, false).is_err());
}

#[test]
fn delete_outcome_follows_error_field() {
    assert_eq!(delete_outcome(DeleteServerInitalise { error_msg: None }), Ok(()));
    let r = delete_outcome(DeleteServerInitalise { error_msg: Some("file not found on server".to_owned()) });
    match r {
        Err(TransferError::Application(m)) => assert_eq!(m, "file not found on server"),
        other => panic!("expected an application error, got {other:?}"),
    }
}
