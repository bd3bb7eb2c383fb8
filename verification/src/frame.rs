//! Frame codec: the fixed six-byte header (signature, direction, step) in
//! front of an operation-specific payload, and the length-prefixed bulk
//! sub-framing that lets raw chunk bytes travel outside the generic record
//! serializer.

use vstd::prelude::*;

verus! {

/// Phase of one logical transfer's lifecycle.  On the wire the steps are the
/// bytes 0, 10 and 200; the gaps are reserved and carry no meaning.
#[derive(Debug, Clone, Copy, PartialEq, Eq, Structural)]
pub enum FileCopyStep {
    Initialise,
    Transfer,
    End,
}

/// Logical operation family a frame belongs to.  On the wire: 0 = download,
/// 1 = upload, 2 = delete.
#[derive(Debug, Clone, Copy, PartialEq, Eq, Structural)]
pub enum Direction {
    Download,
    Upload,
    Delete,
}

/// Wire byte of each step.
pub open spec fn spec_step_to_u8(step: FileCopyStep) -> u8 {
    match step {
        FileCopyStep::Initialise => 0,
        FileCopyStep::Transfer => 10,
        FileCopyStep::End => 200,
    }
}

/// Step recognized in a wire byte, if any.
pub open spec fn spec_step_from_u8(value: u8) -> Option<FileCopyStep> {
    if value == 0 {
        Some(FileCopyStep::Initialise)
    } else if value == 10 {
        Some(FileCopyStep::Transfer)
    } else if value == 200 {
        Some(FileCopyStep::End)
    } else {
        None
    }
}

impl FileCopyStep {
    /// Recognizes a step byte; any byte other than 0, 10 or 200 is refused.
    pub fn from_u8(value: u8) -> (r: Option<FileCopyStep>)
        ensures
            r == spec_step_from_u8(value),
    {
        match value {
            0 => Some(FileCopyStep::Initialise),
            10 => Some(FileCopyStep::Transfer),
            200 => Some(FileCopyStep::End),
            _ => None,
        }
    }

    /// The byte this step is written as.
    pub fn to_u8(&self) -> (r: u8)
        ensures
            r == spec_step_to_u8(*self),
    {
        match self {
            FileCopyStep::Initialise => 0,
            FileCopyStep::Transfer => 10,
            FileCopyStep::End => 200,
        }
    }
}

/// The two step maps invert each other.
pub proof fn lemma_step_bytes_invert(step: FileCopyStep)
    ensures
        spec_step_from_u8(spec_step_to_u8(step)) == Some(step),
{
}

/// Wire byte of each direction.
pub open spec fn spec_direction_to_u8(direction: Direction) -> u8 {
    match direction {
        Direction::Download => 0,
        Direction::Upload => 1,
        Direction::Delete => 2,
    }
}

/// Direction recognized in a wire byte, if any.
pub open spec fn spec_direction_from_u8(value: u8) -> Option<Direction> {
    if value == 0 {
        Some(Direction::Download)
    } else if value == 1 {
        Some(Direction::Upload)
    } else if value == 2 {
        Some(Direction::Delete)
    } else {
        None
    }
}

impl Direction {
    /// Recognizes a direction byte; any byte other than 0, 1 or 2 is refused.
    pub fn from_u8(value: u8) -> (r: Option<Direction>)
        ensures
            r == spec_direction_from_u8(value),
    {
        match value {
            0 => Some(Direction::Download),
            1 => Some(Direction::Upload),
            2 => Some(Direction::Delete),
            _ => None,
        }
    }

    /// The byte this direction is written as.
    pub fn to_u8(&self) -> (r: u8)
        ensures
            r == spec_direction_to_u8(*self),
    {
        match self {
            Direction::Download => 0,
            Direction::Upload => 1,
            Direction::Delete => 2,
        }
    }
}

/// The two direction maps invert each other.
pub proof fn lemma_direction_bytes_invert(direction: Direction)
    ensures
        spec_direction_from_u8(spec_direction_to_u8(direction)) == Some(direction),
{
}

/// The four-byte magic constant that opens every frame: "TFC1".
pub open spec fn spec_signature() -> Seq<u8> {
    seq![0x54u8, 0x46u8, 0x43u8, 0x31u8]
}

/// Why a buffer was rejected by the codec.  Any of these is fatal to the
/// connection that carried the buffer: the peer speaks another protocol or
/// another version of this one, and no recovery is attempted.
#[derive(Debug, Clone, Copy, PartialEq, Eq, Structural)]
pub enum ProtocolError {
    /// Fewer than the six header bytes were present.
    TooShort,
    /// The first four bytes were not the protocol signature.
    BadSignature,
    /// The direction byte named no known operation family.
    UnknownDirection,
    /// The step byte named no known lifecycle step.
    UnknownStep,
    /// A bulk payload was shorter than its eight-byte length prefix.
    BulkTooShort,
    /// A bulk payload declared a metadata length past the end of the buffer.
    BulkLengthOverrun,
    /// A payload was not decodable as the record its direction and step call
    /// for.  The frame codec itself never reports this: it comes from
    /// whichever side hands the payload to the record serializer.
    BadRecord,
}

/// Bytes of one frame: signature, direction byte, step byte, then the payload.
pub open spec fn spec_encode_frame(
    direction: Direction,
    step: FileCopyStep,
    payload: Seq<u8>,
) -> Seq<u8> {
    spec_signature() + seq![spec_direction_to_u8(direction), spec_step_to_u8(step)] + payload
}

/// What decoding a buffer yields: the header fields and the payload bytes, or
/// the first reason the buffer is not a frame (length, then signature, then
/// direction, then step).
pub open spec fn spec_decode_frame(frame: Seq<u8>) -> Result<
    (Direction, FileCopyStep, Seq<u8>),
    ProtocolError,
> {
    if frame.len() < 6 {
        Err(ProtocolError::TooShort)
    } else if frame.take(4) != spec_signature() {
        Err(ProtocolError::BadSignature)
    } else {
        match spec_direction_from_u8(frame[4]) {
            None => Err(ProtocolError::UnknownDirection),
            Some(direction) => match spec_step_from_u8(frame[5]) {
                None => Err(ProtocolError::UnknownStep),
                Some(step) => Ok((direction, step, frame.skip(6))),
            },
        }
    }
}

/// Packs a frame: the signature, the direction and step bytes, then the
/// payload, exactly as `spec_encode_frame` lays them out.
pub fn encode_frame(direction: Direction, step: FileCopyStep, payload: Vec<u8>) -> (r: Vec<u8>)
    ensures
        r@ == spec_encode_frame(direction, step, payload@),
{
    let mut tail = payload;
    let mut out: Vec<u8> = Vec::new();
    out.push(0x54);
    out.push(0x46);
    out.push(0x43);
    out.push(0x31);
    out.push(direction.to_u8());
    out.push(step.to_u8());
    out.append(&mut tail);
    proof {
        assert(out@ =~= spec_encode_frame(direction, step, payload@));
    }
    out
}

/// Splits a buffer into header fields and payload, refusing it for exactly
/// the reasons `spec_decode_frame` lists: an undersized buffer, a wrong
/// signature, or an unrecognized direction or step byte.
pub fn decode_frame(frame: Vec<u8>) -> (r: Result<(Direction, FileCopyStep, Vec<u8>), ProtocolError>)
    ensures
        r matches Ok(t) ==> spec_decode_frame(frame@) == Ok::<
            (Direction, FileCopyStep, Seq<u8>),
            ProtocolError,
        >((t.0, t.1, t.2@)),
        r matches Err(e) ==> spec_decode_frame(frame@) == Err::<
            (Direction, FileCopyStep, Seq<u8>),
            ProtocolError,
        >(e),
{
    if frame.len() < 6 {
        return Err(ProtocolError::TooShort);
    }
    if !(frame[0] == 0x54 && frame[1] == 0x46 && frame[2] == 0x43 && frame[3] == 0x31) {
        proof {
            assert(frame@.take(4) != spec_signature());
        }
        return Err(ProtocolError::BadSignature);
    }
    proof {
        assert(frame@.take(4) =~= spec_signature());
    }
    let direction = match Direction::from_u8(frame[4]) {
        Some(direction) => direction,
        None => {
            return Err(ProtocolError::UnknownDirection);
        },
    };
    let step = match FileCopyStep::from_u8(frame[5]) {
        Some(step) => step,
        None => {
            return Err(ProtocolError::UnknownStep);
        },
    };
    let mut head = frame;
    let payload = head.split_off(6);
    Ok((direction, step, payload))
}

/// Bulk sub-framing: an eight-byte little-endian length, the metadata bytes
/// it counts, then the raw chunk bytes to the end of the frame.
pub open spec fn spec_pack_bulk(header: Seq<u8>, raw: Seq<u8>) -> Seq<u8>
    recommends
        header.len() <= u64::MAX,
{
    vstd::bytes::spec_u64_to_le_bytes(header.len() as u64) + header + raw
}

/// What unpacking a bulk payload yields: the metadata bytes and the raw
/// bytes, or the reason the buffer is not a bulk payload (no room for the
/// length prefix, or a declared length past the end of the buffer).
pub open spec fn spec_unpack_bulk(bytes: Seq<u8>) -> Result<(Seq<u8>, Seq<u8>), ProtocolError> {
    if bytes.len() < 8 {
        Err(ProtocolError::BulkTooShort)
    } else {
        let header_len = vstd::bytes::spec_u64_from_le_bytes(bytes.take(8)) as int;
        if header_len > bytes.len() - 8 {
            Err(ProtocolError::BulkLengthOverrun)
        } else {
            Ok((bytes.subrange(8, 8 + header_len), bytes.skip(8 + header_len)))
        }
    }
}

/// Prepends the eight-byte little-endian length of `header`, then `header`
/// itself, then `raw`, so that raw chunk bytes never pass through the record
/// serializer and its size ceiling.
pub fn pack_bulk(header: Vec<u8>, raw: Vec<u8>) -> (r: Vec<u8>)
    ensures
        r@ == spec_pack_bulk(header@, raw@),
{
    let mut header_part = header;
    let mut raw_part = raw;
    let mut out = vstd::bytes::u64_to_le_bytes(header_part.len() as u64);
    out.append(&mut header_part);
    out.append(&mut raw_part);
    proof {
        assert(out@ =~= spec_pack_bulk(header@, raw@));
    }
    out
}

/// Splits a bulk payload back into metadata bytes and raw bytes, failing for
/// exactly the reasons `spec_unpack_bulk` lists.
pub fn unpack_bulk(bytes: Vec<u8>) -> (r: Result<(Vec<u8>, Vec<u8>), ProtocolError>)
    ensures
        r matches Ok(t) ==> spec_unpack_bulk(bytes@) == Ok::<(Seq<u8>, Seq<u8>), ProtocolError>(
            (t.0@, t.1@),
        ),
        r matches Err(e) ==> spec_unpack_bulk(bytes@) == Err::<(Seq<u8>, Seq<u8>), ProtocolError>(e),
{
    if bytes.len() < 8 {
        return Err(ProtocolError::BulkTooShort);
    }
    let prefix = vstd::slice::slice_subrange(bytes.as_slice(), 0, 8);
    proof {
        assert(prefix@ =~= bytes@.take(8));
    }
    let header_len_u64 = vstd::bytes::u64_from_le_bytes(prefix);
    if header_len_u64 > (bytes.len() - 8) as u64 {
        return Err(ProtocolError::BulkLengthOverrun);
    }
    let header_len: usize = header_len_u64 as usize;
    let mut head = bytes;
    let mut tail = head.split_off(8);
    let raw = tail.split_off(header_len);
    proof {
        assert(tail@ =~= bytes@.subrange(8, 8 + header_len as int));
        assert(raw@ =~= bytes@.skip(8 + header_len as int));
    }
    Ok((tail, raw))
}

/// Encoding then decoding a frame gives back exactly the direction, step and
/// payload that went in.
pub proof fn lemma_frame_round_trip(direction: Direction, step: FileCopyStep, payload: Seq<u8>)
    ensures
        spec_decode_frame(spec_encode_frame(direction, step, payload)) == Ok::<
            (Direction, FileCopyStep, Seq<u8>),
            ProtocolError,
        >((direction, step, payload)),
{
    let frame = spec_encode_frame(direction, step, payload);
    assert(frame.take(4) =~= spec_signature());
    assert(frame[4] == spec_direction_to_u8(direction));
    assert(frame[5] == spec_step_to_u8(step));
    assert(frame.skip(6) =~= payload);
}

/// Packing then unpacking a bulk payload gives back exactly the metadata and
/// raw bytes that went in.
pub proof fn lemma_bulk_round_trip(header: Seq<u8>, raw: Seq<u8>)
    requires
        header.len() <= u64::MAX,
    ensures
        spec_unpack_bulk(spec_pack_bulk(header, raw)) == Ok::<(Seq<u8>, Seq<u8>), ProtocolError>(
            (header, raw),
        ),
{
    vstd::bytes::lemma_auto_spec_u64_to_from_le_bytes();
    let bytes = spec_pack_bulk(header, raw);
    assert(bytes.take(8) =~= vstd::bytes::spec_u64_to_le_bytes(header.len() as u64));
    let header_len = vstd::bytes::spec_u64_from_le_bytes(bytes.take(8)) as int;
    assert(header_len == header.len());
    assert(bytes.subrange(8, 8 + header_len) =~= header);
    assert(bytes.skip(8 + header_len) =~= raw);
}

/// A buffer that is long enough but opens with the wrong signature, or whose
/// step byte is unrecognized, decodes to an error: no part of it is handed on.
pub proof fn lemma_malformed_frame_rejected(frame: Seq<u8>)
    ensures
        frame.len() >= 6 && frame.take(4) != spec_signature() ==> spec_decode_frame(frame)
            == Err::<(Direction, FileCopyStep, Seq<u8>), ProtocolError>(
            ProtocolError::BadSignature,
        ),
        frame.len() >= 6 && frame.take(4) == spec_signature() && spec_direction_from_u8(frame[4])
            is Some && spec_step_from_u8(frame[5]) is None ==> spec_decode_frame(frame) == Err::<
            (Direction, FileCopyStep, Seq<u8>),
            ProtocolError,
        >(ProtocolError::UnknownStep),
        frame.len() < 6 ==> spec_decode_frame(frame) == Err::<
            (Direction, FileCopyStep, Seq<u8>),
            ProtocolError,
        >(ProtocolError::TooShort),
{
}

} // verus!
