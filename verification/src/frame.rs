//! Frame parsing and validation.
//!
//! A complete frame is laid out as: a two-byte constant header `01 03`, one
//! length byte giving the payload length `P`, the `P` payload bytes, and a
//! two-byte CRC16/MODBUS checksum over everything before it, low byte first.
//! The whole buffer is therefore `P + 5` bytes long.
//!
//! `parse` classifies an arbitrary byte buffer: too little data so far is
//! `Incomplete`, a structurally broken or corrupted buffer is `Invalid` with
//! a reason, and a well-formed buffer is `Complete` with its payload.

use vstd::prelude::*;
use vstd::slice::{slice_index_get, slice_subrange, slice_to_vec};

use crate::checksum::{checksum_bytes, checksum_of, crc16_modbus};

verus! {

/// Why a buffer cannot be a frame, however many more bytes arrive.
#[derive(Clone, Copy, Debug, PartialEq, Eq, Structural)]
pub enum InvalidReason {
    /// The first two bytes are not the constant header.
    UnexpectedHeader,
    /// The buffer is longer than the length byte announces.
    TooLong,
    /// The checksum bytes do not match the checksum of the rest.
    ChecksumMismatch,
}

/// The classification of a byte buffer by `parse`.
#[derive(Debug, PartialEq, Eq)]
pub enum ParseOutcome {
    /// The buffer is exactly one well-formed frame; here is its payload.
    Complete(Vec<u8>),
    /// The buffer could still grow into a well-formed frame.
    Incomplete,
    /// The buffer can never grow into a well-formed frame.
    Invalid(InvalidReason),
}

/// The mathematical counterpart of `ParseOutcome`, with the payload as a
/// sequence.
pub enum SpecParseOutcome {
    Complete(Seq<u8>),
    Incomplete,
    Invalid(InvalidReason),
}

impl View for ParseOutcome {
    type V = SpecParseOutcome;

    open spec fn view(&self) -> SpecParseOutcome {
        match self {
            ParseOutcome::Complete(payload) => SpecParseOutcome::Complete(payload@),
            ParseOutcome::Incomplete => SpecParseOutcome::Incomplete,
            ParseOutcome::Invalid(reason) => SpecParseOutcome::Invalid(*reason),
        }
    }
}

/// The first constant header byte.
pub const HEADER_BYTE_0: u8 = 0x01;

/// The second constant header byte.
pub const HEADER_BYTE_1: u8 = 0x03;

/// The bytes of a frame that are not payload: header, length byte, checksum.
pub const FRAME_OVERHEAD: usize = 5;

/// The total length a buffer must have for its length byte to be truthful.
pub open spec fn spec_expected_len(b: Seq<u8>) -> int
    recommends
        b.len() >= 3,
{
    b[2] + FRAME_OVERHEAD
}

/// What `parse` returns on `b`: the frame grammar, applied test by test.
pub open spec fn spec_parse(b: Seq<u8>) -> SpecParseOutcome {
    if b.len() < 3 {
        SpecParseOutcome::Incomplete
    } else if b[0] != HEADER_BYTE_0 || b[1] != HEADER_BYTE_1 {
        SpecParseOutcome::Invalid(InvalidReason::UnexpectedHeader)
    } else if b.len() < spec_expected_len(b) {
        SpecParseOutcome::Incomplete
    } else if b.len() > spec_expected_len(b) {
        SpecParseOutcome::Invalid(InvalidReason::TooLong)
    } else if b[b.len() - 2] != checksum_bytes(b.take(b.len() - 2))[0] || b[b.len() - 1]
        != checksum_bytes(b.take(b.len() - 2))[1] {
        SpecParseOutcome::Invalid(InvalidReason::ChecksumMismatch)
    } else {
        SpecParseOutcome::Complete(b.subrange(3, b.len() - 2))
    }
}

/// Classify `buffer`: a prefix of a frame, a broken buffer, or exactly one
/// well-formed frame, in which case the payload is returned.
pub fn parse(buffer: &[u8]) -> (r: ParseOutcome)
    ensures
        r@ == spec_parse(buffer@),
{
    let n = buffer.len();
    if n < 3 {
        return ParseOutcome::Incomplete;
    }
    if *slice_index_get(buffer, 0) != HEADER_BYTE_0 || *slice_index_get(buffer, 1)
        != HEADER_BYTE_1 {
        return ParseOutcome::Invalid(InvalidReason::UnexpectedHeader);
    }
    let expected_len = *slice_index_get(buffer, 2) as usize + FRAME_OVERHEAD;
    if n < expected_len {
        return ParseOutcome::Incomplete;
    }
    if n > expected_len {
        return ParseOutcome::Invalid(InvalidReason::TooLong);
    }
    let (checksum_lo, checksum_hi) = checksum_of(slice_subrange(buffer, 0, n - 2));
    if *slice_index_get(buffer, n - 2) != checksum_lo || *slice_index_get(buffer, n - 1)
        != checksum_hi {
        return ParseOutcome::Invalid(InvalidReason::ChecksumMismatch);
    }
    let payload = slice_to_vec(slice_subrange(buffer, 3, n - 2));
    ParseOutcome::Complete(payload)
}

/// The one well-formed frame that carries `payload`: header, length byte,
/// payload, checksum.
pub open spec fn spec_frame(payload: Seq<u8>) -> Seq<u8>
    recommends
        payload.len() <= 255,
{
    let body = seq![HEADER_BYTE_0, HEADER_BYTE_1, payload.len() as u8] + payload;
    body + checksum_bytes(body)
}

/// Build the frame that carries `payload`.
pub fn build_frame(payload: &Vec<u8>) -> (r: Vec<u8>)
    requires
        payload@.len() <= 255,
    ensures
        r@ == spec_frame(payload@),
{
    let mut frame: Vec<u8> = Vec::new();
    frame.push(HEADER_BYTE_0);
    frame.push(HEADER_BYTE_1);
    frame.push(payload.len() as u8);
    let mut i: usize = 0;
    while i < payload.len()
        invariant
            i <= payload@.len() <= 255,
            frame@ == seq![HEADER_BYTE_0, HEADER_BYTE_1, payload@.len() as u8]
                + payload@.take(i as int),
        decreases payload@.len() - i,
    {
        frame.push(payload[i]);
        i = i + 1;
    }
    proof {
        assert(frame@ =~= seq![HEADER_BYTE_0, HEADER_BYTE_1, payload@.len() as u8] + payload@);
    }
    let (checksum_lo, checksum_hi) = checksum_of(frame.as_slice());
    frame.push(checksum_lo);
    frame.push(checksum_hi);
    proof {
        assert(frame@ =~= spec_frame(payload@));
    }
    frame
}

/// Any buffer of fewer than three bytes parses as `Incomplete`: not even the
/// header and length byte have arrived yet.
pub proof fn lemma_short_buffer_incomplete(b: Seq<u8>)
    requires
        b.len() < 3,
    ensures
        spec_parse(b) == SpecParseOutcome::Incomplete,
{
}

/// Any buffer of at least three bytes whose first two bytes are not the
/// constant header parses as `Invalid(UnexpectedHeader)`. (A shorter buffer
/// parses as `Incomplete` whatever its bytes: the length test comes first.)
pub proof fn lemma_bad_header_invalid(b: Seq<u8>)
    requires
        b.len() >= 3,
        b[0] != HEADER_BYTE_0 || b[1] != HEADER_BYTE_1,
    ensures
        spec_parse(b) == SpecParseOutcome::Invalid(InvalidReason::UnexpectedHeader),
{
}

/// Round trip: for any payload of length at most 255, the frame built from
/// it parses as `Complete` with exactly that payload.
pub proof fn lemma_frame_round_trip(payload: Seq<u8>)
    requires
        payload.len() <= 255,
    ensures
        spec_parse(spec_frame(payload)) == SpecParseOutcome::Complete(payload),
{
    let body = seq![HEADER_BYTE_0, HEADER_BYTE_1, payload.len() as u8] + payload;
    let b = spec_frame(payload);
    assert(b.len() == payload.len() + 5);
    assert(b[2] == payload.len() as u8);
    assert(spec_expected_len(b) == b.len());
    assert(b.take(b.len() - 2) =~= body);
    assert(b[b.len() - 2] == checksum_bytes(body)[0]);
    assert(b[b.len() - 1] == checksum_bytes(body)[1]);
    assert(b.subrange(3, b.len() - 2) =~= payload);
}

/// Corruption of the length byte is always caught: a buffer that parses
/// `Complete`, with its length byte changed and nothing else, parses as
/// `Incomplete` or `Invalid(TooLong)` — never `Complete`.
pub proof fn lemma_length_byte_corruption(b: Seq<u8>, c: Seq<u8>)
    requires
        spec_parse(b) is Complete,
        c.len() == b.len(),
        c[2] != b[2],
        forall|i: int| 0 <= i < c.len() && i != 2 ==> c[i] == b[i],
    ensures
        spec_parse(c) == SpecParseOutcome::Incomplete || spec_parse(c)
            == SpecParseOutcome::Invalid(InvalidReason::TooLong),
{
    assert(c[0] == b[0]);
    assert(c[1] == b[1]);
    assert(b.len() == spec_expected_len(b));
    assert(spec_expected_len(c) != c.len());
}

/// Corruption of a payload byte is caught whenever it changes the checksum
/// of the part the checksum covers — which the corruption-detecting design
/// of CRC16 makes overwhelmingly likely: the changed buffer parses as
/// `Invalid(ChecksumMismatch)`.
pub proof fn lemma_payload_corruption_detected(b: Seq<u8>, c: Seq<u8>, k: int)
    requires
        spec_parse(b) is Complete,
        c.len() == b.len(),
        3 <= k < b.len() - 2,
        c[k] != b[k],
        forall|i: int| 0 <= i < c.len() && i != k ==> c[i] == b[i],
        crc16_modbus(c.take(c.len() - 2)) != crc16_modbus(b.take(b.len() - 2)),
    ensures
        spec_parse(c) == SpecParseOutcome::Invalid(InvalidReason::ChecksumMismatch),
{
    assert(c[0] == b[0]);
    assert(c[1] == b[1]);
    assert(c[2] == b[2]);
    assert(c[c.len() - 2] == b[b.len() - 2]);
    assert(c[c.len() - 1] == b[b.len() - 1]);
    let crc_b = crc16_modbus(b.take(b.len() - 2));
    let crc_c = crc16_modbus(c.take(c.len() - 2));
    assert(b[b.len() - 2] == (crc_b % 256) as u8);
    assert(b[b.len() - 1] == (crc_b / 256) as u8);
    if crc_c % 256 == crc_b % 256 && crc_c / 256 == crc_b / 256 {
        vstd::arithmetic::div_mod::lemma_fundamental_div_mod(crc_b as int, 256);
        vstd::arithmetic::div_mod::lemma_fundamental_div_mod(crc_c as int, 256);
        assert(crc_c == crc_b);
    }
}

} // verus!
