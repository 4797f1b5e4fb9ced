//! Validation of Windows registry hive headers.
//!
//! A registry hive file begins with a 512-byte header block. This crate
//! checks that block: the 4-byte `regf` signature, the equality of the
//! primary and secondary sequence numbers, and the XOR checksum over the
//! first 127 little-endian 32-bit words. On success it hands back a [`Hive`]
//! handle that owns the bytes, positioned at offset 0 for a later parsing
//! stage. Opening and reading the file is the caller's business; the
//! validator works on plain bytes.

use vstd::prelude::*;

verus! {

/// Length in bytes of the hive header block.
pub const HEADER_LEN: usize = 512;

/// Length in bytes of the region covered by the checksum.
pub const HEADER_BODY_LEN: usize = 508;

/// Number of 32-bit words folded into the checksum.
pub const HEADER_WORDS: usize = 127;

/// The little-endian 32-bit word stored at byte offset `off`.
pub open spec fn le_word(b: Seq<u8>, off: int) -> u32 {
    (b[off] as u32) | ((b[off + 1] as u32) << 8) | ((b[off + 2] as u32) << 16) | ((b[off
        + 3] as u32) << 24)
}

/// XOR fold of the first `n` little-endian 32-bit words of `b`.
pub open spec fn xor_words(b: Seq<u8>, n: int) -> u32
    decreases n,
{
    if n <= 0 {
        0u32
    } else {
        xor_words(b, n - 1) ^ le_word(b, 4 * (n - 1))
    }
}

/// The first four bytes are the ASCII characters `regf`.
pub open spec fn signature_ok(b: Seq<u8>) -> bool {
    &&& b[0] == 0x72u8
    &&& b[1] == 0x65u8
    &&& b[2] == 0x67u8
    &&& b[3] == 0x66u8
}

/// The primary sequence number (bytes 4..8) equals the secondary one
/// (bytes 8..12), byte for byte.
pub open spec fn sequences_ok(b: Seq<u8>) -> bool {
    &&& b[4] == b[8]
    &&& b[5] == b[9]
    &&& b[6] == b[10]
    &&& b[7] == b[11]
}

/// The stored checksum word at offset 508 equals the XOR fold of the 127
/// words before it.
pub open spec fn checksum_ok(b: Seq<u8>) -> bool {
    le_word(b, 508) == xor_words(b, 127)
}

/// A well-formed hive header: at least 512 bytes, and all three checks pass.
pub open spec fn header_ok(b: Seq<u8>) -> bool {
    &&& b.len() >= 512
    &&& signature_ok(b)
    &&& sequences_ok(b)
    &&& checksum_ok(b)
}

/// Reads the little-endian 32-bit word at byte offset `off`.
fn le_u32_at(bytes: &[u8], off: usize) -> (r: u32)
    requires
        off + 4 <= bytes@.len(),
    ensures
        r == le_word(bytes@, off as int),
{
    let b0: u32 = bytes[off] as u32;
    let b1: u32 = bytes[off + 1] as u32;
    let b2: u32 = bytes[off + 2] as u32;
    let b3: u32 = bytes[off + 3] as u32;
    b0 | (b1 << 8) | (b2 << 16) | (b3 << 24)
}

/// Reports whether the signature bytes match the `regf` magic.
pub fn signature_matches(bytes: &[u8]) -> (r: bool)
    requires
        bytes@.len() >= 4,
    ensures
        r == signature_ok(bytes@),
{
    bytes[0] == 0x72 && bytes[1] == 0x65 && bytes[2] == 0x67 && bytes[3] == 0x66
}

/// Reports whether the primary and secondary sequence numbers agree.
pub fn sequences_match(bytes: &[u8]) -> (r: bool)
    requires
        bytes@.len() >= 12,
    ensures
        r == sequences_ok(bytes@),
{
    bytes[4] == bytes[8] && bytes[5] == bytes[9] && bytes[6] == bytes[10] && bytes[7] == bytes[11]
}

/// Reports whether the stored checksum equals the XOR fold of the header
/// body words.
pub fn checksum_matches(bytes: &[u8]) -> (r: bool)
    requires
        bytes@.len() >= HEADER_LEN,
    ensures
        r == checksum_ok(bytes@),
{
    let stored: u32 = le_u32_at(bytes, HEADER_BODY_LEN);
    let mut acc: u32 = 0;
    let mut k: usize = 0;
    while k < HEADER_WORDS
        invariant
            k <= HEADER_WORDS,
            bytes@.len() >= HEADER_LEN,
            acc == xor_words(bytes@, k as int),
        decreases HEADER_WORDS - k,
    {
        acc = acc ^ le_u32_at(bytes, 4 * k);
        k = k + 1;
    }
    acc == stored
}

/// The rough class of an underlying I/O failure, kept as plain data so the
/// error taxonomy does not depend on any platform error type.
#[derive(Clone, Copy, Debug, PartialEq, Eq, Structural)]
pub enum IoErrorKind {
    /// The path does not name an existing file.
    NotFound,
    /// The file exists but may not be opened or read.
    PermissionDenied,
    /// Fewer bytes were available than the header needs.
    UnexpectedEof,
    /// Any other I/O failure.
    Other,
}

/// Detail of an underlying I/O failure: its kind and a human-readable
/// message.
#[derive(Clone, Debug)]
pub struct IoDetail {
    pub kind: IoErrorKind,
    pub message: String,
}

/// Every way hive validation can fail.
#[derive(Debug)]
pub enum HiveError {
    /// The byte source could not be acquired. Carries the underlying I/O
    /// failure detail.
    CannotOpenHive(IoDetail),
    /// Data could not be read to the length the header needs. Carries the
    /// underlying I/O failure detail.
    CannotReadData(IoDetail),
    /// The hive opened and was readable but failed a structural check.
    InvalidHive,
}

impl HiveError {
    /// The human-readable description of this error.
    pub open spec fn spec_message(&self) -> Seq<char> {
        match self {
            HiveError::CannotOpenHive(d) => d.message@,
            HiveError::CannotReadData(d) => d.message@,
            HiveError::InvalidHive => "Invalid or corrupt hive"@,
        }
    }

    /// Renders this error for a human reader.
    pub fn message(&self) -> (r: String)
        ensures
            r@ == self.spec_message(),
    {
        match self {
            HiveError::CannotOpenHive(d) => d.message.clone(),
            HiveError::CannotReadData(d) => d.message.clone(),
            HiveError::InvalidHive => "Invalid or corrupt hive".to_owned(),
        }
    }
}

/// The error produced when the byte source runs out before a check has the
/// bytes it needs.
pub open spec fn short_read(e: HiveError) -> bool {
    e matches HiveError::CannotReadData(d) && d.kind == IoErrorKind::UnexpectedEof && d.message@
        == "failed to fill whole buffer"@
}

/// Builds the error for a read that came up short.
fn short_read_error() -> (e: HiveError)
    ensures
        short_read(e),
{
    HiveError::CannotReadData(
        IoDetail { kind: IoErrorKind::UnexpectedEof, message: "failed to fill whole buffer".to_owned() },
    )
}

/// Runs the three header checks over a candidate hive's bytes, in order:
/// signature, sequence numbers, checksum. Each check reads only the bytes
/// it needs, so a structural failure is reported as soon as its bytes are
/// in hand — a bad signature is `InvalidHive` even on a 4-byte source —
/// while a source that runs out before the next check is a failed read.
pub fn validate(bytes: &[u8]) -> (r: Result<(), HiveError>)
    ensures
        r is Ok <==> header_ok(bytes@),
        bytes@.len() < 4 ==> (r matches Err(e) && short_read(e)),
        bytes@.len() >= 4 && !signature_ok(bytes@) ==> r matches Err(HiveError::InvalidHive),
        signature_ok(bytes@) && bytes@.len() < 12 ==> (r matches Err(e) && short_read(e)),
        bytes@.len() >= 12 && signature_ok(bytes@) && !sequences_ok(bytes@) ==> r matches Err(
            HiveError::InvalidHive,
        ),
        signature_ok(bytes@) && sequences_ok(bytes@) && bytes@.len() < HEADER_LEN ==> (r matches Err(
            e,
        ) && short_read(e)),
        bytes@.len() >= HEADER_LEN && !header_ok(bytes@) ==> r matches Err(HiveError::InvalidHive),
{
    if bytes.len() < 4 {
        return Err(short_read_error());
    }
    if !signature_matches(bytes) {
        return Err(HiveError::InvalidHive);
    }
    if bytes.len() < 12 {
        return Err(short_read_error());
    }
    if !sequences_match(bytes) {
        return Err(HiveError::InvalidHive);
    }
    if bytes.len() < HEADER_LEN {
        return Err(short_read_error());
    }
    if !checksum_matches(bytes) {
        return Err(HiveError::InvalidHive);
    }
    Ok(())
}

/// A validated hive: ownership of the byte source together with a read
/// position. A value of this type exists only if all three header checks
/// passed, and right after validation the position is offset 0, so a later
/// cell-parsing stage can start from the top of the file.
pub struct Hive {
    data: Vec<u8>,
    pos: usize,
}

impl Hive {
    /// The bytes this handle owns.
    pub closed spec fn spec_bytes(&self) -> Seq<u8> {
        self.data@
    }

    /// The current read position within the bytes.
    pub closed spec fn spec_pos(&self) -> int {
        self.pos as int
    }

    /// A hive handle always holds a well-formed header, and its position
    /// stays inside the bytes.
    pub open spec fn wf(&self) -> bool {
        &&& header_ok(self.spec_bytes())
        &&& 0 <= self.spec_pos() <= self.spec_bytes().len()
    }

    /// Validates a candidate hive's bytes and, if all checks pass,
    /// constructs the `Hive` handle over them.
    ///
    /// The checks run in order, each short-circuiting the rest on failure:
    /// 1. whether the file signature is correct;
    /// 2. whether the primary and secondary sequence numbers are
    ///    synchronized;
    /// 3. whether the header checksum is valid.
    ///
    /// On success the handle's read position is offset 0. On failure the
    /// buffer is dropped. Each check reads only the bytes it needs, so a
    /// check whose bytes are all present fails as `InvalidHive` however
    /// short the rest of the source is; running out of bytes before a
    /// check is a failed read.
    pub fn new(data: Vec<u8>) -> (r: Result<Hive, HiveError>)
        ensures
            r is Ok <==> header_ok(data@),
            r matches Ok(h) ==> h.wf() && h.spec_bytes() == data@ && h.spec_pos() == 0,
            data@.len() < 4 ==> (r matches Err(e) && short_read(e)),
            data@.len() >= 4 && !signature_ok(data@) ==> r matches Err(HiveError::InvalidHive),
            signature_ok(data@) && data@.len() < 12 ==> (r matches Err(e) && short_read(e)),
            data@.len() >= 12 && signature_ok(data@) && !sequences_ok(data@) ==> r matches Err(
                HiveError::InvalidHive,
            ),
            signature_ok(data@) && sequences_ok(data@) && data@.len() < HEADER_LEN ==> (r matches Err(
                e,
            ) && short_read(e)),
            data@.len() >= HEADER_LEN && !header_ok(data@) ==> r matches Err(
                HiveError::InvalidHive,
            ),
    {
        match validate(data.as_slice()) {
            Ok(()) => Ok(Hive { data, pos: 0 }),
            Err(e) => Err(e),
        }
    }

    /// The current read position; 0 on a freshly validated hive.
    pub fn position(&self) -> (r: usize)
        ensures
            r == self.spec_pos(),
    {
        self.pos
    }

    /// How many bytes the handle owns.
    pub fn len(&self) -> (r: usize)
        ensures
            r == self.spec_bytes().len(),
    {
        self.data.len()
    }
}

/// The XOR fold of the first `n` words reads only the bytes below `4 * n`:
/// two sources equal there fold alike.
proof fn lemma_xor_words_prefix(a: Seq<u8>, b: Seq<u8>, n: int)
    requires
        forall|i: int| 0 <= i < 4 * n ==> a[i] == b[i],
    ensures
        xor_words(a, n) == xor_words(b, n),
    decreases n,
{
    if n > 0 {
        lemma_xor_words_prefix(a, b, n - 1);
        assert(le_word(a, 4 * (n - 1)) == le_word(b, 4 * (n - 1)));
    }
}

/// Validation reads nothing but the 512-byte header block: two byte
/// sources that agree on their first 512 bytes validate alike. In
/// particular, validating the same well-formed buffer twice yields the
/// same success outcome both times, since the bytes are not mutated
/// between the calls.
pub proof fn lemma_validation_reads_only_header(a: Seq<u8>, b: Seq<u8>)
    requires
        a.len() >= 512,
        b.len() >= 512,
        a.subrange(0, 512) == b.subrange(0, 512),
    ensures
        header_ok(a) == header_ok(b),
{
    assert forall|i: int| 0 <= i < 512 implies a[i] == b[i] by {
        assert(a.subrange(0, 512)[i] == a[i]);
        assert(b.subrange(0, 512)[i] == b[i]);
    }
    lemma_xor_words_prefix(a, b, 127);
    assert(le_word(a, 508) == le_word(b, 508));
}

} // verus!
