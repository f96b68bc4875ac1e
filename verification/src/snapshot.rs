//! Snapshots of a guest and their byte framing: the encoded snapshot is
//! LZ4-compressed with its length prepended, and a module is known by the
//! SHA-256 digest of its bytes.
use sha2::Digest;
use vstd::prelude::*;

use crate::host::Signal;
use crate::runtime::GlobalValue;

verus! {

/// Everything needed to put a guest back where it was.
#[derive(Debug)]
pub struct Snapshot {
    pub module_hash: [u8; 32],
    pub memory: Vec<u8>,
    pub memory_size_pages: u32,
    pub globals: Vec<GlobalValue>,
    pub tables: Vec<TableSnapshot>,
    pub resume_fuel: u64,
    pub pending_signals: Vec<Signal>,
    pub reg_snapshot: Option<RegSnapshotOc>,
    pub resume_pc_offset: Option<u64>,
}

/// The elements of one table: function indices, where known.
#[derive(Debug)]
pub struct TableSnapshot {
    pub elements: Vec<Option<u32>>,
}

/// The interpreter's registers and stack, as a snapshot keeps them.
#[derive(Clone, Debug)]
pub struct RegSnapshotOc {
    pub x_regs: Vec<u64>,
    pub f_regs: Vec<u64>,
    pub fp_offset: isize,
    pub lr_offset: isize,
    pub stack_used_bytes: usize,
    pub stack_data: Vec<u8>,
}

/// Why framed snapshot bytes could not be opened.
#[derive(Debug)]
pub enum SnapshotError {
    /// The LZ4 frame is damaged; the decompressor's message.
    Decompress(String),
}

/// The SHA-256 digest of a byte sequence.
pub uninterp spec fn sha256(data: Seq<u8>) -> Seq<u8>;

/// What `lz4_flex::compress_prepend_size` makes of a byte sequence.
pub uninterp spec fn lz4_compress_prepend_size(input: Seq<u8>) -> Seq<u8>;

/// What `lz4_flex::decompress_size_prepended` makes of a byte sequence;
/// `None` where it fails.
pub uninterp spec fn lz4_decompress_size_prepended(input: Seq<u8>) -> Option<Seq<u8>>;

/// The four little-endian bytes of a `u32`.
pub open spec fn u32_le_bytes(n: u32) -> Seq<u8> {
    seq![
        (n % 0x100) as u8,
        ((n / 0x100) % 0x100) as u8,
        ((n / 0x1_0000) % 0x100) as u8,
        ((n / 0x100_0000) % 0x100) as u8,
    ]
}

/// The snapshot encoding that framed bytes hold, or `None` where they do not
/// open.
pub open spec fn opened_frame(framed: Seq<u8>) -> Option<Seq<u8>> {
    lz4_decompress_size_prepended(framed)
}

/// `Sha256::digest`: the SHA-256 digest of `data`.
#[verifier::external_body]
fn sha256_digest(data: &[u8]) -> (digest: [u8; 32])
    ensures
        digest@ == sha256(data@),
{
    sha2::Sha256::digest(data).into()
}

/// `lz4_flex::compress_prepend_size`: the LZ4 block of `input` behind its
/// length, cut to a little-endian `u32`; where the length fits,
/// decompressing the result gives `input` back.
#[verifier::external_body]
fn lz4_compress(input: &[u8]) -> (out: Vec<u8>)
    requires
        input@.len() * 110 <= usize::MAX,
    ensures
        out@ == lz4_compress_prepend_size(input@),
        out@.len() >= 4,
        out@.subrange(0, 4) == u32_le_bytes(#[verifier::truncate] (input@.len() as u32)),
        input@.len() <= u32::MAX ==> lz4_decompress_size_prepended(out@) == Some(input@),
{
    lz4_flex::compress_prepend_size(input)
}

/// `lz4_flex::decompress_size_prepended`, its error taken by its message;
/// fails on fewer than four bytes.
#[verifier::external_body]
fn lz4_decompress(input: &[u8]) -> (out: Result<Vec<u8>, String>)
    ensures
        out is Ok <==> lz4_decompress_size_prepended(input@) is Some,
        out matches Ok(v) ==> lz4_decompress_size_prepended(input@) == Some(v@),
        input@.len() < 4 ==> out is Err,
{
    lz4_flex::decompress_size_prepended(input).map_err(|e| e.to_string())
}

/// The identity of a module: the SHA-256 digest of its bytes.
pub fn module_hash(wasm_bytes: &[u8]) -> (hash: [u8; 32])
    ensures
        hash@ == sha256(wasm_bytes@),
{
    sha256_digest(wasm_bytes)
}

/// Frames an encoded snapshot for storage: LZ4-compressed, behind its length
/// cut to a little-endian `u32`. Where the length fits in a `u32`, opening
/// the frame gives the encoding back.
pub fn compress_snapshot(encoded: &[u8]) -> (framed: Vec<u8>)
    requires
        encoded@.len() * 110 <= usize::MAX,
    ensures
        framed@ == lz4_compress_prepend_size(encoded@),
        framed@.len() >= 4,
        framed@.subrange(0, 4) == u32_le_bytes(#[verifier::truncate] (encoded@.len() as u32)),
        encoded@.len() <= u32::MAX ==> opened_frame(framed@) == Some(encoded@),
{
    lz4_compress(encoded)
}

/// Opens framed snapshot bytes, giving back the encoded snapshot.
pub fn decompress_snapshot(framed: &[u8]) -> (r: Result<Vec<u8>, SnapshotError>)
    ensures
        r is Ok <==> opened_frame(framed@) is Some,
        r matches Ok(encoded) ==> opened_frame(framed@) == Some(encoded@),
        framed@.len() < 4 ==> r is Err,
{
    match lz4_decompress(framed) {
        Ok(encoded) => Ok(encoded),
        Err(message) => Err(SnapshotError::Decompress(message)),
    }
}

} // verus!
