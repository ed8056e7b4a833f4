//! Decoding of the kernel's variable-length directory records.
//!
//! A batch-read call fills the buffer with consecutive records. Each record
//! starts with a fixed header — an 8-byte identity number, an 8-byte seek
//! cookie, a 2-byte total record length and a 1-byte type tag, all
//! little-endian — followed by a null-terminated name. The record length
//! counts the whole record, header included; the name field may be padded
//! past its terminator, so the name's length comes from scanning for the
//! terminator, never from the length field.
//!
//! Nothing from the kernel is trusted blindly: [`decode_record`] checks
//! every length against the buffer bounds and reports a malformed record
//! instead of reading past them.

use vstd::prelude::*;

verus! {

/// Bytes of a record before its name field: identity (8), seek cookie (8),
/// record length (2) and type tag (1).
pub const HEADER_LEN: usize = 19;

/// The least length a record can have: the header and at least the name's
/// null terminator.
pub const MIN_RECLEN: usize = 20;

/// Offset of the 2-byte record length inside a record.
pub const RECLEN_OFF: usize = 16;

/// The value of two little-endian bytes at `off`.
pub open spec fn le_u16(data: Seq<u8>, off: int) -> nat {
    data[off] as nat + 0x100 * (data[off + 1] as nat)
}

/// The value of eight little-endian bytes at `off`.
pub open spec fn le_u64(data: Seq<u8>, off: int) -> nat {
    data[off] as nat + 0x100 * (data[off + 1] as nat) + 0x1_0000 * (data[off + 2] as nat) + 0x100_0000
        * (data[off + 3] as nat) + 0x1_0000_0000 * (data[off + 4] as nat) + 0x100_0000_0000 * (
    data[off + 5] as nat) + 0x1_0000_0000_0000 * (data[off + 6] as nat) + 0x100_0000_0000_0000 * (
    data[off + 7] as nat)
}

/// The first position in `[start, end)` holding a zero byte, or `end` if
/// there is none.
pub open spec fn nul_pos(data: Seq<u8>, start: int, end: int) -> int
    decreases end - start,
{
    if start >= end {
        end
    } else if data[start] == 0 {
        start
    } else {
        nul_pos(data, start + 1, end)
    }
}

/// Total length in bytes of the record at `off`.
pub open spec fn rec_len(data: Seq<u8>, off: int) -> nat {
    le_u16(data, off + RECLEN_OFF as int)
}

/// Identity number of the record at `off`.
pub open spec fn rec_ino(data: Seq<u8>, off: int) -> nat {
    le_u64(data, off)
}

/// Position just past the name of the record at `off`: its null
/// terminator, or the record's end if the terminator is missing.
pub open spec fn rec_name_end(data: Seq<u8>, off: int) -> int {
    nul_pos(data, off + HEADER_LEN as int, off + rec_len(data, off) as int)
}

/// The record at `off` is well formed: it fits in the valid data, is at
/// least one header plus a terminator long, and its name field holds a
/// null terminator.
pub open spec fn rec_wf(data: Seq<u8>, off: int) -> bool {
    &&& 0 <= off
    &&& rec_len(data, off) >= MIN_RECLEN
    &&& off + rec_len(data, off) <= data.len()
    &&& rec_name_end(data, off) < off + rec_len(data, off)
}

/// Name bytes of the record at `off`: everything between the header and
/// the first null terminator.
pub open spec fn rec_name(data: Seq<u8>, off: int) -> Seq<u8> {
    data.subrange(off + HEADER_LEN as int, rec_name_end(data, off))
}

/// Header fields of one decoded record.
pub struct RawRecord {
    /// Identity number of the object the record refers to.
    pub ino: u64,
    /// Total length of the record, header and padding included.
    pub reclen: usize,
    /// Length of the name, up to but not including its null terminator.
    pub name_len: usize,
}

/// Read two little-endian bytes at `off`.
fn read_le_u16(data: &Vec<u8>, off: usize) -> (r: u16)
    requires
        off + 2 <= data@.len(),
    ensures
        r as nat == le_u16(data@, off as int),
{
    proof {
        assert(data.len() == data@.len());
    }
    data[off] as u16 + (data[off + 1] as u16) * 0x100
}

/// Read eight little-endian bytes at `off`.
fn read_le_u64(data: &Vec<u8>, off: usize) -> (r: u64)
    requires
        off + 8 <= data@.len(),
    ensures
        r as nat == le_u64(data@, off as int),
{
    proof {
        assert(data.len() == data@.len());
    }
    data[off] as u64 + (data[off + 1] as u64) * 0x100 + (data[off + 2] as u64) * 0x1_0000 + (data[off
        + 3] as u64) * 0x100_0000 + (data[off + 4] as u64) * 0x1_0000_0000 + (data[off + 5] as u64)
        * 0x100_0000_0000 + (data[off + 6] as u64) * 0x1_0000_0000_0000 + (data[off + 7] as u64)
        * 0x100_0000_0000_0000
}

/// Find the first zero byte in `data[start..end]`, returning `end` when
/// there is none.
fn find_nul(data: &Vec<u8>, start: usize, end: usize) -> (r: usize)
    requires
        start <= end <= data@.len(),
    ensures
        r as int == nul_pos(data@, start as int, end as int),
        start <= r <= end,
{
    let mut i = start;
    while i < end
        invariant
            start <= i <= end <= data@.len(),
            nul_pos(data@, start as int, end as int) == nul_pos(data@, i as int, end as int),
        decreases end - i,
    {
        if data[i] == 0 {
            return i;
        }
        i = i + 1;
    }
    i
}

/// Decode the record at `off`, validating every length against the valid
/// data before trusting it. Returns `None` exactly when the record is
/// malformed: shorter than a header and terminator, running past the valid
/// data, or missing the name's null terminator.
pub fn decode_record(data: &Vec<u8>, off: usize) -> (r: Option<RawRecord>)
    requires
        off <= data@.len(),
    ensures
        match r {
            Some(rec) => {
                &&& rec_wf(data@, off as int)
                &&& rec.ino as nat == rec_ino(data@, off as int)
                &&& rec.reclen as nat == rec_len(data@, off as int)
                &&& off + HEADER_LEN + rec.name_len == rec_name_end(data@, off as int)
                &&& MIN_RECLEN <= rec.reclen
                &&& off + rec.reclen <= data@.len()
            },
            None => !rec_wf(data@, off as int),
        },
{
    if data.len() - off < MIN_RECLEN {
        return None;
    }
    let reclen = read_le_u16(data, off + RECLEN_OFF) as usize;
    if reclen < MIN_RECLEN || reclen > data.len() - off {
        return None;
    }
    let ino = read_le_u64(data, off);
    let name_end = find_nul(data, off + HEADER_LEN, off + reclen);
    if name_end == off + reclen {
        return None;
    }
    Some(RawRecord { ino, reclen, name_len: name_end - (off + HEADER_LEN) })
}

} // verus!
