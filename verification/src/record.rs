//! One captured packet: a 16-byte prefix and the bytes that were kept of it.

use vstd::prelude::*;
use vstd::slice::{slice_subrange, slice_to_vec};
use crate::endian::{read_u32, u32_at, Endianness};
use crate::error::DecodeError;

verus! {

/// Number of bytes of the fixed prefix of a record.
pub const RECORD_PREFIX_LEN: usize = 16;

/// A decoded packet record. `data` holds the bytes that the file kept, which
/// may be fewer than the `orig_len` bytes the packet had on the wire.
#[derive(Debug, PartialEq)]
pub struct Record {
    pub ts_sec: u32,
    /// Sub-second part of the timestamp, in nanoseconds whatever unit the file uses.
    pub ts_nanosec: u32,
    pub orig_len: u32,
    pub data: Vec<u8>,
}

/// A record as a mathematical value.
pub struct RecordView {
    pub ts_sec: u32,
    pub ts_nanosec: u32,
    pub orig_len: u32,
    pub data: Seq<u8>,
}

impl View for Record {
    type V = RecordView;

    open spec fn view(&self) -> RecordView {
        RecordView {
            ts_sec: self.ts_sec,
            ts_nanosec: self.ts_nanosec,
            orig_len: self.orig_len,
            data: self.data@,
        }
    }
}

/// The sub-second field of a record in nanoseconds. A file that counts
/// microseconds has its value multiplied by 1000; a product too large for 32
/// bits keeps its low 32 bits.
pub open spec fn subsec_nanos(subsec: u32, nano_sec: bool) -> u32 {
    if nano_sec {
        subsec
    } else {
        ((subsec * 1000) % 0x1_0000_0000) as u32
    }
}

/// Outcome of decoding one record from the front of `s`, given the byte order
/// and timestamp unit that the header fixed: the number of bytes the record
/// takes and the record, or `Incomplete` where `s` ends before the record does.
pub open spec fn decode_record(s: Seq<u8>, e: Endianness, nano_sec: bool) -> Result<
    (nat, RecordView),
    DecodeError,
> {
    if s.len() < RECORD_PREFIX_LEN {
        Err(DecodeError::Incomplete)
    } else {
        let incl_len = u32_at(s, 8, e);
        if s.len() - RECORD_PREFIX_LEN < incl_len {
            Err(DecodeError::Incomplete)
        } else {
            Ok(
                (
                    (RECORD_PREFIX_LEN + incl_len) as nat,
                    RecordView {
                        ts_sec: u32_at(s, 0, e),
                        ts_nanosec: subsec_nanos(u32_at(s, 4, e), nano_sec),
                        orig_len: u32_at(s, 12, e),
                        data: s.subrange(
                            RECORD_PREFIX_LEN as int,
                            RECORD_PREFIX_LEN + incl_len,
                        ),
                    },
                ),
            )
        }
    }
}

/// Brings a sub-second field to nanoseconds.
fn to_nanos(subsec: u32, nano_sec: bool) -> (r: u32)
    ensures
        r == subsec_nanos(subsec, nano_sec),
{
    if nano_sec {
        subsec
    } else {
        subsec.wrapping_mul(1000)
    }
}

/// Decodes the record at the front of `bytes`, reading its fields in byte
/// order `e` and its sub-second field as nanoseconds if `nano_sec`, else as
/// microseconds.
///
/// On success returns the number of bytes the record takes, 16 plus the
/// length of its data, and the record. A record that kept fewer bytes than
/// the packet had is decoded like any other. A count of microseconds is
/// multiplied by 1000, and a product beyond 32 bits keeps its low 32 bits.
/// Bytes after the record are not looked at.
pub fn parse_record(bytes: &[u8], e: Endianness, nano_sec: bool) -> (r: Result<
    (usize, Record),
    DecodeError,
>)
    ensures
        r matches Ok((n, rec)) ==> decode_record(bytes@, e, nano_sec) == Ok::<
            (nat, RecordView),
            DecodeError,
        >((n as nat, rec@)),
        r matches Err(kind) ==> decode_record(bytes@, e, nano_sec) == Err::<
            (nat, RecordView),
            DecodeError,
        >(kind),
{
    if bytes.len() < RECORD_PREFIX_LEN {
        return Err(DecodeError::Incomplete);
    }
    let incl_len: u32 = read_u32(bytes, 8, e);
    if ((bytes.len() - RECORD_PREFIX_LEN) as u64) < incl_len as u64 {
        return Err(DecodeError::Incomplete);
    }
    let end: usize = RECORD_PREFIX_LEN + incl_len as usize;
    let record = Record {
        ts_sec: read_u32(bytes, 0, e),
        ts_nanosec: to_nanos(read_u32(bytes, 4, e), nano_sec),
        orig_len: read_u32(bytes, 12, e),
        data: slice_to_vec(slice_subrange(bytes, RECORD_PREFIX_LEN, end)),
    };
    Ok((end, record))
}

/// Under microsecond precision a sub-second value comes out multiplied by
/// 1000, as long as the product fits in 32 bits; under nanosecond precision it
/// comes out unchanged.
pub proof fn lemma_subsec_nanos(subsec: u32)
    ensures
        subsec_nanos(subsec, true) == subsec,
        subsec * 1000 <= u32::MAX ==> subsec_nanos(subsec, false) == subsec * 1000,
{
}

/// A record is read in full as soon as the bytes it says it kept are there:
/// the data has exactly the included length, and the length that the packet
/// had on the wire plays no part, so a packet that was cut short when it was
/// captured decodes like a whole one.
pub proof fn lemma_record_keeps_included_bytes(s: Seq<u8>, e: Endianness, nano_sec: bool)
    requires
        s.len() >= RECORD_PREFIX_LEN,
        s.len() - RECORD_PREFIX_LEN >= u32_at(s, 8, e),
    ensures
        decode_record(s, e, nano_sec) is Ok,
        decode_record(s, e, nano_sec)->Ok_0.0 == RECORD_PREFIX_LEN + u32_at(s, 8, e),
        decode_record(s, e, nano_sec)->Ok_0.1.data.len() == u32_at(s, 8, e),
        decode_record(s, e, nano_sec)->Ok_0.1.data =~= s.subrange(
            RECORD_PREFIX_LEN as int,
            RECORD_PREFIX_LEN + u32_at(s, 8, e),
        ),
        decode_record(s, e, nano_sec)->Ok_0.1.orig_len == u32_at(s, 12, e),
{
}

/// Decoding a record fails only for want of bytes: exactly when fewer than 16
/// are there, or fewer after them than the included length.
pub proof fn lemma_record_fails_only_incomplete(s: Seq<u8>, e: Endianness, nano_sec: bool)
    ensures
        decode_record(s, e, nano_sec) is Err ==> decode_record(s, e, nano_sec)
            == Err::<(nat, RecordView), DecodeError>(DecodeError::Incomplete),
        decode_record(s, e, nano_sec) is Err <==> s.len() < RECORD_PREFIX_LEN || s.len()
            - RECORD_PREFIX_LEN < u32_at(s, 8, e),
{
}

} // verus!
