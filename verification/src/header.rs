//! The global header that opens a capture file.

use vstd::prelude::*;
use crate::endian::{i32_at, read_i32, read_u16, read_u32, u16_at, u32_at, Endianness};
use crate::error::DecodeError;
use crate::link_type::{classify, LinkType};

verus! {

/// Number of bytes of a global header.
pub const HEADER_LEN: usize = 24;

/// The decoded global header. `nano_sec` and `endianness` come from the magic
/// number; they govern how every record after the header is read.
#[derive(Debug, PartialEq)]
pub struct Header {
    pub major: u16,
    pub minor: u16,
    pub this_zone: i32,
    pub sigfigs: u32,
    pub snaplen: u32,
    pub network: LinkType,
    pub nano_sec: bool,
    pub endianness: Endianness,
}

/// The four leading bytes of `s`, always read big-endian.
pub open spec fn magic_of(s: Seq<u8>) -> u32
    recommends
        s.len() >= 4,
{
    u32_at(s, 0, Endianness::Big)
}

/// What a magic number announces: the byte order of the file, and whether its
/// timestamps count nanoseconds (`true`) or microseconds (`false`). `None` for
/// a value that is no magic number.
pub open spec fn magic_format(magic: u32) -> Option<(Endianness, bool)> {
    if magic == 0xa1b2_c3d4 {
        Some((Endianness::Big, false))
    } else if magic == 0xd4c3_b2a1 {
        Some((Endianness::Little, false))
    } else if magic == 0xa1b2_3c4d {
        Some((Endianness::Big, true))
    } else if magic == 0x4d3c_b2a1 {
        Some((Endianness::Little, true))
    } else {
        None
    }
}

/// The header that the first 24 bytes of `s` spell out in byte order `e`.
pub open spec fn header_fields(s: Seq<u8>, e: Endianness, nano_sec: bool) -> Header
    recommends
        s.len() >= HEADER_LEN,
{
    Header {
        major: u16_at(s, 4, e),
        minor: u16_at(s, 6, e),
        this_zone: i32_at(s, 8, e),
        sigfigs: u32_at(s, 12, e),
        snaplen: u32_at(s, 16, e),
        network: classify(u32_at(s, 20, e)),
        nano_sec,
        endianness: e,
    }
}

/// Outcome of decoding a global header from the front of `s`: the number of
/// bytes it takes and the header, or the reason there is none.
///
/// The magic number is judged as soon as four bytes are there; the link type
/// only once all 24 are.
pub open spec fn decode_header(s: Seq<u8>) -> Result<(nat, Header), DecodeError> {
    if s.len() < 4 {
        Err(DecodeError::Incomplete)
    } else {
        match magic_format(magic_of(s)) {
            None => Err(DecodeError::UnrecognizedMagic),
            Some((e, nano_sec)) => {
                if s.len() < HEADER_LEN {
                    Err(DecodeError::Incomplete)
                } else if classify(u32_at(s, 20, e)) == LinkType::UNKNOWN {
                    Err(DecodeError::UnsupportedLinkType)
                } else {
                    Ok((HEADER_LEN as nat, header_fields(s, e, nano_sec)))
                }
            },
        }
    }
}

/// Byte order and timestamp unit for a magic number, if it is one.
fn format_of_magic(magic: u32) -> (r: Option<(Endianness, bool)>)
    ensures
        r == magic_format(magic),
{
    if magic == 0xa1b2_c3d4 {
        Some((Endianness::Big, false))
    } else if magic == 0xd4c3_b2a1 {
        Some((Endianness::Little, false))
    } else if magic == 0xa1b2_3c4d {
        Some((Endianness::Big, true))
    } else if magic == 0x4d3c_b2a1 {
        Some((Endianness::Little, true))
    } else {
        None
    }
}

/// Decodes the global header at the front of `bytes`.
///
/// On success returns the number of bytes the header takes, which is always
/// 24, and the header. Bytes after the header are not looked at.
pub fn parse_header(bytes: &[u8]) -> (r: Result<(usize, Header), DecodeError>)
    ensures
        r matches Ok((n, h)) ==> decode_header(bytes@) == Ok::<(nat, Header), DecodeError>(
            (n as nat, h),
        ),
        r matches Err(kind) ==> decode_header(bytes@) == Err::<(nat, Header), DecodeError>(kind),
{
    if bytes.len() < 4 {
        return Err(DecodeError::Incomplete);
    }
    let magic: u32 = read_u32(bytes, 0, Endianness::Big);
    let (e, nano_sec) = match format_of_magic(magic) {
        Some(format) => format,
        None => {
            return Err(DecodeError::UnrecognizedMagic);
        },
    };
    if bytes.len() < HEADER_LEN {
        return Err(DecodeError::Incomplete);
    }
    let network = LinkType::from(read_u32(bytes, 20, e));
    if network == LinkType::UNKNOWN {
        return Err(DecodeError::UnsupportedLinkType);
    }
    let header = Header {
        major: read_u16(bytes, 4, e),
        minor: read_u16(bytes, 6, e),
        this_zone: read_i32(bytes, 8, e),
        sigfigs: read_u32(bytes, 12, e),
        snaplen: read_u32(bytes, 16, e),
        network,
        nano_sec,
        endianness: e,
    };
    Ok((HEADER_LEN, header))
}

/// The four outcomes of decoding a header, each with the inputs on which it
/// comes.
pub proof fn lemma_header_outcomes(s: Seq<u8>)
    ensures
        decode_header(s) is Ok <==> s.len() >= HEADER_LEN && magic_format(magic_of(s)) is Some
            && classify(u32_at(s, 20, magic_format(magic_of(s))->Some_0.0)) != LinkType::UNKNOWN,
        decode_header(s) == Err::<(nat, Header), DecodeError>(DecodeError::Incomplete) <==> s.len()
            < 4 || (s.len() < HEADER_LEN && magic_format(magic_of(s)) is Some),
        decode_header(s) == Err::<(nat, Header), DecodeError>(DecodeError::UnrecognizedMagic)
            <==> s.len() >= 4 && magic_format(magic_of(s)) is None,
        decode_header(s) == Err::<(nat, Header), DecodeError>(DecodeError::UnsupportedLinkType)
            <==> s.len() >= HEADER_LEN && magic_format(magic_of(s)) is Some && classify(
            u32_at(s, 20, magic_format(magic_of(s))->Some_0.0),
        ) == LinkType::UNKNOWN,
        decode_header(s) matches Ok((n, h)) ==> n == HEADER_LEN && h.network != LinkType::UNKNOWN
            && magic_format(magic_of(s)) == Some((h.endianness, h.nano_sec)) && h == header_fields(
            s,
            h.endianness,
            h.nano_sec,
        ),
{
}

/// What the four magic numbers have in common: read in the byte order that
/// it announces, a magic number is `0xa1b2c3d4` in a file that counts
/// microseconds and `0xa1b23c4d` in one that counts nanoseconds.
pub proof fn lemma_magic_in_file_order(s: Seq<u8>, e: Endianness, nano_sec: bool)
    requires
        s.len() >= 4,
        magic_format(magic_of(s)) == Some((e, nano_sec)),
    ensures
        u32_at(s, 0, e) == (if nano_sec {
            0xa1b2_3c4du32
        } else {
            0xa1b2_c3d4u32
        }),
{
}

/// Each of the four magic numbers fixes its own byte order and timestamp unit,
/// and a header that opens with one of them and names a known link type
/// decodes, with that byte order and unit, from exactly 24 bytes.
pub proof fn lemma_magic_fixes_format(s: Seq<u8>, e: Endianness, nano_sec: bool)
    requires
        s.len() >= HEADER_LEN,
        magic_format(magic_of(s)) == Some((e, nano_sec)),
        classify(u32_at(s, 20, e)) != LinkType::UNKNOWN,
    ensures
        magic_format(0xa1b2_c3d4) == Some((Endianness::Big, false)),
        magic_format(0xd4c3_b2a1) == Some((Endianness::Little, false)),
        magic_format(0xa1b2_3c4d) == Some((Endianness::Big, true)),
        magic_format(0x4d3c_b2a1) == Some((Endianness::Little, true)),
        decode_header(s) is Ok,
        decode_header(s)->Ok_0.0 == HEADER_LEN,
        decode_header(s)->Ok_0.1.endianness == e,
        decode_header(s)->Ok_0.1.nano_sec == nano_sec,
{
}

/// A complete header whose link-type code names no known link type is
/// rejected, whatever else it holds.
pub proof fn lemma_unknown_link_type_rejected(s: Seq<u8>, e: Endianness, nano_sec: bool)
    requires
        s.len() >= HEADER_LEN,
        magic_format(magic_of(s)) == Some((e, nano_sec)),
        classify(u32_at(s, 20, e)) == LinkType::UNKNOWN,
    ensures
        decode_header(s) == Err::<(nat, Header), DecodeError>(DecodeError::UnsupportedLinkType),
{
}

} // verus!
