use pcap_rs::iter::{Block, PcapIterator};
use pcap_rs::{DecodeError, Endianness, Header, LinkType, Record};

fn pull_all(bytes: &[u8]) -> Vec<Block> {
    let mut reader = PcapIterator::new();
    let mut at = 0;
    let mut blocks = Vec::new();
    while let Some((n, block)) = reader.next(&bytes[at..]) {
        at += n;
        blocks.push(block);
    }
    assert_eq!(reader.next(&bytes[at..]), None);
    blocks
}

const HEADER_BE: &[u8] = b"\xa1\xb2\xc3\xd4\x00\x02\x00\x04\xFF\xFF\xFF\xFF\
                           \x00\x00\x00\x01\x00\x00\x00\x01\x00\x00\x00\x01";

fn header_be() -> Header {
    Header {
        major: 2,
        minor: 4,
        this_zone: -1,
        sigfigs: 1,
        snaplen: 1,
        network: LinkType::ETHERNET,
        nano_sec: false,
        endianness: Endianness::Big,
    }
}

#[test]
fn header_and_one_record() {
    let mut bytes = HEADER_BE.to_vec();
    bytes.extend_from_slice(b"\x00\x00\x00\x01\x00\x00\x00\x02\x00\x00\x00\x03\x00\x00\x00\x03");
    bytes.extend_from_slice(&[10, 11, 12]);
    let expected = vec![
        Block::Header(header_be()),
        Block::Record(Record {
            ts_sec: 1,
            ts_nanosec: 2000,
            orig_len: 3,
            data: vec![10, 11, 12],
        }),
    ];
    assert_eq!(pull_all(&bytes), expected);
    assert_eq!(PcapIterator::new().read_all(&bytes), expected);
}

#[test]
fn pulls_say_how_much_to_discard() {
    let mut bytes = HEADER_BE.to_vec();
    bytes.extend_from_slice(b"\x00\x00\x00\x01\x00\x00\x00\x02\x00\x00\x00\x03\x00\x00\x00\x03");
    bytes.extend_from_slice(&[10, 11, 12]);
    let mut reader = PcapIterator::new();
    let (n, block) = reader.next(&bytes).unwrap();
    assert_eq!(n, 24);
    assert_eq!(block, Block::Header(header_be()));
    let (n, block) = reader.next(&bytes[24..]).unwrap();
    assert_eq!(n, 19);
    assert!(matches!(block, Block::Record(_)));
    assert_eq!(reader.next(&bytes[43..]), None);
}

#[test]
fn unknown_link_type_gives_one_error_block() {
    let mut bytes = HEADER_BE.to_vec();
    bytes[23] = 2;
    bytes.extend_from_slice(b"\x00\x00\x00\x01\x00\x00\x00\x02\x00\x00\x00\x00\x00\x00\x00\x00");
    let expected = vec![Block::Error(DecodeError::UnsupportedLinkType)];
    assert_eq!(pull_all(&bytes), expected);
    assert_eq!(PcapIterator::new().read_all(&bytes), expected);

    let mut reader = PcapIterator::new();
    assert_eq!(
        reader.next(&bytes),
        Some((0, Block::Error(DecodeError::UnsupportedLinkType)))
    );
    assert_eq!(reader.next(&bytes), None);
    assert_eq!(reader.next(HEADER_BE), None);
    assert_eq!(reader.next(&[]), None);
}

#[test]
fn foreign_magic_gives_one_error_block() {
    let bytes = b"\x0a\x0d\x0d\x0a\x00\x00\x00\x1c\x4d\x3c\x2b\x1a";
    let expected = vec![Block::Error(DecodeError::UnrecognizedMagic)];
    assert_eq!(pull_all(&bytes[..]), expected);
    assert_eq!(PcapIterator::new().read_all(&bytes[..]), expected);
}

#[test]
fn header_alone_ends_without_error() {
    let expected = vec![Block::Header(header_be())];
    assert_eq!(pull_all(HEADER_BE), expected);
    assert_eq!(PcapIterator::new().read_all(HEADER_BE), expected);
}

#[test]
fn empty_source_yields_nothing() {
    assert_eq!(pull_all(&[]), vec![]);
    assert_eq!(PcapIterator::new().read_all(&[]), vec![]);
}

#[test]
fn source_cut_inside_header_ends_without_error() {
    for len in [4, 10, 23] {
        assert_eq!(pull_all(&HEADER_BE[..len]), vec![]);
    }
}

#[test]
fn source_cut_inside_record_ends_without_error() {
    let mut bytes = HEADER_BE.to_vec();
    bytes.extend_from_slice(b"\x00\x00\x00\x01\x00\x00\x00\x02\x00\x00\x00\x00\x00\x00\x00\x07");
    bytes.extend_from_slice(b"\x00\x00\x00\x05\x00\x00\x00\x06\x00\x00\x00\x03\x00\x00\x00\x03");
    bytes.extend_from_slice(&[10, 11, 12]);
    let whole_blocks = || {
        vec![
            Block::Header(header_be()),
            Block::Record(Record {
                ts_sec: 1,
                ts_nanosec: 2000,
                orig_len: 7,
                data: vec![],
            }),
        ]
    };
    for cut in 1..=18 {
        let source = &bytes[..bytes.len() - cut];
        assert_eq!(pull_all(source), whole_blocks());
        assert_eq!(PcapIterator::new().read_all(source), whole_blocks());
    }
    assert_eq!(pull_all(&bytes).len(), 3);
}

#[test]
fn reader_waits_for_the_rest_of_a_block() {
    let mut reader = PcapIterator::new();
    assert_eq!(reader.next(&HEADER_BE[..10]), None);
    assert_eq!(reader.next(HEADER_BE), Some((24, Block::Header(header_be()))));
    let record = b"\x00\x00\x00\x01\x00\x00\x00\x02\x00\x00\x00\x02\x00\x00\x00\x02\x0a\x0b";
    assert_eq!(reader.next(&record[..17]), None);
    assert_eq!(
        reader.next(&record[..]),
        Some((
            18,
            Block::Record(Record {
                ts_sec: 1,
                ts_nanosec: 2000,
                orig_len: 2,
                data: vec![10, 11],
            })
        ))
    );
}

#[test]
fn records_follow_the_header_format() {
    let mut bytes = b"\x4d\x3c\xb2\xa1\x02\x00\x04\x00\x00\x00\x00\x00\
                      \x00\x00\x00\x00\xff\xff\x00\x00\x71\x00\x00\x00"
        .to_vec();
    bytes.extend_from_slice(b"\x01\x00\x00\x00\x02\x00\x00\x00\x01\x00\x00\x00\x09\x00\x00\x00\xaa");
    bytes.extend_from_slice(b"\x03\x00\x00\x00\x04\x00\x00\x00\x00\x00\x00\x00\x00\x00\x00\x00");
    let expected = vec![
        Block::Header(Header {
            major: 2,
            minor: 4,
            this_zone: 0,
            sigfigs: 0,
            snaplen: 65535,
            network: LinkType::LINUX_SLL,
            nano_sec: true,
            endianness: Endianness::Little,
        }),
        Block::Record(Record {
            ts_sec: 1,
            ts_nanosec: 2,
            orig_len: 9,
            data: vec![0xaa],
        }),
        Block::Record(Record {
            ts_sec: 3,
            ts_nanosec: 4,
            orig_len: 0,
            data: vec![],
        }),
    ];
    assert_eq!(pull_all(&bytes), expected);
    assert_eq!(PcapIterator::new().read_all(&bytes), expected);
}

#[test]
fn a_second_header_is_read_as_a_record() {
    let mut bytes = HEADER_BE.to_vec();
    bytes.extend_from_slice(HEADER_BE);
    let blocks = pull_all(&bytes);
    assert_eq!(blocks.len(), 1);
    assert_eq!(blocks[0], Block::Header(header_be()));
}

fn sample_capture() -> Vec<u8> {
    let mut bytes = HEADER_BE.to_vec();
    for (sec, data) in [(1u8, &[1u8, 2, 3][..]), (2, &[][..]), (3, &[9; 40][..])] {
        bytes.extend_from_slice(&[0, 0, 0, sec, 0, 0, 0, 7]);
        bytes.extend_from_slice(&(data.len() as u32).to_be_bytes());
        bytes.extend_from_slice(&[0, 0, 1, 0]);
        bytes.extend_from_slice(data);
    }
    bytes
}

#[test]
fn every_block_takes_at_least_sixteen_bytes() {
    let bytes = sample_capture();
    for len in 0..=bytes.len() {
        let blocks = PcapIterator::new().read_all(&bytes[..len]);
        assert!(16 * blocks.len() <= len + 16);
    }
    let whole = PcapIterator::new().read_all(&bytes);
    assert_eq!(whole.len(), 4);
}

#[test]
fn header_first_then_records_however_the_source_buffers() {
    let bytes = sample_capture();
    let whole = PcapIterator::new().read_all(&bytes);
    for window in 1..=bytes.len() {
        let mut reader = PcapIterator::new();
        let mut at = 0;
        let mut blocks = Vec::new();
        loop {
            let end = (at + window).min(bytes.len());
            match reader.next(&bytes[at..end]) {
                Some((n, block)) => {
                    assert!(n <= end - at);
                    at += n;
                    blocks.push(block);
                }
                None => break,
            }
        }
        for (i, block) in blocks.iter().enumerate() {
            assert_eq!(matches!(block, Block::Header(_)), i == 0);
            assert_eq!(matches!(block, Block::Record(_)), i != 0);
            assert_eq!(*block, whole[i]);
        }
        if window >= 56 {
            assert_eq!(blocks.len(), 4);
        }
        if window < 24 {
            assert_eq!(blocks.len(), 0);
        }
    }
}

#[test]
fn error_block_is_the_last_however_the_source_buffers() {
    let mut bytes = sample_capture();
    bytes[20..24].copy_from_slice(&[0, 0, 0, 2]);
    let mut reader = PcapIterator::new();
    assert_eq!(reader.next(&bytes[..23]), None);
    assert_eq!(
        reader.next(&bytes[..24]),
        Some((0, Block::Error(DecodeError::UnsupportedLinkType)))
    );
    for start in [0, 24, 43] {
        assert_eq!(reader.next(&bytes[start..]), None);
    }
    assert_eq!(reader.next(HEADER_BE), None);
}
