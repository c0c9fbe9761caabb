use pcap_rs::{parse_header, DecodeError, Endianness, Header, LinkType};

#[test]
fn parse_header_be_usec() {
    let i = b"\xa1\xb2\xc3\xd4\x00\x02\x00\x04\xFF\xFF\xFF\xFF\
              \x00\x00\x00\x01\x00\x00\x00\x01\x00\x00\x00\x01\x0a";
    let h = Header {
        major: 2,
        minor: 4,
        this_zone: -1,
        sigfigs: 1,
        snaplen: 1,
        network: LinkType::ETHERNET,
        nano_sec: false,
        endianness: Endianness::Big,
    };
    assert_eq!(
        parse_header(&i[..]).map(|(n, h)| (&i[n..], h)),
        Ok((&[10][..], h))
    );
}

#[test]
fn parse_header_le_usec() {
    let i = b"\xd4\xc3\xb2\xa1\x02\x00\x04\x00\xFF\xFF\xFF\xFF\
              \x01\x00\x00\x00\x01\x00\x00\x00\x01\x00\x00\x00\x0a";
    let h = Header {
        major: 2,
        minor: 4,
        this_zone: -1,
        sigfigs: 1,
        snaplen: 1,
        network: LinkType::ETHERNET,
        nano_sec: false,
        endianness: Endianness::Little,
    };
    assert_eq!(
        parse_header(&i[..]).map(|(n, h)| (&i[n..], h)),
        Ok((&[10][..], h))
    );
}

#[test]
fn parse_header_be_nsec() {
    let i = b"\xa1\xb2\x3c\x4d\x00\x02\x00\x04\xFF\xFF\xFF\xFF\
              \x00\x00\x00\x01\x00\x00\x00\x01\x00\x00\x00\x01\x0a";
    let h = Header {
        major: 2,
        minor: 4,
        this_zone: -1,
        sigfigs: 1,
        snaplen: 1,
        network: LinkType::ETHERNET,
        nano_sec: true,
        endianness: Endianness::Big,
    };
    assert_eq!(
        parse_header(&i[..]).map(|(n, h)| (&i[n..], h)),
        Ok((&[10][..], h))
    );
}

#[test]
fn parse_header_le_nsec() {
    let i = b"\x4d\x3c\xb2\xa1\x02\x00\x04\x00\xFF\xFF\xFF\xFF\
              \x01\x00\x00\x00\x01\x00\x00\x00\x01\x00\x00\x00\x0a";
    let h = Header {
        major: 2,
        minor: 4,
        this_zone: -1,
        sigfigs: 1,
        snaplen: 1,
        network: LinkType::ETHERNET,
        nano_sec: true,
        endianness: Endianness::Little,
    };
    assert_eq!(
        parse_header(&i[..]).map(|(n, h)| (&i[n..], h)),
        Ok((&[10][..], h))
    );
}

#[test]
fn header_takes_exactly_24_bytes_for_each_magic() {
    let magics: [([u8; 4], Endianness, bool); 4] = [
        ([0xa1, 0xb2, 0xc3, 0xd4], Endianness::Big, false),
        ([0xd4, 0xc3, 0xb2, 0xa1], Endianness::Little, false),
        ([0xa1, 0xb2, 0x3c, 0x4d], Endianness::Big, true),
        ([0x4d, 0x3c, 0xb2, 0xa1], Endianness::Little, true),
    ];
    for (magic, endianness, nano_sec) in magics {
        let mut bytes = magic.to_vec();
        bytes.extend_from_slice(&[0u8; 16]);
        match endianness {
            Endianness::Big => bytes.extend_from_slice(&[0, 0, 0, 101]),
            Endianness::Little => bytes.extend_from_slice(&[101, 0, 0, 0]),
        }
        bytes.extend_from_slice(&[0xde, 0xad, 0xbe, 0xef]);
        let (n, h) = parse_header(&bytes).unwrap();
        assert_eq!(n, 24);
        assert_eq!(h.endianness, endianness);
        assert_eq!(h.nano_sec, nano_sec);
        assert_eq!(h.network, LinkType::RAW);
    }
}

#[test]
fn header_fields_keep_their_byte_order() {
    let be = [
        0xa1, 0xb2, 0xc3, 0xd4, 0x01, 0x02, 0x03, 0x04, 0x80, 0x00, 0x00, 0x00, 0x0a, 0x0b, 0x0c,
        0x0d, 0xff, 0xfe, 0xfd, 0xfc, 0x00, 0x00, 0x01, 0x0c,
    ];
    let h = Header {
        major: 0x0102,
        minor: 0x0304,
        this_zone: i32::MIN,
        sigfigs: 0x0a0b_0c0d,
        snaplen: 0xfffe_fdfc,
        network: LinkType::SDLC,
        nano_sec: false,
        endianness: Endianness::Big,
    };
    assert_eq!(parse_header(&be), Ok((24, h)));

    let le = [
        0xd4, 0xc3, 0xb2, 0xa1, 0x01, 0x02, 0x03, 0x04, 0xff, 0xff, 0xff, 0x7f, 0x0a, 0x0b, 0x0c,
        0x0d, 0xff, 0xfe, 0xfd, 0xfc, 0x0c, 0x01, 0x00, 0x00,
    ];
    let h = Header {
        major: 0x0201,
        minor: 0x0403,
        this_zone: i32::MAX,
        sigfigs: 0x0d0c_0b0a,
        snaplen: 0xfcfd_feff,
        network: LinkType::SDLC,
        nano_sec: false,
        endianness: Endianness::Little,
    };
    assert_eq!(parse_header(&le), Ok((24, h)));
}

#[test]
fn header_signed_zone_values() {
    let mut bytes = vec![0xa1, 0xb2, 0xc3, 0xd4, 0, 2, 0, 4];
    bytes.extend_from_slice(&[0xff, 0xff, 0xfe, 0x0c]);
    bytes.extend_from_slice(&[0, 0, 0, 0, 0, 0, 0xff, 0xff, 0, 0, 0, 1]);
    let (_, h) = parse_header(&bytes).unwrap();
    assert_eq!(h.this_zone, -500);
    assert_eq!(h.snaplen, 65535);

    bytes[8..12].copy_from_slice(&[0, 0, 0x0e, 0x10]);
    let (_, h) = parse_header(&bytes).unwrap();
    assert_eq!(h.this_zone, 3600);
}

#[test]
fn header_too_short_is_incomplete() {
    let full = b"\xa1\xb2\xc3\xd4\x00\x02\x00\x04\xFF\xFF\xFF\xFF\
                 \x00\x00\x00\x01\x00\x00\x00\x01\x00\x00\x00\x01";
    for len in 0..24 {
        assert_eq!(parse_header(&full[..len]), Err(DecodeError::Incomplete));
    }
    assert!(parse_header(&full[..]).is_ok());
}

#[test]
fn header_with_foreign_magic_is_rejected() {
    let i = b"\xa1\xb2\xc3\xd5\x00\x02\x00\x04\xFF\xFF\xFF\xFF\
              \x00\x00\x00\x01\x00\x00\x00\x01\x00\x00\x00\x01";
    assert_eq!(parse_header(&i[..]), Err(DecodeError::UnrecognizedMagic));
    assert_eq!(parse_header(&i[..4]), Err(DecodeError::UnrecognizedMagic));
    assert_eq!(parse_header(&i[..3]), Err(DecodeError::Incomplete));
    assert_eq!(
        parse_header(&[0x0a, 0x0d, 0x0d, 0x0a, 0, 0, 0, 0]),
        Err(DecodeError::UnrecognizedMagic)
    );
}

#[test]
fn header_with_unknown_link_type_is_rejected() {
    let be = b"\xa1\xb2\xc3\xd4\x00\x02\x00\x04\x00\x00\x00\x00\
               \x00\x00\x00\x00\x00\x00\xff\xff\x00\x00\x00\x02";
    assert_eq!(parse_header(&be[..]), Err(DecodeError::UnsupportedLinkType));
    let le = b"\x4d\x3c\xb2\xa1\x02\x00\x04\x00\x00\x00\x00\x00\
               \x00\x00\x00\x00\xff\xff\x00\x00\x00\x00\x00\x01";
    assert_eq!(parse_header(&le[..]), Err(DecodeError::UnsupportedLinkType));
    assert_eq!(parse_header(&le[..23]), Err(DecodeError::Incomplete));
}

#[test]
fn link_type_registry() {
    assert_eq!(LinkType::from(0), LinkType::NULL);
    assert_eq!(LinkType::from(1), LinkType::ETHERNET);
    assert_eq!(LinkType::from(2), LinkType::UNKNOWN);
    assert_eq!(LinkType::from(3), LinkType::AX25);
    assert_eq!(LinkType::from(101), LinkType::RAW);
    assert_eq!(LinkType::from(105), LinkType::IEEE802_11);
    assert_eq!(LinkType::from(113), LinkType::LINUX_SLL);
    assert_eq!(LinkType::from(127), LinkType::IEEE802_11_RADIOTAP);
    assert_eq!(LinkType::from(147), LinkType::USER0);
    assert_eq!(LinkType::from(162), LinkType::USER15);
    assert_eq!(LinkType::from(228), LinkType::IPV4);
    assert_eq!(LinkType::from(229), LinkType::IPV6);
    assert_eq!(LinkType::from(267), LinkType::UNKNOWN);
    assert_eq!(LinkType::from(268), LinkType::SDLC);
    assert_eq!(LinkType::from(269), LinkType::UNKNOWN);
    assert_eq!(LinkType::from(u32::MAX), LinkType::UNKNOWN);
}

#[test]
fn link_type_codes_name_distinct_types() {
    let known: Vec<(u32, LinkType)> = (0..=300u32)
        .map(|code| (code, LinkType::from(code)))
        .filter(|(_, t)| *t != LinkType::UNKNOWN)
        .collect();
    assert_eq!(known.len(), 107);
    for (a, ta) in &known {
        for (b, tb) in &known {
            assert_eq!(a == b, ta == tb);
        }
    }
}
