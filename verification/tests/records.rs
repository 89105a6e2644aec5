//! Decoding each record type from raw record data.

use dog::record::DHCID;
use dog::record::DNSKEY;
use dog::record::DS;
use dog::record::IPSECKEY;
use dog::record::NSEC;
use dog::record::NSEC3;
use dog::record::NSEC3PARAM;
use dog::record::RRSIG;
use dog::record::SMIMEA;
use dog::strings::Labels;
use dog::wire::Cursor;
use dog::wire::MandatedLength;
use dog::wire::WireError;

#[test]
fn dhcid_parses() {
    let buf = &[
        0x00, // identifier_type_code
        0x01, // digest_type_code
        0x12, 0x34, 0x56, 0x78, // digest (4 bytes for example)
    ];

    assert_eq!(
        DHCID::read(buf.len() as _, &mut Cursor::new(buf)).unwrap(),
        DHCID {
            identifier_type_code: 0,
            digest_type_code: 1,
            digest: vec![0x12, 0x34, 0x56, 0x78],
        }
    );
}

#[test]
fn dhcid_record_empty() {
    assert_eq!(DHCID::read(0, &mut Cursor::new(&[])), Err(WireError::IO));
}

#[test]
fn dhcid_buffer_ends_abruptly() {
    let buf = &[
        0x00, // only one byte
    ];

    assert_eq!(DHCID::read(4, &mut Cursor::new(buf)), Err(WireError::IO));
}

#[test]
fn dnskey_parses() {
    let buf = &[
        0x00, 0x01, // flags
        0x03, // protocol
        0x05, // algorithm
        0x12, 0x34, 0x56, 0x78, // public_key (4 bytes for example)
    ];

    assert_eq!(
        DNSKEY::read(buf.len() as _, &mut Cursor::new(buf)).unwrap(),
        DNSKEY {
            flags: 1,
            protocol: 3,
            algorithm: 5,
            public_key: vec![0x12, 0x34, 0x56, 0x78],
        }
    );
}

#[test]
fn dnskey_record_empty() {
    assert_eq!(DNSKEY::read(0, &mut Cursor::new(&[])), Err(WireError::IO));
}

#[test]
fn dnskey_buffer_ends_abruptly() {
    let buf = &[
        0x00, // half a flags
    ];

    assert_eq!(DNSKEY::read(6, &mut Cursor::new(buf)), Err(WireError::IO));
}

#[test]
fn ds_parses() {
    let buf = &[
        0x00, 0x01, // key_tag
        0x05, // algorithm
        0x01, // digest_type
        0x12, 0x34, 0x56, 0x78, // digest (4 bytes for example)
    ];

    assert_eq!(
        DS::read(buf.len() as _, &mut Cursor::new(buf)).unwrap(),
        DS {
            key_tag: 1,
            algorithm: 5,
            digest_type: 1,
            digest: vec![0x12, 0x34, 0x56, 0x78],
        }
    );
}

#[test]
fn ds_record_empty() {
    assert_eq!(DS::read(0, &mut Cursor::new(&[])), Err(WireError::IO));
}

#[test]
fn ds_buffer_ends_abruptly() {
    let buf = &[
        0x00, // half a key_tag
    ];

    assert_eq!(DS::read(6, &mut Cursor::new(buf)), Err(WireError::IO));
}

#[test]
fn ipseckey_parses() {
    let buf = &[
        0x01, // precedence
        0x01, // gateway_type (IPv4)
        0x05, // algorithm
        0xc0, 0xa8, 0x00, 0x01, // gateway IPv4: 192.168.0.1
        0x12, 0x34, 0x56, 0x78, // public_key (4 bytes for example)
    ];

    assert_eq!(
        IPSECKEY::read(buf.len() as _, &mut Cursor::new(buf)).unwrap(),
        IPSECKEY {
            precedence: 1,
            gateway_type: 1,
            algorithm: 5,
            gateway: vec![0xc0, 0xa8, 0x00, 0x01],
            public_key: vec![0x12, 0x34, 0x56, 0x78],
        }
    );
}

#[test]
fn ipseckey_record_empty() {
    assert_eq!(IPSECKEY::read(0, &mut Cursor::new(&[])), Err(WireError::IO));
}

#[test]
fn ipseckey_buffer_ends_abruptly() {
    let buf = &[
        0x01, // precedence
    ];

    assert_eq!(IPSECKEY::read(10, &mut Cursor::new(buf)), Err(WireError::IO));
}

#[test]
fn nsec_parses() {
    let buf = &[
        0x03, 0x64, 0x6e, 0x73, // next_domain_name (example: dns)
        0x00, // next_domain_name terminator
        0x00, 0x01, 0x02, // type_bit_maps (3 bytes for example)
    ];

    assert_eq!(
        NSEC::read(buf.len() as _, &mut Cursor::new(buf)).unwrap(),
        NSEC {
            next_domain_name: Labels::encode("dns").unwrap(),
            type_bit_maps: vec![0x00, 0x01, 0x02],
        }
    );
}

#[test]
fn nsec_record_empty() {
    assert_eq!(NSEC::read(0, &mut Cursor::new(&[])), Err(WireError::IO));
}

#[test]
fn nsec_buffer_ends_abruptly() {
    let buf = &[
        0x03, 0x64, // half a next_domain_name
    ];

    assert_eq!(NSEC::read(10, &mut Cursor::new(buf)), Err(WireError::IO));
}

#[test]
fn nsec3_parses() {
    let buf = &[
        0x01, // hash_algorithm
        0x00, // flags
        0x00, 0x01, // iterations
        0x04, // salt_length
        0x11, 0x22, 0x33, 0x44, // salt
        0x05, // hash_length
        0xaa, 0xbb, 0xcc, 0xdd, 0xee, // next_hashed_owner_name
        0x00, 0x01, // type_bit_maps (2 bytes for example)
    ];

    assert_eq!(
        NSEC3::read(buf.len() as _, &mut Cursor::new(buf)).unwrap(),
        NSEC3 {
            hash_algorithm: 1,
            flags: 0,
            iterations: 1,
            salt: vec![0x11, 0x22, 0x33, 0x44],
            next_hashed_owner_name: vec![0xaa, 0xbb, 0xcc, 0xdd, 0xee],
            type_bit_maps: vec![0x00, 0x01],
        }
    );
}

#[test]
fn nsec3_record_empty() {
    assert_eq!(NSEC3::read(0, &mut Cursor::new(&[])), Err(WireError::IO));
}

#[test]
fn nsec3_buffer_ends_abruptly() {
    let buf = &[
        0x01, // hash_algorithm
    ];

    assert_eq!(NSEC3::read(20, &mut Cursor::new(buf)), Err(WireError::IO));
}

#[test]
fn nsec3param_parses() {
    let buf = &[
        0x01, // hash_algorithm
        0x00, // flags
        0x00, 0x01, // iterations
        0x04, // salt_length
        0x11, 0x22, 0x33, 0x44, // salt
    ];

    assert_eq!(
        NSEC3PARAM::read(buf.len() as _, &mut Cursor::new(buf)).unwrap(),
        NSEC3PARAM {
            hash_algorithm: 1,
            flags: 0,
            iterations: 1,
            salt: vec![0x11, 0x22, 0x33, 0x44],
        }
    );
}

#[test]
fn nsec3param_record_empty() {
    assert_eq!(NSEC3PARAM::read(0, &mut Cursor::new(&[])), Err(WireError::IO));
}

#[test]
fn nsec3param_buffer_ends_abruptly() {
    let buf = &[
        0x01, // hash_algorithm
    ];

    assert_eq!(NSEC3PARAM::read(10, &mut Cursor::new(buf)), Err(WireError::IO));
}

#[test]
fn rrsig_parses() {
    let buf = &[
        0x00, 0x01, // type_covered
        0x05, // algorithm
        0x03, // labels
        0x00, 0x00, 0x00, 0x01, // original_ttl
        0x00, 0x00, 0x00, 0x02, // signature_expiration
        0x00, 0x00, 0x00, 0x03, // signature_inception
        0x00, 0x04, // key_tag
        0x03, 0x64, 0x6e, 0x73, // signers_name (example: dns)
        0x00, // signers_name terminator
        0x12, 0x34, 0x56, // signature (3 bytes for example)
    ];

    assert_eq!(
        RRSIG::read(buf.len() as _, &mut Cursor::new(buf)).unwrap(),
        RRSIG {
            type_covered: 1,
            algorithm: 5,
            labels: 3,
            original_ttl: 1,
            signature_expiration: 2,
            signature_inception: 3,
            key_tag: 4,
            signers_name: Labels::encode("dns").unwrap(),
            signature: vec![0x12, 0x34, 0x56],
        }
    );
}

#[test]
fn rrsig_record_empty() {
    assert_eq!(RRSIG::read(0, &mut Cursor::new(&[])), Err(WireError::IO));
}

#[test]
fn rrsig_buffer_ends_abruptly() {
    let buf = &[
        0x00, // half a type_covered
    ];

    assert_eq!(RRSIG::read(20, &mut Cursor::new(buf)), Err(WireError::IO));
}

#[test]
fn smimea_parses() {
    let buf = &[
        0x03, // certificate_usage
        0x01, // selector
        0x02, // matching_type
        0x12, 0x34, 0x56, 0x78, // certificate_data (4 bytes for example)
    ];

    assert_eq!(
        SMIMEA::read(buf.len() as _, &mut Cursor::new(buf)).unwrap(),
        SMIMEA {
            certificate_usage: 3,
            selector: 1,
            matching_type: 2,
            certificate_data: vec![0x12, 0x34, 0x56, 0x78],
        }
    );
}

#[test]
fn smimea_record_empty() {
    assert_eq!(
        SMIMEA::read(0, &mut Cursor::new(&[])),
        Err(WireError::WrongRecordLength {
            stated_length: 0,
            mandated_length: MandatedLength::AtLeast(4)
        })
    );
}

#[test]
fn record_too_short() {
    let buf = &[
        0x03, // certificate_usage
        0x01, // selector
    ];

    assert_eq!(
        SMIMEA::read(buf.len() as _, &mut Cursor::new(buf)),
        Err(WireError::WrongRecordLength {
            stated_length: 2,
            mandated_length: MandatedLength::AtLeast(4)
        })
    );
}

#[test]
fn smimea_buffer_ends_abruptly() {
    let buf = &[
        0x03, // certificate_usage
        0x01, // selector
        0x02, // matching_type
    ];

    assert_eq!(SMIMEA::read(6, &mut Cursor::new(buf)), Err(WireError::IO));
}

#[test]
fn one_byte_certificate() {
    let buf = &[
        0x03, // certificate_usage
        0x01, // selector
        0x02, // matching_type
        0x42, // certificate_data (1 byte)
    ];

    assert_eq!(
        SMIMEA::read(buf.len() as _, &mut Cursor::new(buf)).unwrap(),
        SMIMEA {
            certificate_usage: 3,
            selector: 1,
            matching_type: 2,
            certificate_data: vec![0x42],
        }
    );
}

#[test]
fn smimea_hex_certificate_data() {
    let record = SMIMEA {
        certificate_usage: 3,
        selector: 1,
        matching_type: 2,
        certificate_data: vec![0x12, 0x34, 0xab, 0x05],
    };
    assert_eq!(record.hex_certificate_data(), "1234ab05");
}

#[test]
fn ipseckey_fqdn_gateway_unsupported() {
    let buf = &[
        0x01, // precedence
        0x03, // gateway_type (FQDN)
        0x05, // algorithm
        0x03, 0x64, 0x6e, 0x73, 0x00, // a would-be gateway name
    ];

    assert_eq!(
        IPSECKEY::read(buf.len() as _, &mut Cursor::new(buf)),
        Err(WireError::UnsupportedFormat)
    );
}

#[test]
fn nsec3param_wrong_length() {
    let buf = &[
        0x01, // hash_algorithm
        0x00, // flags
        0x00, 0x01, // iterations
        0x04, // salt_length
        0x11, 0x22, 0x33, 0x44, // salt
        0x99, // a trailing byte the stated length wrongly includes
    ];

    assert_eq!(
        NSEC3PARAM::read(10, &mut Cursor::new(buf)),
        Err(WireError::WrongLabelLength {
            stated_length: 10,
            length_after_labels: 9
        })
    );
}

#[test]
fn dhcid_stated_length_underflow() {
    let buf = &[
        0x00, 0x01, // both fixed fields present
    ];

    assert_eq!(
        DHCID::read(1, &mut Cursor::new(buf)),
        Err(WireError::WrongRecordLength {
            stated_length: 1,
            mandated_length: MandatedLength::AtLeast(2)
        })
    );
}
