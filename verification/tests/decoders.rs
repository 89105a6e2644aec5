//! Decoding the remaining record types, and the name decoder's limits.

use dog::record::A;
use dog::record::AAAA;
use dog::record::CAA;
use dog::record::CNAME;
use dog::record::EUI48;
use dog::record::EUI64;
use dog::record::HINFO;
use dog::record::LOC;
use dog::record::MX;
use dog::record::NAPTR;
use dog::record::NS;
use dog::record::OPENPGPKEY;
use dog::record::PTR;
use dog::record::SOA;
use dog::record::SRV;
use dog::record::SSHFP;
use dog::record::TLSA;
use dog::record::TXT;
use dog::record::URI;
use dog::strings::Labels;
use dog::wire::Cursor;
use dog::wire::MandatedLength;
use dog::wire::WireError;

#[test]
fn a_parses() {
    let buf = &[127, 0, 0, 1];
    assert_eq!(
        A::read(4, &mut Cursor::new(buf)).unwrap(),
        A { address: vec![127, 0, 0, 1] }
    );
}

#[test]
fn a_wrong_length() {
    let buf = &[127, 0, 0, 1, 0];
    assert_eq!(
        A::read(5, &mut Cursor::new(buf)),
        Err(WireError::WrongRecordLength {
            stated_length: 5,
            mandated_length: MandatedLength::Exactly(4)
        })
    );
}

#[test]
fn aaaa_parses() {
    let buf = &[0, 1, 2, 3, 4, 5, 6, 7, 8, 9, 10, 11, 12, 13, 14, 15];
    assert_eq!(
        AAAA::read(16, &mut Cursor::new(buf)).unwrap(),
        AAAA { address: buf.to_vec() }
    );
}

#[test]
fn eui48_parses() {
    let buf = &[0x00, 0x7f, 0x23, 0x12, 0x34, 0x56];
    assert_eq!(
        EUI48::read(6, &mut Cursor::new(buf)).unwrap(),
        EUI48 { octets: buf.to_vec() }
    );
}

#[test]
fn eui64_parses() {
    let buf = &[0x00, 0x7f, 0x23, 0xff, 0xfe, 0x12, 0x34, 0x56];
    assert_eq!(
        EUI64::read(8, &mut Cursor::new(buf)).unwrap(),
        EUI64 { octets: buf.to_vec() }
    );
}

#[test]
fn loc_parses() {
    let buf = &[
        0x00, // version
        0x12, // size
        0x34, // horizontal precision
        0x56, // vertical precision
        0x00, 0x00, 0x00, 0x01, // latitude
        0x00, 0x00, 0x00, 0x02, // longitude
        0x00, 0x00, 0x00, 0x03, // altitude
    ];
    assert_eq!(
        LOC::read(16, &mut Cursor::new(buf)).unwrap(),
        LOC {
            version: 0,
            size: 0x12,
            horizontal_precision: 0x34,
            vertical_precision: 0x56,
            latitude: 1,
            longitude: 2,
            altitude: 3,
        }
    );
}

#[test]
fn cname_parses() {
    let buf = &[0x03, 0x64, 0x6e, 0x73, 0x00];
    assert_eq!(
        CNAME::read(5, &mut Cursor::new(buf)).unwrap(),
        CNAME { domain: Labels::encode("dns").unwrap() }
    );
}

#[test]
fn cname_wrong_length() {
    let buf = &[0x03, 0x64, 0x6e, 0x73, 0x00];
    assert_eq!(
        CNAME::read(4, &mut Cursor::new(buf)),
        Err(WireError::WrongLabelLength { stated_length: 4, length_after_labels: 5 })
    );
}

#[test]
fn ns_parses() {
    let buf = &[0x03, 0x64, 0x6e, 0x73, 0x00];
    assert_eq!(
        NS::read(5, &mut Cursor::new(buf)).unwrap(),
        NS { nameserver: Labels::encode("dns").unwrap() }
    );
}

#[test]
fn ptr_parses() {
    let buf = &[0x03, 0x64, 0x6e, 0x73, 0x00];
    assert_eq!(
        PTR::read(5, &mut Cursor::new(buf)).unwrap(),
        PTR { cname: Labels::encode("dns").unwrap() }
    );
}

#[test]
fn mx_parses() {
    let buf = &[
        0x00, 0x0a, // preference
        0x03, 0x64, 0x6e, 0x73, 0x00, // exchange
    ];
    assert_eq!(
        MX::read(7, &mut Cursor::new(buf)).unwrap(),
        MX { preference: 10, exchange: Labels::encode("dns").unwrap() }
    );
}

#[test]
fn srv_parses() {
    let buf = &[
        0x00, 0x01, // priority
        0x00, 0x02, // weight
        0x1f, 0x90, // port
        0x03, 0x64, 0x6e, 0x73, 0x00, // target
    ];
    assert_eq!(
        SRV::read(11, &mut Cursor::new(buf)).unwrap(),
        SRV {
            priority: 1,
            weight: 2,
            port: 8080,
            target: Labels::encode("dns").unwrap(),
        }
    );
}

#[test]
fn soa_parses() {
    let buf = &[
        0x03, 0x64, 0x6e, 0x73, 0x00, // mname "dns"
        0x03, 0x64, 0x6f, 0x67, 0x00, // rname "dog"
        0x00, 0x00, 0x00, 0x01, // serial
        0x00, 0x00, 0x00, 0x02, // refresh
        0x00, 0x00, 0x00, 0x03, // retry
        0x00, 0x00, 0x00, 0x04, // expire
        0x00, 0x00, 0x00, 0x05, // minimum ttl
    ];
    assert_eq!(
        SOA::read(30, &mut Cursor::new(buf)).unwrap(),
        SOA {
            mname: Labels::encode("dns").unwrap(),
            rname: Labels::encode("dog").unwrap(),
            serial: 1,
            refresh_interval: 2,
            retry_interval: 3,
            expire_limit: 4,
            minimum_ttl: 5,
        }
    );
}

#[test]
fn txt_parses() {
    let buf = &[
        0x03, 0x63, 0x61, 0x74, // "cat"
        0x02, 0x68, 0x69, // "hi"
    ];
    assert_eq!(
        TXT::read(7, &mut Cursor::new(buf)).unwrap(),
        TXT { messages: vec![b"cat".to_vec(), b"hi".to_vec()] }
    );
}

#[test]
fn txt_string_overruns_record() {
    let buf = &[
        0x05, 0x61, 0x62, // a string longer than the record
    ];
    assert_eq!(
        TXT::read(3, &mut Cursor::new(buf)),
        Err(WireError::WrongLabelLength { stated_length: 3, length_after_labels: 6 })
    );
}

#[test]
fn hinfo_parses() {
    let buf = &[
        0x03, 0x63, 0x70, 0x75, // "cpu"
        0x02, 0x6f, 0x73, // "os"
    ];
    assert_eq!(
        HINFO::read(7, &mut Cursor::new(buf)).unwrap(),
        HINFO { cpu: b"cpu".to_vec(), os: b"os".to_vec() }
    );
}

#[test]
fn caa_parses() {
    let buf = &[
        0x80, // flags: critical
        0x05, 0x69, 0x73, 0x73, 0x75, 0x65, // tag "issue"
        0x01, 0x02, 0x03, // value
    ];
    assert_eq!(
        CAA::read(10, &mut Cursor::new(buf)).unwrap(),
        CAA { critical: true, tag: b"issue".to_vec(), value: vec![1, 2, 3] }
    );
}

#[test]
fn naptr_parses() {
    let buf = &[
        0x00, 0x01, // order
        0x00, 0x02, // preference
        0x01, 0x55, // flags "U"
        0x03, 0x73, 0x69, 0x70, // service "sip"
        0x00, // regex ""
        0x03, 0x64, 0x6e, 0x73, 0x00, // replacement "dns"
    ];
    assert_eq!(
        NAPTR::read(16, &mut Cursor::new(buf)).unwrap(),
        NAPTR {
            order: 1,
            preference: 2,
            flags: b"U".to_vec(),
            service: b"sip".to_vec(),
            regex: Vec::new(),
            replacement: Labels::encode("dns").unwrap(),
        }
    );
}

#[test]
fn uri_parses() {
    let buf = &[
        0x00, 0x01, // priority
        0x00, 0x02, // weight
        0x68, 0x74, 0x74, 0x70, // target "http"
    ];
    assert_eq!(
        URI::read(8, &mut Cursor::new(buf)).unwrap(),
        URI { priority: 1, weight: 2, target: b"http".to_vec() }
    );
}

#[test]
fn tlsa_parses() {
    let buf = &[
        0x03, // certificate usage
        0x01, // selector
        0x01, // matching type
        0xab, 0xcd, // certificate data
    ];
    assert_eq!(
        TLSA::read(5, &mut Cursor::new(buf)).unwrap(),
        TLSA {
            certificate_usage: 3,
            selector: 1,
            matching_type: 1,
            certificate_data: vec![0xab, 0xcd],
        }
    );
}

#[test]
fn sshfp_parses() {
    let buf = &[
        0x01, // algorithm
        0x01, // fingerprint type
        0xde, 0xad, // fingerprint
    ];
    assert_eq!(
        SSHFP::read(4, &mut Cursor::new(buf)).unwrap(),
        SSHFP { algorithm: 1, fingerprint_type: 1, fingerprint: vec![0xde, 0xad] }
    );
}

#[test]
fn openpgpkey_parses() {
    let buf = &[0x01, 0x02, 0x03];
    assert_eq!(
        OPENPGPKEY::read(3, &mut Cursor::new(buf)).unwrap(),
        OPENPGPKEY { key: vec![1, 2, 3] }
    );
}

#[test]
fn name_rejects_overlong_pointer_chain() {
    // a root label, then a chain of pointers each aimed at the one
    // before it; following the whole chain takes one pointer too many
    let mut buf = vec![0x00, 0x00]; // a root label and padding
    for link in 0..65u16 {
        let target = if link == 0 { 0 } else { 2 * link };
        buf.push(0xc0 + (target / 256) as u8);
        buf.push((target % 256) as u8);
    }
    let start = buf.len() - 2;
    let mut cursor = Cursor::new(&buf);
    cursor.read_bytes(start).unwrap();
    assert_eq!(cursor.read_labels(), Err(WireError::TooManyPointers));
}

#[test]
fn name_rejects_overlong_name() {
    // four labels of 63 bytes each exceed the 255-byte name limit
    let mut buf = Vec::new();
    for _ in 0..3 {
        buf.push(63u8);
        buf.extend_from_slice(&[0x61; 63]);
    }
    buf.push(63u8); // the length byte that pushes the name over the limit
    let mut cursor = Cursor::new(&buf);
    assert_eq!(cursor.read_labels(), Err(WireError::NameTooLong));
}
