//! The name codec, the record-type registry, and whole-message decoding.

use dog::message::Flags;
use dog::message::Message;
use dog::message::Question;
use dog::message::encode_query;
use dog::record::Record;
use dog::record::RecordType;
use dog::record::UnknownQtype;
use dog::strings::Labels;
use dog::wire::Cursor;
use dog::wire::MandatedLength;
use dog::wire::WireError;

#[test]
fn encode_simple_name() {
    let labels = Labels::encode("dns.lookup.dog").unwrap();
    assert_eq!(
        labels.segments,
        vec![b"dns".to_vec(), b"lookup".to_vec(), b"dog".to_vec()]
    );
}

#[test]
fn encode_rejects_empty_name() {
    assert_eq!(Labels::encode(""), None);
}

#[test]
fn encode_rejects_empty_label() {
    assert_eq!(Labels::encode("dns..dog"), None);
    assert_eq!(Labels::encode("dns.dog."), None);
}

#[test]
fn encode_rejects_long_label() {
    let long = "a".repeat(64);
    assert_eq!(Labels::encode(&long), None);
    assert!(Labels::encode(&"a".repeat(63)).is_some());
}

#[test]
fn encode_rejects_long_name() {
    // 63 + 63 + 63 + 61 letters and three dots: 253 bytes, 255 on the wire
    let just_fits = format!(
        "{}.{}.{}.{}",
        "a".repeat(63),
        "a".repeat(63),
        "a".repeat(63),
        "a".repeat(61)
    );
    assert!(Labels::encode(&just_fits).is_some());

    let too_long = format!(
        "{}.{}.{}.{}",
        "a".repeat(63),
        "a".repeat(63),
        "a".repeat(63),
        "a".repeat(62)
    );
    assert_eq!(Labels::encode(&too_long), None);
}

#[test]
fn decode_name_with_back_pointer() {
    let buf = &[
        0x03, 0x64, 0x6e, 0x73, // "dns"
        0x00, // root
        0xc0, 0x00, // pointer back to offset 0
    ];
    let mut c = Cursor::new(buf);
    let (first, first_len) = c.read_labels().unwrap();
    assert_eq!(first, Labels::encode("dns").unwrap());
    assert_eq!(first_len, 5);
    let (second, second_len) = c.read_labels().unwrap();
    assert_eq!(second, Labels::encode("dns").unwrap());
    assert_eq!(second_len, 2);
}

#[test]
fn decode_name_rejects_self_pointer() {
    let buf = &[0xc0, 0x00];
    let mut c = Cursor::new(buf);
    assert_eq!(c.read_labels(), Err(WireError::ForwardPointer));
}

#[test]
fn decode_name_rejects_forward_pointer() {
    let buf = &[
        0x00, // an unrelated root name
        0xc0, 0x03, // pointer past itself
        0x00,
    ];
    let mut c = Cursor::new(buf);
    c.read_labels().unwrap();
    assert_eq!(c.read_labels(), Err(WireError::ForwardPointer));
}

#[test]
fn decode_name_rejects_reserved_length_bits() {
    let buf = &[0x40, 0x00];
    let mut c = Cursor::new(buf);
    assert_eq!(c.read_labels(), Err(WireError::MalformedLabel));
}

#[test]
fn registry_numbers_round_trip() {
    for rt in RecordType::all_record_types() {
        assert_eq!(RecordType::from_type_number(rt.type_number()), rt);
    }
}

#[test]
fn registry_lists_all_types() {
    assert_eq!(RecordType::all_record_types().len(), 28);
}

#[test]
fn registry_finds_names_case_insensitively() {
    assert_eq!(RecordType::from_type_name("SOA"), Some(RecordType::SOA));
    assert_eq!(RecordType::from_type_name("soa"), Some(RecordType::SOA));
    assert_eq!(RecordType::from_type_name("nsec3param"), Some(RecordType::NSEC3PARAM));
    assert_eq!(RecordType::from_type_name("tubes"), None);
    assert_eq!(RecordType::from_type_name("999999"), None);
    assert_eq!(RecordType::from_type_name(""), None);
}

#[test]
fn registry_unknown_number_is_other() {
    assert_eq!(
        RecordType::from_type_number(65280),
        RecordType::Other(UnknownQtype(65280))
    );
    assert_eq!(RecordType::Other(UnknownQtype(65280)).type_number(), 65280);
}

#[test]
fn query_round_trip() {
    let question = Question {
        qname: Labels::encode("dns.lookup.dog").unwrap(),
        qtype: 1,
        qclass: 1,
    };
    let bytes = encode_query(0xabcd, Flags::query(), &question);
    let message = Message::from_bytes(&bytes).unwrap();
    assert_eq!(message.header.transaction_id, 0xabcd);
    assert_eq!(message.header.qdcount, 1);
    assert_eq!(message.header.ancount, 0);
    assert!(!message.header.flags.response);
    assert!(message.header.flags.recursion_desired);
    assert_eq!(message.questions.len(), 1);
    assert_eq!(message.questions[0], question);
    assert!(message.answers.is_empty());
}

#[test]
fn response_with_answer_decodes() {
    let buf = &[
        0x12, 0x34, // transaction id
        0x81, 0x80, // flags: response, recursion desired and available
        0x00, 0x00, // no questions
        0x00, 0x01, // one answer
        0x00, 0x00, // no authorities
        0x00, 0x00, // no additionals
        0x03, 0x64, 0x6e, 0x73, 0x00, // name "dns"
        0x00, 0x01, // type A
        0x00, 0x01, // class IN
        0x00, 0x00, 0x0e, 0x10, // ttl 3600
        0x00, 0x04, // four bytes of record data
        0x7f, 0x00, 0x00, 0x01, // 127.0.0.1
    ];
    let message = Message::from_bytes(buf).unwrap();
    assert_eq!(message.header.transaction_id, 0x1234);
    assert!(message.header.flags.response);
    assert_eq!(message.answers.len(), 1);
    let answer = &message.answers[0];
    assert_eq!(answer.name, Labels::encode("dns").unwrap());
    assert_eq!(answer.class, 1);
    assert_eq!(answer.ttl, 3600);
    match &answer.data {
        Record::A(a) => assert_eq!(a.address, vec![127, 0, 0, 1]),
        other => panic!("not an A record: {:?}", other),
    }
}

#[test]
fn unknown_record_type_is_kept_raw() {
    let buf = &[
        0x00, 0x01, // transaction id
        0x80, 0x00, // flags: response
        0x00, 0x00, 0x00, 0x01, 0x00, 0x00, 0x00, 0x00, // one answer
        0x00, // root name
        0xff, 0x00, // type 65280, unassigned
        0x00, 0x01, // class IN
        0x00, 0x00, 0x00, 0x05, // ttl
        0x00, 0x03, // three bytes of record data
        0xaa, 0xbb, 0xcc,
    ];
    let message = Message::from_bytes(buf).unwrap();
    match &message.answers[0].data {
        Record::Other { type_number, bytes } => {
            assert_eq!(*type_number, UnknownQtype(65280));
            assert_eq!(bytes, &vec![0xaa, 0xbb, 0xcc]);
        }
        other => panic!("not an unknown record: {:?}", other),
    }
}

#[test]
fn section_decoding_stops_at_first_bad_record() {
    let buf = &[
        0x00, 0x01, // transaction id
        0x80, 0x00, // flags: response
        0x00, 0x00, // no questions
        0x00, 0x02, // two answers
        0x00, 0x00, // no authorities
        0x00, 0x00, // no additionals
        // a valid A record
        0x00, // root name
        0x00, 0x01, 0x00, 0x01, // type A, class IN
        0x00, 0x00, 0x00, 0x05, // ttl
        0x00, 0x04, // four bytes
        0x7f, 0x00, 0x00, 0x01,
        // a second A record with an impossible stated length
        0x00, // root name
        0x00, 0x01, 0x00, 0x01, // type A, class IN
        0x00, 0x00, 0x00, 0x05, // ttl
        0x00, 0x03, // three bytes, but A records have exactly four
        0x7f, 0x00, 0x00, 0x01,
    ];
    assert_eq!(
        Message::from_bytes(buf),
        Err(WireError::WrongRecordLength {
            stated_length: 3,
            mandated_length: MandatedLength::Exactly(4)
        })
    );
}

#[test]
fn decoding_is_deterministic() {
    let buf = &[
        0x00, 0x01, // key_tag
        0x05, // algorithm
        0x01, // digest_type
        0x12, 0x34, 0x56, 0x78, // digest
    ];
    let first = dog::record::DS::read(8, &mut Cursor::new(buf));
    let second = dog::record::DS::read(8, &mut Cursor::new(buf));
    assert_eq!(first, second);

    let bad = dog::record::DS::read(20, &mut Cursor::new(buf));
    assert_eq!(bad, dog::record::DS::read(20, &mut Cursor::new(buf)));
}

#[test]
fn flags_survive_packing() {
    let flags = Flags::query();
    let bytes = encode_query(1, flags, &Question {
        qname: Labels::encode("dns").unwrap(),
        qtype: 1,
        qclass: 1,
    });
    let decoded = Message::from_bytes(&bytes).unwrap();
    assert_eq!(decoded.header.flags, flags);
}

#[test]
fn truncated_record_data_is_io_error() {
    let buf = &[
        0x00, 0x01, // transaction id
        0x80, 0x00, // flags: response
        0x00, 0x00, 0x00, 0x01, 0x00, 0x00, 0x00, 0x00, // one answer
        0x00, // root name
        0x00, 0x31, // type DHCID
        0x00, 0x01, // class IN
        0x00, 0x00, 0x00, 0x05, // ttl
        0x00, 0x06, // six bytes declared
        0x00, 0x01, 0x12, // only three delivered
    ];
    assert_eq!(Message::from_bytes(buf), Err(WireError::IO));
}
