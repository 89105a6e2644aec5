//! Transport decisions: stream framing and reassembly, the truncation
//! fallback from UDP to TCP, and the HTTP side of DNS-over-HTTPS.

use dog::http::build_http_request;
use dog::http::parse_http_response;
use dog::message::Flags;
use dog::message::Question;
use dog::message::encode_query;
use dog::strings::Labels;
use dog::transport::Error;
use dog::transport::QuerySession;
use dog::transport::RecvOutcome;
use dog::transport::SessionStep;
use dog::transport::StreamReceiver;
use dog::transport::TransportType;
use dog::transport::frame_stream;

fn example_query() -> Vec<u8> {
    let question = Question {
        qname: Labels::encode("dns.lookup.dog").unwrap(),
        qtype: 1,
        qclass: 1,
    };
    encode_query(0x1234, Flags::query(), &question)
}

/// A minimal response: a header echoing the id, with the given flags
/// word and no records at all.
fn empty_response(transaction_id: u16, flags: u16) -> Vec<u8> {
    vec![
        (transaction_id / 256) as u8,
        (transaction_id % 256) as u8,
        (flags / 256) as u8,
        (flags % 256) as u8,
        0,
        0,
        0,
        0,
        0,
        0,
        0,
        0,
    ]
}

#[test]
fn frame_stream_prefixes_length() {
    assert_eq!(frame_stream(&vec![1, 2, 3]), vec![0, 3, 1, 2, 3]);
}

#[test]
fn truncated_udp_response_retries_over_tcp() {
    let query = example_query();
    let mut session = QuerySession::new(TransportType::UDP, query.clone(), 0x1234);

    // a response with the truncation flag set
    let truncated = empty_response(0x1234, 0x8200);
    let step = session.on_response(&truncated);
    assert_eq!(step, SessionStep::Retry(TransportType::TCP));

    // the query to reissue is identical
    assert_eq!(session.query, query);
    assert_eq!(session.transport, TransportType::TCP);

    // the TCP response is then used
    let full = empty_response(0x1234, 0x8000);
    let step = session.on_response(&full);
    match step {
        SessionStep::Deliver(message) => {
            assert!(message.header.flags.response);
            assert!(!message.header.flags.truncated);
        }
        other => panic!("expected a delivery: {:?}", other),
    }
}

#[test]
fn truncated_tcp_response_is_not_retried() {
    let query = example_query();
    let mut session = QuerySession::new(TransportType::TCP, query, 0x1234);
    let truncated = empty_response(0x1234, 0x8200);
    match session.on_response(&truncated) {
        SessionStep::Deliver(message) => assert!(message.header.flags.truncated),
        other => panic!("expected a delivery: {:?}", other),
    }
}

#[test]
fn mismatched_transaction_id_is_rejected() {
    let query = example_query();
    let mut session = QuerySession::new(TransportType::UDP, query, 0x1234);
    let response = empty_response(0x9999, 0x8000);
    assert_eq!(
        session.on_response(&response),
        SessionStep::Fail(Error::WrongTransactionId { expected: 0x1234, received: 0x9999 })
    );
}

#[test]
fn undecodable_response_fails_with_wire_error() {
    let query = example_query();
    let mut session = QuerySession::new(TransportType::UDP, query, 0x1234);
    match session.on_response(&[0x12]) {
        SessionStep::Fail(Error::WireError(_)) => {}
        other => panic!("expected a wire error: {:?}", other),
    }
}

#[test]
fn stream_closing_early_is_truncated_response() {
    let mut receiver = StreamReceiver::new();
    // ten bytes declared, three delivered
    assert_eq!(receiver.on_read(&[0, 10, 0xaa, 0xbb, 0xcc]), RecvOutcome::NeedMore);
    // the stream then closes: a read returns zero bytes
    assert_eq!(receiver.on_read(&[]), RecvOutcome::Truncated);
}

#[test]
fn stream_reassembles_partial_reads() {
    let mut receiver = StreamReceiver::new();
    assert_eq!(receiver.on_read(&[0]), RecvOutcome::NeedMore);
    assert_eq!(receiver.on_read(&[4, 0x12]), RecvOutcome::NeedMore);
    assert_eq!(receiver.on_read(&[0x34, 0x56]), RecvOutcome::NeedMore);
    assert_eq!(
        receiver.on_read(&[0x78]),
        RecvOutcome::Complete(vec![0x12, 0x34, 0x56, 0x78])
    );
}

#[test]
fn http_status_503_is_reported_without_decoding() {
    let raw = b"HTTP/1.1 503 Service Unavailable\r\nContent-Length: 0\r\n\r\nnot a dns message";
    assert_eq!(
        parse_http_response(raw),
        Err(Error::WrongHttpStatus(503, Some(b"Service Unavailable".to_vec())))
    );
}

#[test]
fn http_status_without_reason() {
    let raw = b"HTTP/1.1 404\r\n\r\n";
    assert_eq!(parse_http_response(raw), Err(Error::WrongHttpStatus(404, None)));
}

#[test]
fn http_ok_yields_body() {
    let raw = b"HTTP/1.1 200 OK\r\nContent-Type: application/dns-message\r\n\r\n\x12\x34\x56";
    assert_eq!(parse_http_response(raw), Ok(vec![0x12, 0x34, 0x56]));
}

#[test]
fn http_garbage_is_an_error() {
    assert_eq!(parse_http_response(b"not http at all"), Err(Error::HttpError));
}

#[test]
fn http_request_carries_message_body() {
    let body = vec![0xab, 0xcd, 0xef];
    let request = build_http_request("dns.google", "/dns-query", &body);
    let mut expected = Vec::new();
    expected.extend_from_slice(
        b"POST /dns-query HTTP/1.1\r\nHost: dns.google\r\nContent-Type: application/dns-message\r\nAccept: application/dns-message\r\nContent-Length: 3\r\nConnection: close\r\n\r\n",
    );
    expected.extend_from_slice(&body);
    assert_eq!(request, expected);
}
