//! Duration formatting, argument classification, and reverse-lookup
//! domains.

use dog::options::Inputs;
use dog::options::is_constant_name;
use dog::options::reverse_lookup_domain_v4;
use dog::options::reverse_lookup_domain_v6;
use dog::output::TextFormat;
use dog::output::format_duration_hms;
use dog::record::RecordType;

#[test]
fn test_format_duration() {
    assert_eq!(format_duration_hms(0), "0s");
    assert_eq!(format_duration_hms(59), "59s");
    assert_eq!(format_duration_hms(60), "1m00s");
    assert_eq!(format_duration_hms(3599), "59m59s");
    assert_eq!(format_duration_hms(3600), "1h00m00s");
    assert_eq!(format_duration_hms(86399), "23h59m59s");
    assert_eq!(format_duration_hms(86400), "1d0h00m00s");
}

#[test]
fn format_duration_modes() {
    let hms = TextFormat { format_durations: true };
    let seconds = TextFormat { format_durations: false };
    assert_eq!(hms.format_duration(3600), "1h00m00s");
    assert_eq!(seconds.format_duration(3600), "3600");
}

#[test]
fn constant_names() {
    assert!(is_constant_name("SOA"));
    assert!(is_constant_name("soa"));
    assert!(is_constant_name("NSEC3"));
    assert!(!is_constant_name("lookup.dog"));
    assert!(!is_constant_name(""));
    assert!(!is_constant_name("9lives"));
    assert!(!is_constant_name("_dmarc"));
}

#[test]
fn reverse_v4_domain() {
    assert_eq!(reverse_lookup_domain_v4(192, 168, 0, 1), "1.0.168.192.in-addr.arpa");
    assert_eq!(reverse_lookup_domain_v4(1, 1, 1, 1), "1.1.1.1.in-addr.arpa");
}

#[test]
fn reverse_v6_domain() {
    let mut octets = [0u8; 16];
    octets[15] = 1;
    let mut expected = String::from("1.0.");
    for _ in 0..15 {
        expected.push_str("0.0.");
    }
    expected.push_str("ip6.arpa");
    assert_eq!(reverse_lookup_domain_v6(&octets), expected);
}

#[test]
fn inputs_fall_back_to_a() {
    let mut inputs = Inputs::default();
    inputs.add_domain("lookup.dog");
    inputs.load_fallbacks();
    assert_eq!(inputs.domains, vec!["lookup.dog".to_string()]);
    assert_eq!(inputs.record_types, vec![RecordType::A]);
    assert!(!inputs.any_query);
}

#[test]
fn inputs_any_query_expands() {
    let mut inputs = Inputs::default();
    inputs.add_domain("lookup.dog");
    inputs.add_any_record_types();
    inputs.load_fallbacks();
    assert!(inputs.any_query);
    assert_eq!(
        inputs.record_types,
        vec![
            RecordType::A,
            RecordType::AAAA,
            RecordType::CAA,
            RecordType::CNAME,
            RecordType::DNSKEY,
            RecordType::DS,
            RecordType::MX,
            RecordType::NS,
            RecordType::PTR,
            RecordType::SOA,
            RecordType::SRV,
            RecordType::SSHFP,
            RecordType::TLSA,
            RecordType::TXT,
            RecordType::RRSIG,
        ]
    );
}

#[test]
fn inputs_keep_named_types() {
    let mut inputs = Inputs::default();
    inputs.add_type(RecordType::MX);
    inputs.load_fallbacks();
    assert_eq!(inputs.record_types, vec![RecordType::MX]);
}
