use rustls::client::handy::{ClientSessionMemoryCache, NoClientSessionStorage};
use rustls::client::StoresClientSessions;
use rustls::codec::{Codec, Reader};
use rustls::enums::{CipherSuite, ProtocolVersion};
use rustls::handshake::SessionID;
use rustls::key::Certificate;
use rustls::persist::{
    ClientSessionKey, ClientSessionValue, ClientSessionValueWithResolvedCipherSuite,
    ServerSessionValue,
};
use rustls::pki::{DnsName, InvalidDnsNameError, ServerName};
use rustls::suites::{SupportedCipherSuite, TLS13_AES_128_GCM_SHA256};
use rustls::ticketer::TimeBase;

use std::convert::{TryFrom, TryInto};

#[test]
fn clientsessionkey_is_debug() {
    let name = "hello".try_into().unwrap();
    let csk = ClientSessionKey::session_for_server_name(&name);
    println!("{:?}", csk);
}

#[test]
fn clientsessionkey_cannot_be_read() {
    let bytes = [0; 1];
    let mut rd = Reader::init(&bytes);
    assert!(ClientSessionKey::read(&mut rd).is_none());
}

#[test]
fn clientsessionvalue_is_debug() {
    let csv = ClientSessionValueWithResolvedCipherSuite::new(
        ProtocolVersion::TLSv1_3,
        TLS13_AES_128_GCM_SHA256,
        &SessionID::random().unwrap(),
        vec![],
        vec![1, 2, 3],
        &vec![Certificate(b"abc".to_vec()), Certificate(b"def".to_vec())],
        TimeBase::now().unwrap(),
    );
    println!("{:?}", csv);
}

#[test]
fn serversessionvalue_is_debug() {
    let ssv = ServerSessionValue::new(
        None,
        ProtocolVersion::TLSv1_3,
        CipherSuite::TLS13_AES_128_GCM_SHA256,
        vec![1, 2, 3],
        &None,
        None,
        vec![4, 5, 6],
    );
    println!("{:?}", ssv);
}

#[test]
fn serversessionvalue_no_sni() {
    let bytes = [
        0x00, 0x03, 0x03, 0xc0, 0x23, 0x03, 0x01, 0x02, 0x03, 0x00, 0x00, 0x00, 0x00, 0x00,
    ];
    let mut rd = Reader::init(&bytes);
    let ssv = ServerSessionValue::read(&mut rd).unwrap();
    assert_eq!(ssv.get_encoding(), bytes);
}

#[test]
fn serversessionvalue_with_cert() {
    let bytes = [
        0x00, 0x03, 0x03, 0xc0, 0x23, 0x03, 0x01, 0x02, 0x03, 0x00, 0x00, 0x00, 0x00, 0x00,
    ];
    let mut rd = Reader::init(&bytes);
    let ssv = ServerSessionValue::read(&mut rd).unwrap();
    assert_eq!(ssv.get_encoding(), bytes);
}

#[test]
fn server_session_with_everything_reads_back() {
    let name = DnsName::try_from_ascii(b"Example.COM").unwrap();
    let ssv = ServerSessionValue::new(
        Some(&name),
        ProtocolVersion::TLSv1_2,
        CipherSuite::TLS_ECDHE_RSA_WITH_AES_128_GCM_SHA256,
        vec![9; 48],
        &Some(vec![Certificate(vec![1, 2]), Certificate(vec![])]),
        Some(b"h2".to_vec()),
        vec![7; 300],
    );
    let bytes = ssv.get_encoding();
    assert_eq!(&bytes[..13], b"\x01\x0bexample.com");
    let again = ServerSessionValue::read_bytes(&bytes).unwrap();
    assert_eq!(again, ssv);
    assert_eq!(again.get_encoding(), bytes);
}

#[test]
fn server_session_with_a_bad_name_is_refused() {
    let bytes = [
        0x01, 0x01, 0x20, 0x03, 0x03, 0xc0, 0x23, 0x03, 0x01, 0x02, 0x03, 0x00, 0x00, 0x00, 0x00,
        0x00,
    ];
    assert!(ServerSessionValue::read_bytes(&bytes).is_none());
}

#[test]
fn truncated_server_session_is_refused() {
    let bytes = [
        0x00, 0x03, 0x03, 0xc0, 0x23, 0x03, 0x01, 0x02, 0x03, 0x00, 0x00, 0x00, 0x00, 0x00,
    ];
    for n in 0..bytes.len() {
        assert!(ServerSessionValue::read_bytes(&bytes[..n]).is_none());
    }
}

fn client_value() -> ClientSessionValueWithResolvedCipherSuite {
    let mut value = ClientSessionValueWithResolvedCipherSuite::new(
        ProtocolVersion::TLSv1_3,
        SupportedCipherSuite::TLS13_AES_256_GCM_SHA384,
        &SessionID::empty(),
        vec![1, 2, 3],
        vec![4; 48],
        &vec![Certificate(b"abc".to_vec())],
        TimeBase { secs: 5 },
    );
    value.set_times(TimeBase { secs: 1000 }, 7200, 0x0102_0304);
    value.set_max_early_data_size(16384);
    value
}

#[test]
fn client_session_reads_back() {
    let value = client_value();
    let mut bytes = value.get_encoding();
    bytes.extend_from_slice(&[0, 1, 0xff]);
    let mut rd = Reader::init(&bytes);
    let again = ClientSessionValue::read(&mut rd).unwrap();
    assert_eq!(again, value.value);
    assert_eq!(rd.rest(), [0, 1, 0xff]);
}

#[test]
fn client_session_encoding() {
    let value = ClientSessionValueWithResolvedCipherSuite::new(
        ProtocolVersion::TLSv1_3,
        TLS13_AES_128_GCM_SHA256,
        &SessionID { id: vec![8, 9] },
        vec![1],
        vec![2, 3],
        &vec![Certificate(vec![0xaa])],
        TimeBase { secs: 0x0102 },
    );
    assert_eq!(
        value.get_encoding(),
        [
            3, 4, 0x13, 1, 2, 8, 9, 0, 1, 1, 2, 2, 3, 0, 0, 0, 0, 0, 0, 1, 2, 0, 0, 0, 0, 0, 0, 0,
            0, 0, 0, 0, 0, 0, 0, 0, 4, 0, 0, 1, 0xaa
        ]
    );
}

#[test]
fn ticket_age_is_hidden_and_wraps() {
    let value = client_value();
    assert_eq!(value.get_obfuscated_ticket_age(TimeBase { secs: 1000 }), 0x0102_0304);
    assert_eq!(value.get_obfuscated_ticket_age(TimeBase { secs: 1002 }), 0x0102_0304 + 2000);
    // A ticket from the future has no age.
    assert_eq!(value.get_obfuscated_ticket_age(TimeBase { secs: 1 }), 0x0102_0304);
    let late = TimeBase { secs: 1000 + 4_294_968 };
    assert_eq!(
        value.get_obfuscated_ticket_age(late),
        4_294_968u32.wrapping_mul(1000).wrapping_add(0x0102_0304)
    );
}

#[test]
fn kept_things_have_distinct_keys() {
    let a = ServerName::try_from("a.example").unwrap();
    let b = ServerName::try_from("b.example").unwrap();
    let keys = [
        ClientSessionKey::session_for_server_name(&a).get_encoding(),
        ClientSessionKey::session_for_server_name(&b).get_encoding(),
        ClientSessionKey::hint_for_server_name(&a).get_encoding(),
        ClientSessionKey::hint_for_server_name(&b).get_encoding(),
    ];
    assert_eq!(keys[0], b"sessiona.example");
    assert_eq!(keys[2], b"kx-hinta.example");
    for i in 0..4 {
        for j in 0..4 {
            assert_eq!(keys[i] == keys[j], i == j);
        }
    }
}

#[test]
fn server_names_are_dns_names_in_lower_case() {
    assert_eq!(ServerName::try_from("Example.COM").unwrap().as_bytes(), b"example.com");
    assert_eq!(ServerName::try_from("no spaces"), Err(InvalidDnsNameError {}));
    assert_eq!(ServerName::try_from(""), Err(InvalidDnsNameError {}));
    assert!(DnsName::try_from_ascii(b"under_score.example").is_some());
    assert!(DnsName::try_from_ascii(b"-.example").is_none());
}

#[test]
fn session_ids_are_random_and_of_full_length() {
    let a = SessionID::random().unwrap();
    let b = SessionID::random().unwrap();
    assert_eq!(a.id.len(), 32);
    assert_ne!(a, b);
    let mut long = vec![33];
    long.extend_from_slice(&[0; 33]);
    assert!(SessionID::read_bytes(&long).is_none());
}

#[test]
fn clock_runs() {
    assert!(TimeBase::now().unwrap().as_secs() > 1_600_000_000);
}

#[test]
fn memory_cache_keeps_the_latest_value() {
    let mut cache = ClientSessionMemoryCache::new();
    assert_eq!(cache.get(&[1]), None);
    assert!(cache.put(vec![1], vec![10]));
    assert!(cache.put(vec![2], vec![20]));
    assert!(cache.put(vec![1], vec![11]));
    assert_eq!(cache.get(&[1]), Some(vec![11]));
    assert_eq!(cache.get(&[2]), Some(vec![20]));
    let mut none = NoClientSessionStorage {};
    assert!(!none.put(vec![1], vec![10]));
    assert_eq!(none.get(&[1]), None);
}

#[test]
fn clock_may_stand_before_the_epoch() {
    assert_eq!(TimeBase::of_clock(Some(7)), Ok(TimeBase { secs: 7 }));
    assert_eq!(
        TimeBase::of_clock(None),
        Err(rustls::error::TlsError::FailedToGetCurrentTime)
    );
    let epoch = std::time::UNIX_EPOCH;
    let while_after = std::time::Duration::from_millis(7_900);
    assert_eq!(TimeBase::of_system_time(epoch + while_after), Ok(TimeBase { secs: 7 }));
    assert_eq!(
        TimeBase::of_system_time(epoch - while_after),
        Err(rustls::error::TlsError::FailedToGetCurrentTime)
    );
}
