use rustls::base::{Payload, PayloadU16, PayloadU8};
use rustls::check::check_message;
use rustls::codec::{Codec, Reader};
use rustls::enums::{
    AlertDescription, AlertLevel, CipherSuite, Compression, ContentType, ExtensionType,
    HandshakeType, KeyUpdateRequest, NamedGroup, ProtocolVersion, SignatureScheme,
};
use rustls::error::TlsError;
use rustls::extensions::{
    CertificateExtension, ClientExtension, HelloRetryExtension, KeyShareEntry,
    PresharedKeyIdentity, PresharedKeyOffer, ServerExtension, UnknownExtension,
};
use rustls::handshake::{
    CertificateEntry, CertificatePayloadTLS13, ClientHelloPayload, DigitallySignedStruct,
    HandshakeMessagePayload, HandshakePayload, HelloRetryRequest, NewSessionTicketPayloadTLS13,
    Random, ServerHelloPayload, SessionID,
};
use rustls::hsjoiner::{messages_of_record, HandshakeJoiner};
use rustls::key::Certificate;
use rustls::message::{Message, MessageError, MessagePayload, OpaqueMessage};

use std::convert::TryFrom;

fn client_hello(binder: Vec<u8>) -> HandshakeMessagePayload {
    HandshakeMessagePayload {
        typ: HandshakeType::ClientHello,
        payload: HandshakePayload::ClientHello(ClientHelloPayload {
            client_version: ProtocolVersion::TLSv1_2,
            random: Random(vec![5; 32]),
            session_id: SessionID::empty(),
            cipher_suites: vec![CipherSuite::TLS13_AES_128_GCM_SHA256],
            compression_methods: vec![Compression::Null],
            extensions: vec![
                ClientExtension::KeyShare(vec![KeyShareEntry::new(NamedGroup::X25519, &[1, 2])]),
                ClientExtension::PresharedKey(PresharedKeyOffer::new(
                    PresharedKeyIdentity::new(vec![7, 7], 0x0a0b_0c0d),
                    binder,
                )),
            ],
        }),
    }
}

#[test]
fn client_hello_on_the_wire() {
    let bytes = client_hello(vec![9, 9]).get_encoding();
    let mut expected = vec![1, 0, 0, 72, 3, 3];
    expected.extend_from_slice(&[5; 32]);
    expected.extend_from_slice(&[0, 0, 2, 0x13, 1, 1, 0, 0, 29]);
    expected.extend_from_slice(&[0, 0x33, 0, 8, 0, 6, 0, 0x1d, 0, 2, 1, 2]);
    expected.extend_from_slice(&[0, 0x29, 0, 15, 0, 8, 0, 2, 7, 7, 10, 11, 12, 13]);
    expected.extend_from_slice(&[0, 3, 2, 9, 9]);
    expected[3] = (expected.len() - 4) as u8;
    let at = 6 + 32 + 7;
    expected[at + 1] = (expected.len() - at - 2) as u8;
    assert_eq!(bytes, expected);
    let mut rd = Reader::init(&bytes);
    let again =
        HandshakeMessagePayload::read_version(&mut rd, ProtocolVersion::TLSv1_3).unwrap();
    assert_eq!(again, client_hello(vec![9, 9]));
    assert!(!rd.any_left());
}

#[test]
fn binder_covers_everything_in_front_of_the_binders() {
    let mut hmp = client_hello(vec![0, 0]);
    let all = hmp.get_encoding();
    let signed = hmp.get_encoding_for_binder_signing();
    assert_eq!(signed, &all[..all.len() - 5]);
    if let HandshakePayload::ClientHello(ch) = &mut hmp.payload {
        ch.set_psk_binder(&[3, 4]);
    }
    assert_eq!(hmp, client_hello(vec![3, 4]));
    assert_eq!(hmp.get_encoding_for_binder_signing(), signed);
}

fn server_hello() -> ServerHelloPayload {
    ServerHelloPayload {
        legacy_version: ProtocolVersion::TLSv1_2,
        random: Random(vec![6; 32]),
        session_id: SessionID::empty(),
        cipher_suite: CipherSuite::TLS13_AES_128_GCM_SHA256,
        compression_method: Compression::Null,
        extensions: vec![
            ServerExtension::PresharedKey(3),
            ServerExtension::KeyShare(KeyShareEntry::new(NamedGroup::X25519, &[1])),
        ],
    }
}

#[test]
fn server_hello_reads_back() {
    let hmp = HandshakeMessagePayload {
        typ: HandshakeType::ServerHello,
        payload: HandshakePayload::ServerHello(server_hello()),
    };
    let bytes = hmp.get_encoding();
    let mut rd = Reader::init(&bytes);
    let again =
        HandshakeMessagePayload::read_version(&mut rd, ProtocolVersion::TLSv1_3).unwrap();
    assert_eq!(again, hmp);
    assert_eq!(server_hello().get_psk_index(), Some(3));
    assert_eq!(server_hello().get_key_share().unwrap().group, NamedGroup::X25519);
}

#[test]
fn hello_retry_request_goes_as_a_server_hello() {
    let hmp = HandshakeMessagePayload {
        typ: HandshakeType::HelloRetryRequest,
        payload: HandshakePayload::HelloRetryRequest(HelloRetryRequest {
            legacy_version: ProtocolVersion::TLSv1_2,
            session_id: SessionID::empty(),
            cipher_suite: CipherSuite::TLS13_AES_128_GCM_SHA256,
            extensions: vec![HelloRetryExtension::KeyShare(NamedGroup::secp384r1)],
        }),
    };
    let bytes = hmp.get_encoding();
    assert_eq!(bytes[0], 2);
    let mut rd = Reader::init(&bytes);
    let again =
        HandshakeMessagePayload::read_version(&mut rd, ProtocolVersion::TLSv1_3).unwrap();
    assert_eq!(again, hmp);
    if let HandshakePayload::HelloRetryRequest(req) = again.payload {
        assert_eq!(req.get_requested_key_share_group(), Some(NamedGroup::secp384r1));
    } else {
        panic!("not a retry request");
    }
}

#[test]
fn tickets_read_back() {
    let nst = NewSessionTicketPayloadTLS13 {
        lifetime: 1,
        age_add: 2,
        nonce: PayloadU8::new(vec![3]),
        ticket: PayloadU16::new(vec![4, 5]),
        exts: vec![],
    };
    let bytes = nst.get_encoding();
    assert_eq!(bytes, [0, 0, 0, 1, 0, 0, 0, 2, 1, 3, 0, 2, 4, 5, 0, 0]);
    assert_eq!(NewSessionTicketPayloadTLS13::read_bytes(&bytes).unwrap(), nst);
    assert_eq!(nst.get_max_early_data_size(), None);
}

#[test]
fn certificates_are_looked_into() {
    let payload = CertificatePayloadTLS13 {
        context: PayloadU8::new(vec![]),
        entries: vec![
            CertificateEntry {
                cert: Certificate(vec![1]),
                exts: vec![
                    CertificateExtension::CertificateStatus(vec![8]),
                    CertificateExtension::SignedCertificateTimestamp(vec![PayloadU16::new(vec![9])]),
                ],
            },
            CertificateEntry::new(Certificate(vec![2])),
        ],
    };
    let bytes = payload.get_encoding();
    assert_eq!(CertificatePayloadTLS13::read_bytes(&bytes).unwrap(), payload);
    assert_eq!(payload.convert(), [Certificate(vec![1]), Certificate(vec![2])]);
    assert_eq!(payload.get_end_entity_ocsp(), [8]);
    assert_eq!(payload.get_end_entity_scts().unwrap(), [PayloadU16::new(vec![9])]);
    assert!(!payload.any_entry_has_duplicate_extension());
    assert!(!payload.any_entry_has_unknown_extension());
}

#[test]
fn odd_certificate_extensions_are_noticed() {
    let unknown = || {
        CertificateExtension::Unknown(UnknownExtension {
            typ: ExtensionType::Unknown(0x1234),
            payload: Payload::new(&[]),
        })
    };
    let payload = CertificatePayloadTLS13 {
        context: PayloadU8::new(vec![]),
        entries: vec![CertificateEntry {
            cert: Certificate(vec![1]),
            exts: vec![unknown(), unknown()],
        }],
    };
    assert!(payload.any_entry_has_duplicate_extension());
    assert!(payload.any_entry_has_unknown_extension());
}

fn record(typ: u8, body: &[u8]) -> Vec<u8> {
    let mut bytes = vec![typ, 3, 4, (body.len() / 256) as u8, (body.len() % 256) as u8];
    bytes.extend_from_slice(body);
    bytes
}

fn read_record(bytes: &[u8]) -> Result<OpaqueMessage, MessageError> {
    OpaqueMessage::read(&mut Reader::init(bytes))
}

#[test]
fn records_are_read_or_refused() {
    let msg = read_record(&record(22, &[1, 2, 3])).unwrap();
    assert_eq!(msg.typ, ContentType::Handshake);
    assert_eq!(msg.version, ProtocolVersion::TLSv1_3);
    assert_eq!(msg.payload, Payload::new(&[1, 2, 3]));
    assert_eq!(read_record(&[22, 3, 3, 0]), Err(MessageError::TooShortForHeader));
    assert_eq!(read_record(&[22, 3, 3, 0, 2, 1]), Err(MessageError::TooShortForLength));
    assert_eq!(read_record(&[22, 3, 3, 0, 0]), Err(MessageError::IllegalLength));
    assert_eq!(read_record(&[22, 3, 3, 0x48, 0]), Err(MessageError::IllegalLength));
    assert_eq!(read_record(&[99, 3, 3, 0, 1, 0]), Err(MessageError::IllegalContentType));
    assert_eq!(read_record(&[22, 9, 3, 0, 1, 0]), Err(MessageError::IllegalProtocolVersion));
    assert!(read_record(&[22, 3, 99, 0, 1, 0]).is_ok());
    assert!(read_record(&[23, 3, 3, 0, 0]).is_ok());
}

#[test]
fn records_are_looked_into() {
    let alert = Message::try_from(read_record(&record(21, &[2, 50])).unwrap()).unwrap();
    assert_eq!(alert.payload, Message::build_alert(AlertLevel::Fatal, AlertDescription::DecodeError).payload);
    let ccs = Message::try_from(read_record(&record(20, &[1])).unwrap()).unwrap();
    assert!(matches!(ccs.payload, MessagePayload::ChangeCipherSpec(_)));
    let update = Message::try_from(read_record(&record(22, &[24, 0, 0, 1, 0])).unwrap()).unwrap();
    assert_eq!(update, Message::build_key_update_notify());
    let data = Message::try_from(read_record(&record(23, &[4, 5])).unwrap()).unwrap();
    assert_eq!(data.payload, MessagePayload::Opaque(Payload::new(&[4, 5])));
    for bad in [record(21, &[2]), record(20, &[2]), record(22, &[24, 0, 0, 1, 0, 0])] {
        let opaque = read_record(&bad).unwrap();
        let typ = opaque.typ;
        assert_eq!(Message::try_from(opaque), Err(TlsError::CorruptMessagePayload(typ)));
    }
}

#[test]
fn messages_are_joined_across_records() {
    let mut joiner = HandshakeJoiner::new();
    let first = read_record(&record(22, &[24, 0, 0, 1, 1, 24, 0])).unwrap();
    assert!(joiner.want_message(&first));
    assert!(!joiner.want_message(&read_record(&record(23, &[1])).unwrap()));
    joiner.take_message(first);
    let (mut iter, aligned) = joiner.iter();
    assert!(!aligned);
    assert!(!joiner.is_empty());
    let msg = Message::try_from(iter.pop().unwrap().unwrap()).unwrap();
    assert!(msg.is_handshake_type(HandshakeType::KeyUpdate));
    assert!(iter.pop().is_none());
    joiner.take_message(read_record(&record(22, &[0, 1, 0])).unwrap());
    let (mut iter, aligned) = joiner.iter();
    assert!(aligned);
    assert!(joiner.is_empty());
    assert_eq!(
        Message::try_from(iter.pop().unwrap().unwrap()).unwrap(),
        Message::build_key_update_notify()
    );
    assert!(iter.pop().is_none());
}

#[test]
fn malformed_messages_are_reported_once() {
    let mut joiner = HandshakeJoiner::new();
    joiner.take_message(read_record(&record(22, &[24, 0, 0, 0, 24, 0, 0, 1, 0])).unwrap());
    let (mut iter, _) = joiner.iter();
    assert_eq!(
        iter.pop().unwrap(),
        Err(TlsError::CorruptMessagePayload(ContentType::Handshake))
    );
    assert!(iter.pop().unwrap().is_ok());
    assert!(iter.pop().is_none());
}

#[test]
fn messages_of_a_record_are_all_read() {
    let bytes = record(22, &[24, 0, 0, 0, 24, 0, 0, 1, 0, 24, 0, 0, 1, 1, 24]);
    let messages = messages_of_record(&bytes);
    assert_eq!(messages.len(), 2);
    assert_eq!(messages[0], Message::build_key_update_notify());
    assert!(messages_of_record(&record(23, &[24, 0, 0, 1, 0])).is_empty());
    assert!(messages_of_record(&[22]).is_empty());
}

#[test]
fn messages_that_are_not_due_are_refused() {
    let update = Message::build_key_update_notify();
    assert_eq!(
        check_message(&update, vec![ContentType::Alert], vec![]),
        Err(TlsError::InappropriateMessage {
            expect_types: vec![ContentType::Alert],
            got_type: ContentType::Handshake,
        })
    );
    assert_eq!(
        check_message(&update, vec![ContentType::Handshake], vec![HandshakeType::Finished]),
        Err(TlsError::InappropriateHandshakeMessage {
            expect_types: vec![HandshakeType::Finished],
            got_type: HandshakeType::KeyUpdate,
        })
    );
    assert_eq!(
        check_message(&update, vec![ContentType::Handshake], vec![HandshakeType::KeyUpdate]),
        Ok(())
    );
}

#[test]
fn unknown_code_points_survive() {
    assert_eq!(NamedGroup::read_bytes(&[0x12, 0x34]), Some(NamedGroup::Unknown(0x1234)));
    assert_eq!(NamedGroup::Unknown(0x1234).get_encoding(), [0x12, 0x34]);
    assert_eq!(KeyUpdateRequest::read_bytes(&[9]), Some(KeyUpdateRequest::Unknown(9)));
    let dss = DigitallySignedStruct::new(SignatureScheme::ED25519, vec![1]);
    assert_eq!(dss.get_encoding(), [8, 7, 0, 1, 1]);
}
