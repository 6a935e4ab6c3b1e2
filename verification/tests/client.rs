use rustls::base::{Payload, PayloadU16, PayloadU8};
use rustls::client::common::{ClientAuthDetails, ClientHelloDetails, HandshakeDetails};
use rustls::client::handy::{
    AlwaysResolvesClientCert, AnonymousClient, AuthenticatedClient, ClientSessionMemoryCache,
    FailResolveClientCert, NoClientSessionStorage,
};
use rustls::client::tls13::finish::{
    check_finished, emit_certverify_tls13, emit_end_of_early_data_tls13,
};
use rustls::client::tls13::states::{
    send_cert_error_alert, ClientState, ExpectEncryptedExtensions,
};
use rustls::client::tls13::{
    choose_kx_groups, derive_early_traffic_secret, emit_fake_ccs, fill_in_psk_binder, find_kx_hint,
    offer_key_share, prepare_resumption, prepare_resumption_at, save_kx_hint,
    start_handshake_traffic, start_handshake_traffic_given, try_start_handshake_traffic,
    validate_encrypted_extensions, validate_server_hello,
};
use rustls::client::{
    ClientConfig, ClientSession, EarlyDataState, Hooks, StoresClientSessions,
};
use rustls::codec::Codec;
use rustls::crypto::{HashAlgorithm, SupportedKxGroup};
use rustls::enums::{
    AlertDescription, CipherSuite, Compression, ContentType, ExtensionType, HandshakeType,
    KeyUpdateRequest, NamedGroup, ProtocolVersion, SignatureScheme,
};
use rustls::error::{PKIError, TlsError, WebPKIOp};
use rustls::extensions::{
    CertReqExtension, CertificateExtension, ClientExtension, HelloRetryExtension, KeyShareEntry,
    NewSessionTicketExtension, ServerExtension, UnknownExtension,
};
use rustls::handshake::{
    CertificateEntry, CertificatePayloadTLS13, CertificateRequestPayloadTLS13, ClientHelloPayload,
    DigitallySignedStruct, HandshakeMessagePayload, HandshakePayload, HelloRetryRequest,
    NewSessionTicketPayloadTLS13, Random, ServerHelloPayload, SessionID,
};
use rustls::hash_hs::HandshakeHash;
use rustls::key::Certificate;
use rustls::key_log::KeyLog;
use rustls::key_schedule::{
    derive_traffic_keys, KeyScheduleEarly, KeyScheduleHandshake, KeyScheduleNonSecret,
};
use rustls::kx::{KeyExchange, KeyExchangeResult};
use rustls::message::{ChangeCipherSpecPayload, Message, MessagePayload, OpaqueMessage};
use rustls::persist::{
    ClientSessionKey, ClientSessionValue, ClientSessionValueWithResolvedCipherSuite,
};
use rustls::pki::ServerName;
use rustls::server::common::{ClientCertDetails, ServerKxDetails};
use rustls::session::{Protocol, SessionRandoms};
use rustls::sign::Ed25519SigningKey;
use rustls::suites::{SupportedCipherSuite, TLS13_AES_128_GCM_SHA256, TLS13_AES_256_GCM_SHA384};
use rustls::ticketer::TimeBase;
use rustls::verify::{construct_tls13_client_verify_message, PresetVerifier, Verdict};

use std::convert::TryFrom;

const SUITE: SupportedCipherSuite = TLS13_AES_128_GCM_SHA256;

fn name() -> ServerName {
    ServerName::try_from("example.com").unwrap()
}

fn verdicts(cert: Verdict, signature: Verdict) -> PresetVerifier {
    PresetVerifier { cert, signature }
}

fn session(protocol: Protocol) -> ClientSession<AnonymousClient> {
    let mut sess = ClientSession::new(
        ClientConfig {
            kx_groups: vec![SupportedKxGroup::X25519, SupportedKxGroup::SECP256R1],
            alpn_protocols: vec![PayloadU8::new(b"h2".to_vec())],
            enable_early_data: true,
            session_persistence: ClientSessionMemoryCache::new(),
            client_auth_cert_resolver: FailResolveClientCert {},
            verifier: verdicts(Verdict::Accepted, Verdict::Accepted),
            key_log: KeyLog::new(true),
        },
        protocol,
    );
    sess.common.suite = Some(SUITE);
    sess
}

fn auth_session(pkcs8: Vec<u8>) -> ClientSession<AuthenticatedClient> {
    let mut sess = ClientSession::new(
        ClientConfig {
            kx_groups: vec![SupportedKxGroup::X25519],
            alpn_protocols: vec![],
            enable_early_data: false,
            session_persistence: NoClientSessionStorage {},
            client_auth_cert_resolver: AlwaysResolvesClientCert {
                cert: vec![Certificate(vec![0xcc])],
                key: Ed25519SigningKey { pkcs8 },
            },
            verifier: verdicts(Verdict::Accepted, Verdict::Accepted),
            key_log: KeyLog::new(false),
        },
        Protocol::Tls13,
    );
    sess.common.suite = Some(SUITE);
    sess
}

fn alert_of<T: Hooks>(sess: &ClientSession<T>) -> u8 {
    assert!(sess.common.sent_fatal_alert);
    let record = sess.common.sendable_tls.last().unwrap();
    assert_eq!(record.typ, ContentType::Alert);
    assert_eq!(record.payload[0], 2);
    record.payload[1]
}

fn unknown(typ: ExtensionType) -> ServerExtension {
    ServerExtension::Unknown(UnknownExtension { typ, payload: Payload::new(&[]) })
}

fn server_hello(extensions: Vec<ServerExtension>) -> ServerHelloPayload {
    ServerHelloPayload {
        legacy_version: ProtocolVersion::TLSv1_2,
        random: Random(vec![6; 32]),
        session_id: SessionID::empty(),
        cipher_suite: CipherSuite::TLS13_AES_128_GCM_SHA256,
        compression_method: Compression::Null,
        extensions,
    }
}

fn handshake_message(typ: HandshakeType, payload: HandshakePayload) -> Message {
    Message::build_handshake(typ, payload)
}

fn transcript() -> HandshakeHash {
    let mut transcript = HandshakeHash::new();
    transcript.start_hash(HashAlgorithm::SHA256);
    transcript.update_raw(b"hellos");
    transcript
}

fn randoms() -> SessionRandoms {
    SessionRandoms { client: [3; 32] }
}

fn resumable(max_early_data_size: u32) -> ClientSessionValueWithResolvedCipherSuite {
    let mut value = ClientSessionValueWithResolvedCipherSuite::new(
        ProtocolVersion::TLSv1_3,
        SUITE,
        &SessionID::empty(),
        vec![1, 2, 3],
        vec![4; 32],
        &vec![Certificate(b"kept".to_vec())],
        TimeBase { secs: 100 },
    );
    value.set_max_early_data_size(max_early_data_size);
    value
}

#[test]
fn cleartext_extensions_are_limited() {
    let mut sess = session(Protocol::Tls13);
    let good = server_hello(vec![
        ServerExtension::PresharedKey(0),
        unknown(ExtensionType::SupportedVersions),
    ]);
    assert_eq!(validate_server_hello(&mut sess, &good), Ok(()));
    assert!(!sess.common.sent_fatal_alert);
    let bad = server_hello(vec![ServerExtension::EarlyData]);
    assert_eq!(
        validate_server_hello(&mut sess, &bad),
        Err(TlsError::PeerMisbehavedError("server sent unexpected cleartext ext".to_string()))
    );
    assert_eq!(alert_of(&sess), AlertDescription::UnsupportedExtension.get_u8());
}

#[test]
fn liked_group_is_remembered() {
    let mut sess = session(Protocol::Tls13);
    assert_eq!(find_kx_hint(&sess, &name()), None);
    save_kx_hint(&mut sess, &name(), NamedGroup::secp384r1);
    assert_eq!(find_kx_hint(&sess, &name()), Some(NamedGroup::secp384r1));
    let other = ServerName::try_from("other.example").unwrap();
    assert_eq!(find_kx_hint(&sess, &other), None);
}

fn offered_groups(exts: &Vec<ClientExtension>) -> Vec<NamedGroup> {
    match exts.last() {
        Some(ClientExtension::KeyShare(shares)) => shares.iter().map(|s| s.group).collect(),
        _ => panic!("no key share"),
    }
}

fn retry(group: NamedGroup) -> HelloRetryRequest {
    HelloRetryRequest {
        legacy_version: ProtocolVersion::TLSv1_2,
        session_id: SessionID::empty(),
        cipher_suite: CipherSuite::TLS13_AES_128_GCM_SHA256,
        extensions: vec![HelloRetryExtension::KeyShare(group)],
    }
}

#[test]
fn groups_are_chosen_in_order_of_preference() {
    let mut sess = session(Protocol::Tls13);
    let mut hello = ClientHelloDetails::new();
    let mut exts = vec![];
    choose_kx_groups(&sess, &mut exts, &mut hello, &name(), None);
    assert_eq!(offered_groups(&exts), [NamedGroup::X25519]);
    save_kx_hint(&mut sess, &name(), NamedGroup::secp256r1);
    choose_kx_groups(&sess, &mut exts, &mut hello, &name(), None);
    assert_eq!(offered_groups(&exts), [NamedGroup::secp256r1]);
    // The server's request goes before what it is remembered to like; the share that was
    // offered before is not altered.
    let before = hello.offered_key_shares[0].pubkey.clone();
    choose_kx_groups(&sess, &mut exts, &mut hello, &name(), Some(&retry(NamedGroup::X25519)));
    assert_eq!(offered_groups(&exts), [NamedGroup::X25519]);
    if let Some(ClientExtension::KeyShare(shares)) = exts.last() {
        assert_eq!(shares[0].payload.0, before);
    }
    assert_eq!(hello.offered_key_shares.len(), 2);
    assert_eq!(hello.offered_key_shares[1].pubkey, before);
    // No share can be offered in a group that is not configured.
    choose_kx_groups(&sess, &mut exts, &mut hello, &name(), Some(&retry(NamedGroup::secp384r1)));
    assert!(offered_groups(&exts).is_empty());
}

#[test]
fn shares_are_offered() {
    let mut hello = ClientHelloDetails::new();
    let mut exts = vec![];
    offer_key_share(&mut exts, &mut hello, NamedGroup::X25519, None);
    assert!(offered_groups(&exts).is_empty());
    assert!(hello.offered_key_shares.is_empty());
    let share = KeyExchange::start(SupportedKxGroup::X25519).unwrap();
    let pubkey = share.pubkey.clone();
    offer_key_share(&mut exts, &mut hello, NamedGroup::X25519, Some(share));
    assert_eq!(
        exts[1],
        ClientExtension::KeyShare(vec![KeyShareEntry::new(NamedGroup::X25519, &pubkey)])
    );
    assert_eq!(hello.offered_key_shares.len(), 1);
}

#[test]
fn binder_is_that_of_the_finished_message() {
    let mut sess = session(Protocol::Tls13);
    let resuming = resumable(0);
    let mut exts = vec![];
    prepare_resumption_at(
        &mut sess,
        vec![1, 2, 3],
        &resuming,
        &mut exts,
        false,
        TimeBase { secs: 107 },
    );
    assert_eq!(sess.resumption_ciphersuite, Some(SUITE));
    assert_eq!(exts.len(), 1);
    let mut hmp = HandshakeMessagePayload {
        typ: HandshakeType::ClientHello,
        payload: HandshakePayload::ClientHello(ClientHelloPayload {
            client_version: ProtocolVersion::TLSv1_2,
            random: Random(vec![5; 32]),
            session_id: SessionID::empty(),
            cipher_suites: vec![CipherSuite::TLS13_AES_128_GCM_SHA256],
            compression_methods: vec![Compression::Null],
            extensions: exts,
        }),
    };
    let transcript = HandshakeHash::new();
    let ks = fill_in_psk_binder(&resuming, &transcript, &mut hmp);
    let hash = transcript
        .get_hash_given(HashAlgorithm::SHA256, &hmp.get_encoding_for_binder_signing());
    let expected = ks.resumption_psk_binder_key_and_sign_verify_data(&hash);
    if let HandshakePayload::ClientHello(ch) = &hmp.payload {
        if let Some(ClientExtension::PresharedKey(offer)) = ch.extensions.last() {
            assert_eq!(offer.binders, [PayloadU8::new(expected)]);
            assert_eq!(offer.identities[0].identity, PayloadU16::new(vec![1, 2, 3]));
            assert_eq!(offer.identities[0].obfuscated_ticket_age, 7000);
        } else {
            panic!("no offer");
        }
    }
}

#[test]
fn early_data_goes_along_with_the_offer() {
    let mut sess = session(Protocol::Tls13);
    let mut exts = vec![];
    prepare_resumption(&mut sess, vec![1], &resumable(500), &mut exts, false).unwrap();
    assert_eq!(exts.len(), 2);
    assert_eq!(exts[0], ClientExtension::EarlyData);
    assert_eq!(sess.early_data.state, EarlyDataState::Ready);
    assert_eq!(sess.early_data.left, 500);
    let mut again = session(Protocol::Tls13);
    let mut exts = vec![];
    prepare_resumption(&mut again, vec![1], &resumable(500), &mut exts, true).unwrap();
    assert_eq!(exts.len(), 1);
    assert_eq!(again.early_data.state, EarlyDataState::Disabled);
}

#[test]
fn change_cipher_spec_is_sent_once() {
    let mut sess = session(Protocol::Tls13);
    let mut sent = false;
    emit_fake_ccs(&mut sent, &mut sess);
    emit_fake_ccs(&mut sent, &mut sess);
    assert!(sent);
    assert_eq!(sess.common.sendable_tls.len(), 1);
    assert_eq!(sess.common.sendable_tls[0].typ, ContentType::ChangeCipherSpec);
    assert_eq!(sess.common.sendable_tls[0].payload, [1]);
    assert!(sess.common.sendable_tls[0].keys.is_none());
    let mut quic = session(Protocol::Quic);
    let mut sent = false;
    emit_fake_ccs(&mut sent, &mut quic);
    assert!(!sent);
    assert!(quic.common.quic.hs_queue.is_empty());
}

#[test]
fn early_traffic_has_its_own_keys() {
    for protocol in [Protocol::Tls13, Protocol::Quic] {
        let mut sess = session(protocol);
        let ks = KeyScheduleEarly::new(HashAlgorithm::SHA256, &[4; 32]);
        let mut sent = false;
        derive_early_traffic_secret(
            &mut sess,
            &resumable(1),
            &ks,
            &mut sent,
            &transcript(),
            &[3; 32],
        );
        let mut log = KeyLog::new(true);
        let hash = transcript().get_current_hash();
        let secret = ks.client_early_traffic_secret(&hash, &mut log, &[3; 32]);
        assert!(sess.common.early_traffic);
        assert_eq!(
            sess.common.record_layer.encrypter,
            Some(derive_traffic_keys(SUITE, &secret))
        );
        assert_eq!(sess.config.key_log.entries, log.entries);
        assert_eq!(sess.common.quic.early_secret, Some(secret));
        assert_eq!(sent, protocol == Protocol::Tls13);
    }
}

#[test]
fn encrypted_extensions_are_held_against_the_hello() {
    let mut hello = ClientHelloDetails::new();
    hello.sent_extensions = vec![ExtensionType::EarlyData, ExtensionType::SessionTicket];
    let mut sess = session(Protocol::Tls13);
    let cases: Vec<(Vec<ServerExtension>, &str, AlertDescription)> = vec![
        (
            vec![ServerExtension::EarlyData, ServerExtension::EarlyData],
            "server sent duplicate encrypted extensions",
            AlertDescription::DecodeError,
        ),
        (
            vec![ServerExtension::TransportParameters(vec![])],
            "server sent unsolicited encrypted extension",
            AlertDescription::UnsupportedExtension,
        ),
        (
            vec![ServerExtension::EarlyData, unknown(ExtensionType::SessionTicket)],
            "server sent inappropriate encrypted extension",
            AlertDescription::UnsupportedExtension,
        ),
    ];
    for (exts, why, alert) in cases {
        assert_eq!(
            validate_encrypted_extensions(&mut sess, &hello, &exts),
            Err(TlsError::PeerMisbehavedError(why.to_string()))
        );
        assert_eq!(alert_of(&sess), alert.get_u8());
    }
    let good = vec![ServerExtension::EarlyData];
    assert_eq!(validate_encrypted_extensions(&mut sess, &hello, &good), Ok(()));
}

// What the server of these tests knows.
struct Server {
    ks: KeyScheduleHandshake,
    transcript: HandshakeHash,
}

impl Server {
    fn message(&mut self, typ: HandshakeType, payload: HandshakePayload) -> Message {
        let m = handshake_message(typ, payload);
        self.transcript.add_message(&m);
        m
    }

    fn finished(&mut self) -> Message {
        let data = self.ks.sign_server_finish(&self.transcript.get_current_hash());
        self.message(HandshakeType::Finished, HandshakePayload::Finished(Payload::new(&data)))
    }
}

fn start<T: Hooks>(
    sess: &mut ClientSession<T>,
    sent_extensions: Vec<ExtensionType>,
) -> (ExpectEncryptedExtensions, Server) {
    let mut hello = ClientHelloDetails::new();
    hello.sent_extensions = sent_extensions;
    let mut exts = vec![];
    choose_kx_groups(sess, &mut exts, &mut hello, &name(), None);
    let client_key = hello.offered_key_shares[0].pubkey.clone();
    let server_kx = KeyExchange::start(SupportedKxGroup::X25519).unwrap();
    let sh = server_hello(vec![ServerExtension::KeyShare(KeyShareEntry::new(
        NamedGroup::X25519,
        &server_kx.pubkey,
    ))]);
    let mut handshake = HandshakeDetails::new(None);
    let (key_schedule, hash) = start_handshake_traffic(
        SUITE,
        sess,
        None,
        &sh,
        &mut handshake,
        &name(),
        &transcript(),
        &mut hello,
        &randoms(),
    )
    .unwrap();
    assert!(hello.offered_key_shares.is_empty());
    assert_eq!(
        find_kx_hint(sess, &name()),
        if stores(sess) { Some(NamedGroup::X25519) } else { None }
    );
    let shared = server_kx.complete(&client_key).unwrap().shared_secret;
    let mut ks = KeyScheduleNonSecret::new(HashAlgorithm::SHA256).into_handshake(&shared);
    let mut log = KeyLog::new(false);
    let client = ks.client_handshake_traffic_secret(&hash, &mut log, &[3; 32]);
    let server = ks.server_handshake_traffic_secret(&hash, &mut log, &[3; 32]);
    assert_eq!(sess.common.record_layer.encrypter, Some(derive_traffic_keys(SUITE, &client)));
    assert_eq!(sess.common.record_layer.decrypter, Some(derive_traffic_keys(SUITE, &server)));
    let secrets = sess.common.quic.hs_secrets.as_ref().unwrap();
    assert_eq!((&secrets.client, &secrets.server), (&client, &server));
    assert_eq!(sess.early_data.state, EarlyDataState::Rejected);
    let st = ExpectEncryptedExtensions {
        handshake,
        dns_name: name(),
        randoms: randoms(),
        transcript: transcript(),
        key_schedule,
        hello,
        hash_at_client_recvd_server_hello: hash,
    };
    (st, Server { ks, transcript: transcript() })
}

fn stores<T: Hooks>(sess: &ClientSession<T>) -> bool {
    let key = ClientSessionKey::hint_for_server_name(&name()).get_encoding();
    sess.config.session_persistence.get(&key).is_some()
}

fn certificate(context: Vec<u8>, exts: Vec<CertificateExtension>) -> HandshakePayload {
    HandshakePayload::CertificateTLS13(CertificatePayloadTLS13 {
        context: PayloadU8::new(context),
        entries: vec![CertificateEntry { cert: Certificate(b"server".to_vec()), exts }],
    })
}

fn signature() -> HandshakePayload {
    HandshakePayload::CertificateVerify(DigitallySignedStruct::new(
        SignatureScheme::ED25519,
        vec![1],
    ))
}

fn request(context: Vec<u8>, schemes: Vec<SignatureScheme>) -> HandshakePayload {
    HandshakePayload::CertificateRequestTLS13(CertificateRequestPayloadTLS13 {
        context: PayloadU8::new(context),
        extensions: vec![CertReqExtension::SignatureAlgorithms(schemes)],
    })
}

// Runs a handshake without a request for a certificate to its end.
fn run(
    sess: &mut ClientSession<AnonymousClient>,
    exts: Vec<ServerExtension>,
) -> (ClientState<AnonymousClient>, Server) {
    let sent = vec![ExtensionType::ALProtocolNegotiation, ExtensionType::TransportParameters];
    let (st, mut server) = start(sess, sent);
    let mut state = ClientState::ExpectEncryptedExtensions(st);
    let messages = [
        (HandshakeType::EncryptedExtensions, HandshakePayload::EncryptedExtensions(exts)),
        (HandshakeType::Certificate, certificate(vec![], vec![])),
        (HandshakeType::CertificateVerify, signature()),
    ];
    for (typ, payload) in messages {
        let m = server.message(typ, payload);
        state = state.handle(sess, m).map_err(|_| ()).unwrap();
    }
    let m = server.finished();
    (state.handle(sess, m).map_err(|_| ()).unwrap(), server)
}

#[test]
fn full_handshake() {
    let mut sess = session(Protocol::Tls13);
    sess.common.sendable_plaintext.push(Payload::new(b"waiting"));
    let alpn = ServerExtension::Protocols(vec![PayloadU8::new(b"h2".to_vec())]);
    let params = ServerExtension::TransportParameters(vec![9]);
    let (state, server) = run(&mut sess, vec![alpn, params]);
    assert!(matches!(state, ClientState::ExpectTraffic(_)));
    assert_eq!(sess.common.quic.params, Some(vec![9]));
    assert!(sess.common.quic.traffic_secrets.is_none());
    assert!(sess.common.traffic);
    assert_eq!(sess.common.alpn_protocol, Some(b"h2".to_vec()));
    assert_eq!(sess.server_cert_chain, [Certificate(b"server".to_vec())]);
    // The client's Finished message is the one that the server expects, under the keys of
    // the handshake; what was waiting follows under those of the session.
    let hash = server.transcript.get_current_hash();
    let mut log = KeyLog::new(false);
    let handshake_keys =
        derive_traffic_keys(SUITE, server.ks.current_client_traffic_secret.as_ref().unwrap());
    let mut pending = server.ks.into_traffic_with_client_finished_pending();
    let data = pending.sign_client_finish(&hash);
    let client = pending.client_application_traffic_secret(&hash, &mut log, &[3; 32]);
    let server_secret = pending.server_application_traffic_secret(&hash, &mut log, &[3; 32]);
    let sent = &sess.common.sendable_tls;
    assert_eq!(sent.len(), 2);
    assert_eq!(sent[0].payload[..4], [20, 0, 0, 32]);
    assert_eq!(sent[0].payload[4..], data);
    assert_eq!(sent[0].keys, Some(handshake_keys));
    assert_eq!(sent[1].typ, ContentType::ApplicationData);
    assert_eq!(sent[1].payload, b"waiting");
    assert_eq!(sent[1].keys, Some(derive_traffic_keys(SUITE, &client)));
    assert_eq!(
        sess.common.record_layer.decrypter,
        Some(derive_traffic_keys(SUITE, &server_secret))
    );
    let labels: Vec<&str> = sess.config.key_log.entries.iter().map(|e| e.label.text()).collect();
    assert_eq!(
        labels,
        [
            "CLIENT_HANDSHAKE_TRAFFIC_SECRET",
            "SERVER_HANDSHAKE_TRAFFIC_SECRET",
            "SERVER_TRAFFIC_SECRET_0",
            "EXPORTER_SECRET",
            "CLIENT_TRAFFIC_SECRET_0",
        ]
    );
}

#[test]
fn quic_handshake() {
    let mut sess = session(Protocol::Quic);
    let params = ServerExtension::TransportParameters(vec![1, 2, 3]);
    let (state, _) = run(&mut sess, vec![params]);
    assert_eq!(sess.common.quic.params, Some(vec![1, 2, 3]));
    assert!(sess.common.quic.hs_secrets.is_some());
    assert!(sess.common.quic.traffic_secrets.is_some());
    assert!(sess.common.sendable_tls.is_empty());
    assert_eq!(sess.common.quic.hs_queue.len(), 1);
    assert!(sess.common.quic.hs_queue[0].encrypted);
    let state = state.handle(&mut sess, ticket(vec![])).map_err(|_| ()).unwrap();
    assert!(matches!(state, ClientState::ExpectQUICTraffic(_)));
    let key = ClientSessionKey::session_for_server_name(&name()).get_encoding();
    let stored = sess.config.session_persistence.get(&key).unwrap();
    assert_eq!(stored[stored.len() - 5..], [0, 3, 1, 2, 3]);
    let bad = ticket(vec![NewSessionTicketExtension::EarlyData(5)]);
    match state.handle(&mut sess, bad) {
        Err(err) => assert_eq!(
            err,
            TlsError::PeerMisbehavedError("invalid max_early_data_size".to_string())
        ),
        Ok(_) => panic!("accepted"),
    }
}

#[test]
fn quic_has_no_key_updates() {
    let mut sess = session(Protocol::Quic);
    let (state, _) = run(&mut sess, vec![ServerExtension::TransportParameters(vec![])]);
    match state {
        ClientState::ExpectQUICTraffic(mut st) => {
            assert_eq!(
                st.0.handle_key_update(&mut sess, &KeyUpdateRequest::UpdateRequested),
                Err(TlsError::PeerMisbehavedError(
                    "KeyUpdate received in QUIC connection".to_string()
                ))
            );
            assert_eq!(sess.common.quic.alert, Some(AlertDescription::UnexpectedMessage));
        }
        _ => panic!("not QUIC"),
    }
}

fn ticket(exts: Vec<NewSessionTicketExtension>) -> Message {
    handshake_message(
        HandshakeType::NewSessionTicket,
        HandshakePayload::NewSessionTicketTLS13(NewSessionTicketPayloadTLS13 {
            lifetime: 7200,
            age_add: 99,
            nonce: PayloadU8::new(vec![0]),
            ticket: PayloadU16::new(b"ticket".to_vec()),
            exts,
        }),
    )
}

#[test]
fn tickets_are_stored_and_read_back() {
    let mut sess = session(Protocol::Tls13);
    let (state, _) = run(&mut sess, vec![]);
    let before = TimeBase::now().unwrap().as_secs();
    let m = ticket(vec![NewSessionTicketExtension::EarlyData(77)]);
    let state = state.handle(&mut sess, m).map_err(|_| ()).unwrap();
    let key = ClientSessionKey::session_for_server_name(&name()).get_encoding();
    let stored = sess.config.session_persistence.get(&key).unwrap();
    let value = ClientSessionValue::read_bytes(&stored).unwrap();
    assert_eq!(value.version, ProtocolVersion::TLSv1_3);
    assert_eq!(value.cipher_suite, CipherSuite::TLS13_AES_128_GCM_SHA256);
    assert_eq!(value.ticket.0, b"ticket");
    assert_eq!((value.lifetime, value.age_add, value.max_early_data_size), (7200, 99, 77));
    assert!(value.epoch >= before);
    assert_eq!(value.server_cert_chain, [Certificate(b"server".to_vec())]);
    match state {
        ClientState::ExpectTraffic(st) => {
            let hash = st.transcript.get_current_hash();
            let secret =
                st.key_schedule.resumption_master_secret_and_derive_ticket_psk(&hash, &[0]);
            assert_eq!(value.master_secret.0, secret);
        }
        _ => panic!("not running"),
    }
}

#[test]
fn key_updates_are_followed_and_answered() {
    let mut sess = session(Protocol::Tls13);
    let (state, _) = run(&mut sess, vec![]);
    let update = |kur| handshake_message(HandshakeType::KeyUpdate, HandshakePayload::KeyUpdate(kur));
    let decrypter = |sess: &ClientSession<AnonymousClient>| {
        sess.common.record_layer.decrypter.as_ref().unwrap().key.clone()
    };
    let old = decrypter(&sess);
    let mut state = state
        .handle(&mut sess, update(KeyUpdateRequest::UpdateNotRequested))
        .map_err(|_| ())
        .unwrap();
    assert_ne!(decrypter(&sess), old);
    let sent = sess.common.sendable_tls.len();
    state.perhaps_write_key_update(&mut sess);
    assert_eq!(sess.common.sendable_tls.len(), sent);
    let mut state = state
        .handle(&mut sess, update(KeyUpdateRequest::UpdateRequested))
        .map_err(|_| ())
        .unwrap();
    let keys = sess.common.record_layer.encrypter.as_ref().unwrap().duplicate();
    state.perhaps_write_key_update(&mut sess);
    state.perhaps_write_key_update(&mut sess);
    assert_eq!(sess.common.sendable_tls.len(), sent + 1);
    let record = sess.common.sendable_tls.last().unwrap();
    assert_eq!(record.payload, [24, 0, 0, 1, 0]);
    assert_eq!(record.keys.as_ref(), Some(&keys));
    assert_ne!(sess.common.record_layer.encrypter, Some(keys));
    match state.handle(&mut sess, update(KeyUpdateRequest::Unknown(9))) {
        Err(err) => assert_eq!(err, TlsError::CorruptMessagePayload(ContentType::Handshake)),
        Ok(_) => panic!("accepted"),
    }
    assert_eq!(alert_of(&sess), AlertDescription::IllegalParameter.get_u8());
}

#[test]
fn keys_are_not_changed_in_the_middle_of_a_message() {
    let mut sess = session(Protocol::Tls13);
    let (state, _) = run(&mut sess, vec![]);
    sess.common.handshake_joiner.take_message(OpaqueMessage {
        typ: ContentType::Handshake,
        version: ProtocolVersion::TLSv1_3,
        payload: Payload::new(&[20, 0]),
    });
    match state.handle(&mut sess, Message::build_key_update_notify()) {
        Err(err) => assert_eq!(
            err,
            TlsError::PeerMisbehavedError("keys changed with pending hs fragment".to_string())
        ),
        Ok(_) => panic!("accepted"),
    }
    assert_eq!(alert_of(&sess), AlertDescription::UnexpectedMessage.get_u8());
}

#[test]
fn application_data_is_delivered() {
    let mut sess = session(Protocol::Tls13);
    let (state, _) = run(&mut sess, vec![]);
    let data = Message {
        typ: ContentType::ApplicationData,
        version: ProtocolVersion::TLSv1_3,
        payload: MessagePayload::Opaque(Payload::new(b"data")),
    };
    let state = state.handle(&mut sess, data).map_err(|_| ()).unwrap();
    assert_eq!(sess.common.received_plaintext, [Payload::new(b"data")]);
    let mut out = [0u8; 8];
    assert_eq!(state.export_keying_material(&mut out, b"label", None), Ok(()));
    assert_ne!(out, [0; 8]);
    let m = handshake_message(
        HandshakeType::Finished,
        HandshakePayload::Finished(Payload::new(&[])),
    );
    match state.handle(&mut sess, m) {
        Err(err) => assert_eq!(
            err,
            TlsError::InappropriateHandshakeMessage {
                expect_types: vec![HandshakeType::NewSessionTicket, HandshakeType::KeyUpdate],
                got_type: HandshakeType::Finished,
            }
        ),
        Ok(_) => panic!("accepted"),
    }
}

#[test]
fn nothing_is_exported_during_the_handshake() {
    let mut sess = session(Protocol::Tls13);
    let (st, _) = start(&mut sess, vec![]);
    let state: ClientState<AnonymousClient> = ClientState::ExpectEncryptedExtensions(st);
    let mut out = [7u8; 8];
    assert_eq!(
        state.export_keying_material(&mut out, b"label", None),
        Err(TlsError::HandshakeNotComplete)
    );
    assert_eq!(out, [7; 8]);
}

fn refused(r: Result<ClientState<AnonymousClient>, TlsError>) -> TlsError {
    match r {
        Ok(_) => panic!("accepted"),
        Err(err) => err,
    }
}

fn misbehaved(why: &str) -> TlsError {
    TlsError::PeerMisbehavedError(why.to_string())
}

#[test]
fn wrong_finished_message_is_refused() {
    let mut sess = session(Protocol::Tls13);
    let (st, mut server) = start(&mut sess, vec![]);
    let m = server.message(
        HandshakeType::EncryptedExtensions,
        HandshakePayload::EncryptedExtensions(vec![]),
    );
    let state = st.handle(&mut sess, m).map_err(|_| ()).unwrap();
    let m = server.message(HandshakeType::Certificate, certificate(vec![], vec![]));
    let state = state.handle(&mut sess, m).map_err(|_| ()).unwrap();
    let m = server.message(HandshakeType::CertificateVerify, signature());
    let state = state.handle(&mut sess, m).map_err(|_| ()).unwrap();
    server.transcript.update_raw(b"tampered");
    let m = server.finished();
    assert_eq!(refused(state.handle(&mut sess, m)), TlsError::DecryptError);
    assert_eq!(alert_of(&sess), AlertDescription::DecryptError.get_u8());
    assert!(!sess.common.traffic);
}

#[test]
fn finished_messages_are_held_against_each_other() {
    let mut sess = session(Protocol::Tls13);
    assert!(check_finished(&mut sess, &[1, 2], &[1, 2]).is_ok());
    assert!(!sess.common.sent_fatal_alert);
    assert_eq!(check_finished(&mut sess, &[1, 2], &[1, 3]), Err(TlsError::DecryptError));
    assert_eq!(check_finished(&mut sess, &[1, 2], &[1]), Err(TlsError::DecryptError));
}

#[test]
fn odd_certificates_are_refused() {
    let sct = |scts: Vec<PayloadU16>| CertificateExtension::SignedCertificateTimestamp(scts);
    let odd = CertificateExtension::Unknown(UnknownExtension {
        typ: ExtensionType::Unknown(1),
        payload: Payload::new(&[]),
    });
    let cases = vec![
        (
            certificate(vec![1], vec![]),
            TlsError::CorruptMessagePayload(ContentType::Handshake),
            Some(AlertDescription::DecodeError),
        ),
        (
            certificate(vec![], vec![odd]),
            misbehaved("bad cert chain extensions"),
            Some(AlertDescription::UnsupportedExtension),
        ),
        (
            certificate(vec![], vec![sct(vec![PayloadU16::new(vec![])])]),
            misbehaved("server sent invalid SCT list"),
            None,
        ),
        (
            certificate(vec![], vec![sct(vec![PayloadU16::new(vec![1])])]),
            misbehaved("server sent unsolicited SCT list"),
            None,
        ),
    ];
    for (payload, err, alert) in cases {
        let mut sess = session(Protocol::Tls13);
        let (st, _) = start(&mut sess, vec![]);
        let m = handshake_message(
            HandshakeType::EncryptedExtensions,
            HandshakePayload::EncryptedExtensions(vec![]),
        );
        let state = st.handle(&mut sess, m).map_err(|_| ()).unwrap();
        let m = handshake_message(HandshakeType::Certificate, payload);
        assert_eq!(refused(state.handle(&mut sess, m)), err);
        match alert {
            Some(alert) => assert_eq!(alert_of(&sess), alert.get_u8()),
            None => assert!(!sess.common.sent_fatal_alert),
        }
    }
}

#[test]
fn refused_servers_are_told_why() {
    let der = TlsError::WebPKIError(PKIError::BadDER, WebPKIOp::ValidateServerCert);
    let other = TlsError::WebPKIError(
        PKIError::Other("refused".to_string()),
        WebPKIOp::VerifySignature,
    );
    let cases = vec![
        (Verdict::Malformed, Verdict::Accepted, der, AlertDescription::DecodeError),
        (
            Verdict::Misbehaving,
            Verdict::Accepted,
            misbehaved("refused"),
            AlertDescription::IllegalParameter,
        ),
        (Verdict::Accepted, Verdict::Refused, other, AlertDescription::BadCertificate),
    ];
    for (cert, sig, err, alert) in cases {
        let mut sess = session(Protocol::Tls13);
        sess.config.verifier = verdicts(cert, sig);
        let (st, _) = start(&mut sess, vec![]);
        let m = handshake_message(
            HandshakeType::EncryptedExtensions,
            HandshakePayload::EncryptedExtensions(vec![]),
        );
        let state = st.handle(&mut sess, m).map_err(|_| ()).unwrap();
        let m = handshake_message(HandshakeType::Certificate, certificate(vec![], vec![]));
        let state = state.handle(&mut sess, m).map_err(|_| ()).unwrap();
        let m = handshake_message(HandshakeType::CertificateVerify, signature());
        assert_eq!(refused(state.handle(&mut sess, m)), err);
        assert_eq!(alert_of(&sess), alert.get_u8());
        assert!(sess.server_cert_chain.is_empty());
    }
    let mut sess = session(Protocol::Tls13);
    assert_eq!(
        send_cert_error_alert(&mut sess, TlsError::FailedToGetCurrentTime),
        TlsError::FailedToGetCurrentTime
    );
    assert_eq!(alert_of(&sess), AlertDescription::BadCertificate.get_u8());
}

#[test]
fn server_without_certificates_is_refused() {
    let mut sess = session(Protocol::Tls13);
    let (st, _) = start(&mut sess, vec![]);
    let m = handshake_message(
        HandshakeType::EncryptedExtensions,
        HandshakePayload::EncryptedExtensions(vec![]),
    );
    let state = st.handle(&mut sess, m).map_err(|_| ()).unwrap();
    let empty = HandshakePayload::CertificateTLS13(CertificatePayloadTLS13 {
        context: PayloadU8::new(vec![]),
        entries: vec![],
    });
    let m = handshake_message(HandshakeType::Certificate, empty);
    let state = state.handle(&mut sess, m).map_err(|_| ()).unwrap();
    let m = handshake_message(HandshakeType::CertificateVerify, signature());
    assert_eq!(refused(state.handle(&mut sess, m)), TlsError::NoCertificatesPresented);
}

#[test]
fn messages_out_of_turn_are_refused() {
    let mut sess = session(Protocol::Tls13);
    let (st, _) = start(&mut sess, vec![]);
    let m = handshake_message(HandshakeType::CertificateVerify, signature());
    assert_eq!(
        refused(st.handle(&mut sess, m)),
        TlsError::InappropriateHandshakeMessage {
            expect_types: vec![HandshakeType::EncryptedExtensions],
            got_type: HandshakeType::CertificateVerify,
        }
    );
}

#[test]
fn unoffered_application_protocol_is_refused() {
    let mut sess = session(Protocol::Tls13);
    let (st, _) = start(&mut sess, vec![ExtensionType::ALProtocolNegotiation]);
    let alpn = ServerExtension::Protocols(vec![PayloadU8::new(b"spdy".to_vec())]);
    let m = handshake_message(
        HandshakeType::EncryptedExtensions,
        HandshakePayload::EncryptedExtensions(vec![alpn]),
    );
    assert_eq!(
        refused(st.handle(&mut sess, m)),
        misbehaved("server sent non-offered ALPN protocol")
    );
    assert_eq!(alert_of(&sess), AlertDescription::IllegalParameter.get_u8());
}

#[test]
fn early_data_without_resumption_is_refused() {
    let mut sess = session(Protocol::Tls13);
    let (st, _) = start(&mut sess, vec![ExtensionType::EarlyData]);
    let m = handshake_message(
        HandshakeType::EncryptedExtensions,
        HandshakePayload::EncryptedExtensions(vec![ServerExtension::EarlyData]),
    );
    assert_eq!(
        refused(st.handle(&mut sess, m)),
        misbehaved("server sent early data extension without resumption")
    );
}

#[test]
fn bad_key_shares_are_refused() {
    let mut sess = session(Protocol::Tls13);
    let cases: Vec<(ServerHelloPayload, &str, Option<AlertDescription>)> = vec![
        (
            server_hello(vec![ServerExtension::PresharedKey(0)]),
            "missing key share",
            Some(AlertDescription::MissingExtension),
        ),
        (
            server_hello(vec![
                ServerExtension::PresharedKey(0),
                ServerExtension::KeyShare(KeyShareEntry::new(NamedGroup::secp384r1, &[1])),
            ]),
            "wrong group for key share",
            Some(AlertDescription::IllegalParameter),
        ),
        (
            server_hello(vec![
                ServerExtension::PresharedKey(0),
                ServerExtension::KeyShare(KeyShareEntry::new(NamedGroup::X25519, &[1])),
            ]),
            "key exchange failed",
            None,
        ),
    ];
    for (sh, why, alert) in cases {
        let mut hello = ClientHelloDetails::new();
        let mut exts = vec![];
        choose_kx_groups(&sess, &mut exts, &mut hello, &name(), None);
        let mut handshake = HandshakeDetails::new(Some(resumable(0)));
        sess.common.sent_fatal_alert = false;
        let r = start_handshake_traffic(
            SUITE,
            &mut sess,
            None,
            &sh,
            &mut handshake,
            &name(),
            &transcript(),
            &mut hello,
            &randoms(),
        );
        assert_eq!(r.err(), Some(misbehaved(why)));
        match alert {
            Some(alert) => assert_eq!(alert_of(&sess), alert.get_u8()),
            None => assert!(!sess.common.sent_fatal_alert),
        }
    }
}

fn resume(
    sess: &mut ClientSession<AnonymousClient>,
    resuming: Option<ClientSessionValueWithResolvedCipherSuite>,
    suite: SupportedCipherSuite,
    index: u16,
) -> Result<(KeyScheduleHandshake, Vec<u8>), TlsError> {
    let mut handshake = HandshakeDetails::new(resuming);
    start_handshake_traffic_given(
        suite,
        sess,
        Some(KeyScheduleEarly::new(HashAlgorithm::SHA256, &[4; 32])),
        Some(index),
        &mut handshake,
        &name(),
        &transcript(),
        NamedGroup::X25519,
        Some(KeyExchangeResult { shared_secret: vec![5; 32] }),
        &randoms(),
    )
}

#[test]
fn bad_resumptions_are_refused() {
    let mut sess = session(Protocol::Tls13);
    assert_eq!(
        resume(&mut sess, None, SUITE, 0).err(),
        Some(misbehaved("server selected unoffered psk"))
    );
    assert!(!sess.common.sent_fatal_alert);
    assert_eq!(
        resume(&mut sess, Some(resumable(0)), TLS13_AES_256_GCM_SHA384, 0).err(),
        Some(misbehaved("server resuming incompatible suite"))
    );
    assert_eq!(alert_of(&sess), AlertDescription::IllegalParameter.get_u8());
    assert_eq!(
        resume(&mut sess, Some(resumable(0)), SUITE, 1).err(),
        Some(misbehaved("server selected invalid psk"))
    );
    sess.early_data.enable(10);
    assert_eq!(
        resume(
            &mut sess,
            Some(resumable(0)),
            SupportedCipherSuite::TLS13_CHACHA20_POLY1305_SHA256,
            0
        )
        .err(),
        Some(misbehaved("server varied suite with early data"))
    );
}

// Runs a resumed handshake in which early data was offered, up to the Finished message.
fn run_early(accepted: bool) -> (ClientSession<AnonymousClient>, ClientState<AnonymousClient>, Server) {
    let mut sess = session(Protocol::Tls13);
    let resuming = resumable(100);
    let mut exts = vec![];
    prepare_resumption_at(
        &mut sess,
        vec![1],
        &resuming,
        &mut exts,
        false,
        TimeBase { secs: 100 },
    );
    let early = KeyScheduleEarly::new(HashAlgorithm::SHA256, &[4; 32]);
    let mut sent = false;
    derive_early_traffic_secret(&mut sess, &resuming, &early, &mut sent, &transcript(), &[3; 32]);
    let mut handshake = HandshakeDetails::new(Some(resuming));
    let (key_schedule, hash) = start_handshake_traffic_given(
        SUITE,
        &mut sess,
        Some(early),
        Some(0),
        &mut handshake,
        &name(),
        &transcript(),
        NamedGroup::X25519,
        Some(KeyExchangeResult { shared_secret: vec![5; 32] }),
        &randoms(),
    )
    .unwrap();
    let mut log = KeyLog::new(false);
    let mut ks = KeyScheduleEarly::new(HashAlgorithm::SHA256, &[4; 32]).into_handshake(&[5; 32]);
    let client = ks.client_handshake_traffic_secret(&hash, &mut log, &[3; 32]);
    let server = ks.server_handshake_traffic_secret(&hash, &mut log, &[3; 32]);
    // The keys of early data stay; those of the handshake are derived all the same.
    let secrets = sess.common.quic.hs_secrets.as_ref().unwrap();
    assert_eq!((&secrets.client, &secrets.server), (&client, &server));
    let early = sess.common.quic.early_secret.as_ref().unwrap();
    assert_eq!(sess.common.record_layer.encrypter, Some(derive_traffic_keys(SUITE, early)));
    let labels: Vec<&str> = sess.config.key_log.entries.iter().map(|e| e.label.text()).collect();
    assert_eq!(
        labels,
        [
            "CLIENT_EARLY_TRAFFIC_SECRET",
            "SERVER_HANDSHAKE_TRAFFIC_SECRET",
            "CLIENT_HANDSHAKE_TRAFFIC_SECRET",
        ]
    );
    let mut server = Server { ks, transcript: transcript() };
    let mut hello = ClientHelloDetails::new();
    hello.sent_extensions = vec![ExtensionType::EarlyData];
    let st = ExpectEncryptedExtensions {
        handshake,
        dns_name: name(),
        randoms: randoms(),
        transcript: transcript(),
        key_schedule,
        hello,
        hash_at_client_recvd_server_hello: hash,
    };
    let exts = if accepted { vec![ServerExtension::EarlyData] } else { vec![] };
    let m = server.message(
        HandshakeType::EncryptedExtensions,
        HandshakePayload::EncryptedExtensions(exts),
    );
    let state = st.handle(&mut sess, m).map_err(|_| ()).unwrap();
    (sess, state, server)
}

#[test]
fn accepted_early_data_ends_with_the_handshake() {
    let (mut sess, state, mut server) = run_early(true);
    assert_eq!(sess.early_data.state, EarlyDataState::Accepted);
    assert_eq!(sess.server_cert_chain, [Certificate(b"kept".to_vec())]);
    let early_keys = sess.common.record_layer.encrypter.as_ref().unwrap().duplicate();
    let m = server.finished();
    let state = state.handle(&mut sess, m).map_err(|_| ()).unwrap();
    assert!(matches!(state, ClientState::ExpectTraffic(_)));
    assert_eq!(sess.early_data.state, EarlyDataState::AcceptedFinished);
    assert!(!sess.common.early_traffic);
    let sent = &sess.common.sendable_tls;
    // After the ChangeCipherSpec, the end of early data under its own keys, and the Finished
    // message under those of the handshake.
    assert_eq!(sent.len(), 3);
    assert_eq!(sent[1].payload, [5, 0, 0, 0]);
    assert_eq!(sent[1].keys, Some(early_keys));
    let client = server.ks.current_client_traffic_secret.as_ref().unwrap();
    assert_eq!(sent[2].keys, Some(derive_traffic_keys(SUITE, client)));
    assert_eq!(sent[2].payload[0], 20);
}

#[test]
fn refused_early_data_ends_at_once() {
    let (mut sess, state, mut server) = run_early(false);
    assert_eq!(sess.early_data.state, EarlyDataState::Rejected);
    assert!(!sess.common.early_traffic);
    let client = server.ks.current_client_traffic_secret.as_ref().unwrap();
    assert_eq!(
        sess.common.record_layer.encrypter,
        Some(derive_traffic_keys(SUITE, client))
    );
    let m = server.finished();
    let state = state.handle(&mut sess, m).map_err(|_| ()).unwrap();
    assert!(matches!(state, ClientState::ExpectTraffic(_)));
    assert_eq!(sess.common.sendable_tls.len(), 2);
}

#[test]
fn end_of_early_data_is_left_to_quic() {
    let mut transcript = transcript();
    let before = transcript.bytes.len();
    let mut sess = session(Protocol::Quic);
    emit_end_of_early_data_tls13(&mut transcript, &mut sess);
    assert_eq!(transcript.bytes.len(), before);
    assert!(sess.common.quic.hs_queue.is_empty());
}

#[test]
fn clients_answer_for_themselves() {
    let rng = ring::rand::SystemRandom::new();
    let pkcs8 = ring::signature::Ed25519KeyPair::generate_pkcs8(&rng).unwrap();
    let pair = ring::signature::Ed25519KeyPair::from_pkcs8(pkcs8.as_ref()).unwrap();
    let mut sess = auth_session(pkcs8.as_ref().to_vec());
    let (st, mut server) = start(&mut sess, vec![]);
    let m = server.message(
        HandshakeType::EncryptedExtensions,
        HandshakePayload::EncryptedExtensions(vec![]),
    );
    let state = st.handle(&mut sess, m).map_err(|_| ()).unwrap();
    let m = server.message(
        HandshakeType::CertificateRequest,
        request(vec![], vec![SignatureScheme::RSA_PKCS1_SHA1, SignatureScheme::ED25519]),
    );
    let state = state.handle(&mut sess, m).map_err(|_| ()).unwrap();
    let m = server.message(HandshakeType::Certificate, certificate(vec![], vec![]));
    let state = state.handle(&mut sess, m).map_err(|_| ()).unwrap();
    let m = server.message(HandshakeType::CertificateVerify, signature());
    let state = state.handle(&mut sess, m).map_err(|_| ()).unwrap();
    let m = server.finished();
    let state = state.handle(&mut sess, m).map_err(|_| ()).unwrap();
    assert!(matches!(state, ClientState::ExpectTraffic(_)));
    let sent = &sess.common.sendable_tls;
    assert_eq!(sent.len(), 3);
    assert_eq!(sent[0].payload, [11, 0, 0, 10, 0, 0, 0, 6, 0, 0, 1, 0xcc, 0, 0]);
    server.transcript.update_raw(&sent[0].payload);
    let message = construct_tls13_client_verify_message(&server.transcript.get_current_hash());
    assert_eq!(sent[1].payload[..8], [15, 0, 0, 68, 8, 7, 0, 64]);
    let public = ring::signature::KeyPair::public_key(&pair).as_ref().to_vec();
    ring::signature::UnparsedPublicKey::new(&ring::signature::ED25519, public)
        .verify(&message, &sent[1].payload[8..])
        .unwrap();
    assert_eq!(sent[2].payload[0], 20);
}

#[test]
fn failed_signatures_end_the_handshake() {
    let mut sess = auth_session(vec![1, 2, 3]);
    let (st, mut server) = start(&mut sess, vec![]);
    let m = server.message(
        HandshakeType::EncryptedExtensions,
        HandshakePayload::EncryptedExtensions(vec![]),
    );
    let mut state = st.handle(&mut sess, m).map_err(|_| ()).unwrap();
    for (typ, payload) in [
        (HandshakeType::CertificateRequest, request(vec![], vec![SignatureScheme::ED25519])),
        (HandshakeType::Certificate, certificate(vec![], vec![])),
        (HandshakeType::CertificateVerify, signature()),
    ] {
        let m = server.message(typ, payload);
        state = state.handle(&mut sess, m).map_err(|_| ()).unwrap();
    }
    let m = server.finished();
    match state.handle(&mut sess, m) {
        Err(err) => assert_eq!(err, TlsError::General("signing failed".to_string())),
        Ok(_) => panic!("accepted"),
    }
    assert!(!sess.common.traffic);
}

#[test]
fn bad_requests_are_refused() {
    let cases = vec![
        (
            request(vec![1], vec![SignatureScheme::ED25519]),
            TlsError::CorruptMessagePayload(ContentType::Handshake),
            AlertDescription::DecodeError,
        ),
        (
            request(vec![], vec![SignatureScheme::RSA_PKCS1_SHA1]),
            TlsError::PeerIncompatibleError("server sent bad certreq schemes".to_string()),
            AlertDescription::HandshakeFailure,
        ),
    ];
    for (payload, err, alert) in cases {
        let mut sess = session(Protocol::Tls13);
        let (st, _) = start(&mut sess, vec![]);
        let m = handshake_message(
            HandshakeType::EncryptedExtensions,
            HandshakePayload::EncryptedExtensions(vec![]),
        );
        let state = st.handle(&mut sess, m).map_err(|_| ()).unwrap();
        let m = handshake_message(HandshakeType::CertificateRequest, payload);
        assert_eq!(refused(state.handle(&mut sess, m)), err);
        assert_eq!(alert_of(&sess), alert.get_u8());
    }
}

#[test]
fn clients_without_a_certificate_say_so() {
    let mut sess = session(Protocol::Tls13);
    let (st, mut server) = start(&mut sess, vec![]);
    let m = server.message(
        HandshakeType::EncryptedExtensions,
        HandshakePayload::EncryptedExtensions(vec![]),
    );
    let mut state = st.handle(&mut sess, m).map_err(|_| ()).unwrap();
    for (typ, payload) in [
        (HandshakeType::CertificateRequest, request(vec![], vec![SignatureScheme::ED25519])),
        (HandshakeType::Certificate, certificate(vec![], vec![])),
        (HandshakeType::CertificateVerify, signature()),
    ] {
        let m = server.message(typ, payload);
        state = state.handle(&mut sess, m).map_err(|_| ()).unwrap();
    }
    let m = server.finished();
    assert!(state.handle(&mut sess, m).is_ok());
    let sent = &sess.common.sendable_tls;
    assert_eq!(sent.len(), 2);
    assert_eq!(sent[0].payload, [11, 0, 0, 4, 0, 0, 0, 0]);
}

#[test]
fn servers_remember_what_they_are_given() {
    let mut details = ClientCertDetails::new(vec![Certificate(vec![1]), Certificate(vec![2])]);
    assert_eq!(details.take_chain(), [Certificate(vec![1]), Certificate(vec![2])]);
    assert!(details.take_chain().is_empty());
    let kx = KeyExchange::start(SupportedKxGroup::X25519).unwrap();
    let pubkey = kx.pubkey.clone();
    assert_eq!(ServerKxDetails::new(kx).kx.pubkey, pubkey);
    let handshake =
        rustls::server::common::HandshakeDetails::new(vec![ServerExtension::EarlyData]);
    assert_eq!(handshake.extra_exts, [ServerExtension::EarlyData]);
    assert_eq!(handshake.hash_at_server_fin, None);
    assert_eq!(handshake.session_id, None);
    assert!(handshake.transcript.bytes.is_empty());
}

#[test]
fn tickets_can_be_handed_over_directly() {
    let mut sess = session(Protocol::Tls13);
    let (state, _) = run(&mut sess, vec![]);
    let nst = NewSessionTicketPayloadTLS13 {
        lifetime: 1,
        age_add: 2,
        nonce: PayloadU8::new(vec![0]),
        ticket: PayloadU16::new(b"direct".to_vec()),
        exts: vec![],
    };
    match state {
        ClientState::ExpectTraffic(st) => {
            assert_eq!(st.handle_new_ticket_tls13(&mut sess, &nst), Ok(()));
        }
        _ => panic!("not running"),
    }
    let key = ClientSessionKey::session_for_server_name(&name()).get_encoding();
    let stored = sess.config.session_persistence.get(&key).unwrap();
    assert_eq!(ClientSessionValue::read_bytes(&stored).unwrap().ticket.0, b"direct");
}

#[test]
fn verifiers_are_asked_wherever_the_clock_stands() {
    for (cert, accepted) in [(Verdict::Accepted, true), (Verdict::Malformed, false)] {
        let mut sess = session(Protocol::Tls13);
        sess.config.verifier = verdicts(cert, Verdict::Accepted);
        let (st, _) = start(&mut sess, vec![]);
        let m = handshake_message(
            HandshakeType::EncryptedExtensions,
            HandshakePayload::EncryptedExtensions(vec![]),
        );
        let state = st.handle(&mut sess, m).map_err(|_| ()).unwrap();
        let m = handshake_message(HandshakeType::Certificate, certificate(vec![], vec![]));
        let st = match state.handle(&mut sess, m) {
            Ok(ClientState::ExpectCertificateVerify(st)) => st,
            _ => panic!("not accepted"),
        };
        let m = handshake_message(HandshakeType::CertificateVerify, signature());
        assert_eq!(st.handle_at(&mut sess, m, None).is_ok(), accepted);
        assert_eq!(sess.server_cert_chain.is_empty(), !accepted);
    }
}

#[test]
fn sessions_that_are_not_ready_handle_nothing() {
    let mut sess = session(Protocol::Tls13);
    let (state, _) = run(&mut sess, vec![]);
    assert!(state.is_ready(&sess));
    let sent = sess.common.sendable_tls.len();
    let odd = Message {
        typ: ContentType::ApplicationData,
        version: ProtocolVersion::TLSv1_3,
        payload: MessagePayload::ChangeCipherSpec(ChangeCipherSpecPayload {}),
    };
    assert!(state.try_handle(&mut sess, odd).is_none());
    let (st, _) = start(&mut sess, vec![]);
    let state: ClientState<AnonymousClient> = ClientState::ExpectEncryptedExtensions(st);
    sess.common.suite = None;
    assert!(!state.is_ready(&sess));
    let m = handshake_message(
        HandshakeType::EncryptedExtensions,
        HandshakePayload::EncryptedExtensions(vec![]),
    );
    assert!(state.try_handle(&mut sess, m).is_none());
    assert_eq!(sess.common.sendable_tls.len(), sent);
}

#[test]
fn ready_sessions_handle_messages() {
    let mut sess = session(Protocol::Tls13);
    let (state, _) = run(&mut sess, vec![]);
    let state = match state.try_handle(&mut sess, Message::build_key_update_notify()) {
        Some(Ok(state)) => state,
        _ => panic!("not handled"),
    };
    assert!(state.is_ready(&sess));
}

#[test]
fn forged_finished_message_needs_no_keys_to_be_refused() {
    let (mut sess, state, _) = run_early(true);
    sess.common.suite = None;
    let m = handshake_message(
        HandshakeType::Finished,
        HandshakePayload::Finished(Payload::new(&[0; 32])),
    );
    assert_eq!(refused(state.handle(&mut sess, m)), TlsError::DecryptError);
    assert_eq!(alert_of(&sess), AlertDescription::DecryptError.get_u8());
}

#[test]
fn refused_messages_need_nothing_of_the_session() {
    let mut sess = session(Protocol::Tls13);
    let (state, _) = run(&mut sess, vec![]);
    sess.common.suite = None;
    let m = handshake_message(
        HandshakeType::KeyUpdate,
        HandshakePayload::KeyUpdate(KeyUpdateRequest::Unknown(9)),
    );
    assert_eq!(
        refused(state.handle(&mut sess, m)),
        TlsError::CorruptMessagePayload(ContentType::Handshake)
    );
    let mut quic = session(Protocol::Quic);
    let (state, _) = run(&mut quic, vec![]);
    assert_eq!(quic.common.quic.params, None);
    let bad = ticket(vec![NewSessionTicketExtension::EarlyData(5)]);
    assert_eq!(
        refused(state.handle(&mut quic, bad)),
        misbehaved("invalid max_early_data_size")
    );
}

#[test]
fn nothing_is_signed_without_a_key() {
    let mut sess = session(Protocol::Tls13);
    let mut transcript = HandshakeHash::new();
    let mut client_auth = ClientAuthDetails::new();
    assert_eq!(emit_certverify_tls13(&mut transcript, &mut client_auth, &mut sess), Ok(()));
    assert!(sess.common.sendable_tls.is_empty());
    assert!(transcript.bytes.is_empty());
}

#[test]
fn resumption_needs_the_early_key_schedule() {
    for early in [false, true] {
        let mut sess = session(Protocol::Tls13);
        let mut hello = ClientHelloDetails::new();
        let mut exts = vec![];
        choose_kx_groups(&sess, &mut exts, &mut hello, &name(), None);
        let server_kx = KeyExchange::start(SupportedKxGroup::X25519).unwrap();
        let share = KeyShareEntry::new(NamedGroup::X25519, &server_kx.pubkey);
        let sh = server_hello(vec![
            ServerExtension::PresharedKey(0),
            ServerExtension::KeyShare(share),
        ]);
        let mut handshake = HandshakeDetails::new(Some(resumable(0)));
        let schedule = if early {
            Some(KeyScheduleEarly::new(HashAlgorithm::SHA256, &[4; 32]))
        } else {
            None
        };
        let r = try_start_handshake_traffic(
            SUITE,
            &mut sess,
            schedule,
            &sh,
            &mut handshake,
            &name(),
            &transcript(),
            &mut hello,
            &randoms(),
        );
        assert_eq!(r.is_some(), early);
        assert_eq!(hello.offered_key_shares.is_empty(), early);
        if let Some(r) = r {
            assert!(r.is_ok());
        }
        assert!(handshake.resuming_session.is_some());
    }
}

#[test]
fn filling_in_the_binder_keeps_the_length_of_the_message() {
    let mut sess = session(Protocol::Tls13);
    let resuming = resumable(0);
    let mut exts = vec![];
    prepare_resumption_at(
        &mut sess,
        vec![1],
        &resuming,
        &mut exts,
        false,
        TimeBase { secs: 100 },
    );
    let mut hmp = HandshakeMessagePayload {
        typ: HandshakeType::ClientHello,
        payload: HandshakePayload::ClientHello(ClientHelloPayload {
            client_version: ProtocolVersion::TLSv1_2,
            random: Random(vec![5; 32]),
            session_id: SessionID::empty(),
            cipher_suites: vec![CipherSuite::TLS13_AES_128_GCM_SHA256],
            compression_methods: vec![Compression::Null],
            extensions: exts,
        }),
    };
    let signed = hmp.get_encoding_for_binder_signing();
    let before = hmp.get_encoding();
    fill_in_psk_binder(&resuming, &HandshakeHash::new(), &mut hmp);
    assert_eq!(hmp.get_encoding().len(), before.len());
    assert_ne!(hmp.get_encoding(), before);
    assert_eq!(hmp.get_encoding_for_binder_signing(), signed);
}
