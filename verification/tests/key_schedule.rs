use rustls::crypto::{HashAlgorithm, SupportedKxGroup};
use rustls::enums::{NamedGroup, SignatureScheme};
use rustls::error::TlsError;
use rustls::hash_hs::HandshakeHash;
use rustls::key_log::{KeyLog, KeyLogLabel};
use rustls::key_schedule::{
    derive_traffic_keys, zero_bytes, KeyScheduleEarly, KeyScheduleNonSecret, KeyScheduleTraffic,
};
use rustls::kx::KeyExchange;
use rustls::message::Message;
use rustls::sign::{supported_sign_tls13, Ed25519SigningKey, SigningKey};
use rustls::suites::{
    SupportedCipherSuite, TLS13_AES_128_GCM_SHA256, TLS13_AES_256_GCM_SHA384,
    TLS13_CHACHA20_POLY1305_SHA256,
};
use rustls::verify::{
    construct_tls13_client_verify_message, construct_tls13_server_verify_message,
};

fn hex(text: &str) -> Vec<u8> {
    (0..text.len() / 2)
        .map(|i| u8::from_str_radix(&text[2 * i..2 * i + 2], 16).unwrap())
        .collect()
}

// The secret of a well-known key exchange, and the secrets that come of it when the hellos hash
// to the digest of "hello".
const SHARED: &str = "8bd4054fb55b9d63fdfbacf9f04b9f0d35e6d63f537563efd46272900f89492d";
const HELLO_HASH: &str = "2cf24dba5fb0a30e26e83b2ac5b9e29e1b161e5c1fa7425e73043362938b9824";
const CLIENT_HS: &str = "f1c994b77c5887fc8ac6ee5cca3f0db503b42e71aaaca9ec4679225afa1402ad";
const SERVER_HS: &str = "6e93bd8f416d01785885e372e7337f22df89e7c309b0195b027222ce9bfb3ec3";

#[test]
fn handshake_secrets_of_a_known_session() {
    let mut log = KeyLog::new(true);
    let mut ks = KeyScheduleNonSecret::new(HashAlgorithm::SHA256).into_handshake(&hex(SHARED));
    let hash = hex(HELLO_HASH);
    let client = ks.client_handshake_traffic_secret(&hash, &mut log, &[1; 32]);
    let server = ks.server_handshake_traffic_secret(&hash, &mut log, &[1; 32]);
    assert_eq!(client, hex(CLIENT_HS));
    assert_eq!(server, hex(SERVER_HS));
    assert_eq!(log.entries.len(), 2);
    assert_eq!(log.entries[0].label, KeyLogLabel::ClientHandshakeTrafficSecret);
    assert_eq!(log.entries[0].secret, client);
    assert_eq!(log.entries[1].label.text(), "SERVER_HANDSHAKE_TRAFFIC_SECRET");
    let keys = derive_traffic_keys(TLS13_AES_128_GCM_SHA256, &server);
    assert_eq!(keys.key, hex("6aae368bf3124e3792af63263bbbf840"));
    assert_eq!(keys.iv, hex("7d1ba90751b0399ed9836554"));
}

#[test]
fn finished_message_of_a_known_session() {
    let mut log = KeyLog::new(false);
    let mut ks = KeyScheduleNonSecret::new(HashAlgorithm::SHA256).into_handshake(&hex(SHARED));
    ks.server_handshake_traffic_secret(&hex(HELLO_HASH), &mut log, &[1; 32]);
    assert!(log.entries.is_empty());
    ks.current_server_traffic_secret =
        Some(hex("b67b7d690cc16c4e75e54213cb2d37b4e9c912bcded9105d42befd59d391ad38"));
    let hash = hex("edb7725fa7a3473b031ec8ef65a2485493900138a2b91291407d7951a06110ed");
    assert_eq!(
        ks.sign_server_finish(&hash),
        hex("9b9b141d906337fbd2cbdce71df4deda4ab42c309572cb7fffee5454b78f0718")
    );
}

fn traffic_schedule() -> KeyScheduleTraffic {
    let mut log = KeyLog::new(false);
    let mut ks = KeyScheduleNonSecret::new(HashAlgorithm::SHA256).into_handshake(&hex(SHARED));
    ks.client_handshake_traffic_secret(&hex(HELLO_HASH), &mut log, &[1; 32]);
    let mut pending = ks.into_traffic_with_client_finished_pending();
    let hash = hex("9608102a0f1ccc6db6250b7b7e417b1a000eaada3daae4777a7686c9ff83df13");
    let client = pending.client_application_traffic_secret(&hash, &mut log, &[1; 32]);
    let server = pending.server_application_traffic_secret(&hash, &mut log, &[1; 32]);
    pending.exporter_master_secret(&hash, &mut log, &[1; 32]);
    assert_eq!(
        client,
        hex("9e40646ce79a7f9dc05af8889bce6552875afa0b06df0087f792ebb7c17504a5")
    );
    assert_eq!(
        server,
        hex("a11af9f05531f856ad47116b45a950328204b4f44bfb6b3a4b4f1f3fcb631643")
    );
    pending.into_traffic()
}

#[test]
fn application_secrets_of_a_known_session() {
    let ks = traffic_schedule();
    assert_eq!(
        ks.current_exporter_secret.unwrap(),
        hex("fe22f881176eda18eb8f44529e6792c50c9a3f89452f68d8ae311b4309d3cf50")
    );
}

#[test]
fn ticket_secret_of_a_known_session() {
    let ks = traffic_schedule();
    let hash = hex("209145a96ee8e2a122ff810047cc952684658d6049e86429426db87c54ad143d");
    assert_eq!(
        ks.resumption_master_secret_and_derive_ticket_psk(&hash, &[0, 0]),
        hex("4ecd0eb6ec3b4d87f5d6028f922ca4c5851a277fd41311c9e62d2c9492e1c4f3")
    );
}

#[test]
fn key_updates_change_one_side_at_a_time() {
    let mut ks = traffic_schedule();
    let server = ks.current_server_traffic_secret.clone().unwrap();
    let client = ks.current_client_traffic_secret.clone().unwrap();
    let next = ks.next_server_application_traffic_secret();
    assert_ne!(next, server);
    assert_eq!(ks.current_server_traffic_secret, Some(next));
    assert_eq!(ks.current_client_traffic_secret, Some(client.clone()));
    assert_ne!(ks.next_client_application_traffic_secret(), client);
}

#[test]
fn exports_depend_on_everything_they_are_given() {
    let ks = traffic_schedule();
    let mut a = [0u8; 16];
    let mut b = [0u8; 16];
    ks.export_keying_material(&mut a, b"label", Some(b"context")).unwrap();
    ks.export_keying_material(&mut b, b"label", Some(b"context")).unwrap();
    assert_eq!(a, b);
    ks.export_keying_material(&mut b, b"other", Some(b"context")).unwrap();
    assert_ne!(a, b);
    ks.export_keying_material(&mut b, b"label", None).unwrap();
    assert_ne!(a, b);
    ks.export_keying_material(&mut a, b"label", Some(b"")).unwrap();
    assert_eq!(a, b);
}

#[test]
fn too_much_cannot_be_exported() {
    let ks = traffic_schedule();
    let mut most = vec![0u8; 255 * 32];
    assert_eq!(ks.export_keying_material(&mut most, b"label", None), Ok(()));
    let mut more = vec![7u8; 255 * 32 + 1];
    assert_eq!(
        ks.export_keying_material(&mut more, b"label", None),
        Err(TlsError::General("exporting too much".to_string()))
    );
    assert_eq!(more, vec![7u8; 255 * 32 + 1]);
}

#[test]
fn binders_are_as_long_as_digests() {
    for alg in [HashAlgorithm::SHA256, HashAlgorithm::SHA384] {
        let ks = KeyScheduleEarly::new(alg, &[1, 2, 3]);
        let binder = ks.resumption_psk_binder_key_and_sign_verify_data(&[4; 32]);
        assert_eq!(binder.len(), alg.output_len());
        assert_ne!(binder, zero_bytes(alg.output_len()));
        assert_ne!(binder, ks.resumption_psk_binder_key_and_sign_verify_data(&[5; 32]));
    }
}

#[test]
fn early_secret_is_logged() {
    let mut log = KeyLog::new(true);
    let ks = KeyScheduleEarly::new(HashAlgorithm::SHA384, &[1; 48]);
    let secret = ks.client_early_traffic_secret(&[2; 48], &mut log, &[3; 32]);
    assert_eq!(secret.len(), 48);
    assert_eq!(log.entries[0].label.text(), "CLIENT_EARLY_TRAFFIC_SECRET");
    assert_eq!(log.entries[0].client_random, [3; 32]);
    assert_eq!(log.entries[0].secret, secret);
}

#[test]
fn transcripts_are_hashed() {
    let mut transcript = HandshakeHash::new();
    transcript.update_raw(b"a");
    let abc = hex("ba7816bf8f01cfea414140de5dae2223b00361a396177a9cb410ff61f20015ad");
    assert_eq!(transcript.get_hash_given(HashAlgorithm::SHA256, b"bc"), abc);
    assert!(transcript.start_hash(HashAlgorithm::SHA256));
    transcript.update_raw(b"bc");
    assert_eq!(transcript.get_current_hash(), abc);
    // The hash function cannot change any more.
    assert!(!transcript.start_hash(HashAlgorithm::SHA384));
    assert_eq!(transcript.get_hash_given(HashAlgorithm::SHA384, b""), abc);
    let before = transcript.bytes.len();
    transcript.add_message(&Message::build_key_update_notify());
    assert_eq!(&transcript.bytes[before..], [24, 0, 0, 1, 0]);
}

#[test]
fn both_sides_agree_on_a_secret() {
    for group in [SupportedKxGroup::X25519, SupportedKxGroup::SECP256R1, SupportedKxGroup::SECP384R1]
    {
        let ours = KeyExchange::start(group).unwrap();
        let theirs = KeyExchange::start(group).unwrap();
        let (our_key, their_key) = (ours.pubkey.clone(), theirs.pubkey.clone());
        assert_ne!(our_key, their_key);
        let a = ours.complete(&their_key).unwrap().shared_secret;
        let b = theirs.complete(&our_key).unwrap().shared_secret;
        assert_eq!(a, b);
        assert_ne!(a, our_key);
        assert!(KeyExchange::start(group).unwrap().complete(&[1, 2, 3]).is_none());
    }
}

#[test]
fn groups_are_found_by_name() {
    let groups = vec![SupportedKxGroup::SECP256R1, SupportedKxGroup::X25519];
    assert_eq!(
        KeyExchange::find_group(NamedGroup::X25519, &groups),
        Some(SupportedKxGroup::X25519)
    );
    assert_eq!(KeyExchange::find_group(NamedGroup::secp384r1, &groups), None);
}

#[test]
fn ed25519_keys_sign() {
    let rng = ring::rand::SystemRandom::new();
    let pkcs8 = ring::signature::Ed25519KeyPair::generate_pkcs8(&rng).unwrap();
    let pair = ring::signature::Ed25519KeyPair::from_pkcs8(pkcs8.as_ref()).unwrap();
    let key = Ed25519SigningKey { pkcs8: pkcs8.as_ref().to_vec() };
    assert_eq!(key.choose_scheme(&supported_sign_tls13()), Some(SignatureScheme::ED25519));
    assert_eq!(key.choose_scheme(&vec![SignatureScheme::RSA_PSS_SHA256]), None);
    let signature = key.sign(SignatureScheme::ED25519, b"message").unwrap();
    let public = ring::signature::KeyPair::public_key(&pair).as_ref().to_vec();
    let public = ring::signature::UnparsedPublicKey::new(&ring::signature::ED25519, public);
    assert!(public.verify(b"message", &signature).is_ok());
    assert!(public.verify(b"another", &signature).is_err());
    let bad = Ed25519SigningKey { pkcs8: vec![1, 2, 3] };
    assert_eq!(
        bad.sign(SignatureScheme::ED25519, b"message"),
        Err(TlsError::General("signing failed".to_string()))
    );
}

#[test]
fn sides_sign_different_texts() {
    let server = construct_tls13_server_verify_message(&[1; 32]);
    let client = construct_tls13_client_verify_message(&[1; 32]);
    let mut expected = vec![0x20; 64];
    expected.extend_from_slice(b"TLS 1.3, server CertificateVerify\0");
    expected.extend_from_slice(&[1; 32]);
    assert_eq!(server, expected);
    assert_ne!(server, client);
    assert_eq!(&client[64..98], b"TLS 1.3, client CertificateVerify\0");
}

#[test]
fn suites_resume_to_suites_with_the_same_hash() {
    assert!(TLS13_AES_128_GCM_SHA256.can_resume_to(TLS13_CHACHA20_POLY1305_SHA256));
    assert!(!TLS13_AES_128_GCM_SHA256.can_resume_to(TLS13_AES_256_GCM_SHA384));
    let old = SupportedCipherSuite::TLS_ECDHE_RSA_WITH_AES_128_GCM_SHA256;
    assert!(old.can_resume_to(old));
    assert!(!old.can_resume_to(TLS13_AES_128_GCM_SHA256));
    assert!(!old.can_resume_to(SupportedCipherSuite::TLS_ECDHE_ECDSA_WITH_AES_128_GCM_SHA256));
}

#[test]
fn exchange_is_started_with_the_key_that_was_generated() {
    assert!(KeyExchange::start_given(SupportedKxGroup::X25519, None).is_none());
    let rng = ring::rand::SystemRandom::new();
    let key =
        ring::agreement::EphemeralPrivateKey::generate(&ring::agreement::X25519, &rng).unwrap();
    let public = key.compute_public_key().unwrap().as_ref().to_vec();
    let kx = KeyExchange::start_given(SupportedKxGroup::X25519, Some(key)).unwrap();
    assert_eq!(kx.group, SupportedKxGroup::X25519);
    assert_eq!(kx.pubkey, public);
}
