//! What holds of the handshake as a whole, across its states.

use super::super::common::{
    share_at, share_at_finds_a_share, ClientAuthView, ClientHelloDetailsView, HandshakeDetailsView,
};
use super::super::hs::{alpn_processed, aligned_checked};
use super::super::{EarlyDataState, Hooks, SessionView};
use super::finish::{
    application_secrets, application_traffic_started, client_auth_sent, client_certificate,
    early_data_left, end_of_early_data_emitted, finished_handled, finished_signature_possible,
    ExpectFinishedView,
};
use super::states::{
    cert_error_alert, certificate_due, certificate_validated, quic_params_noted, traffic_step,
    ClientStateView, ExpectCertificateOrCertReqView, ExpectCertificateVerifyView,
    ExpectCertificateView, ExpectEncryptedExtensionsView, HandshakeView,
};
use super::traffic::{handshake_payload, is_coherent, ExpectTrafficView};
use super::{
    chosen_group, encrypted_extensions_validated, handshake_traffic_started, kx_groups_chosen,
    kx_hint, share_offered,
};
use crate::crypto::{generated_in, group_of, public_key_of, SupportedKxGroup};
use crate::enums::{AlertDescription, HandshakeType, NamedGroup};
use crate::error::TlsErrorView;
use crate::extensions::ClientExtensionView;
use crate::handshake::{
    alpn_protocol, early_data_offered, quic_params, DigitallySignedView, HandshakePayloadView,
    HelloRetryRequestView,
};
use crate::hash_hs::TranscriptView;
use crate::key_log::KeyLogLabel;
use crate::key_schedule::{
    traffic_keys, KeyScheduleHandshakeView, KeySchedulePendingView, KeyScheduleView,
};
use crate::kx::{group_named, started_with};
use crate::message::MessageView;
use crate::session::CommonView;
use crate::suites::SupportedCipherSuite;
use crate::verify::{server_context, verify_message, ServerCertVerifier};
use vstd::prelude::*;

verus! {

/// A session that is ready can handle every message.
pub proof fn ready_session_handles_every_message<T: Hooks>(
    st: ClientStateView<T>,
    s: SessionView<T>,
    m: MessageView,
)
    requires
        st.is_ready(s),
        is_coherent(m),
    ensures
        st.can_handle(s, m),
{
}

/// What the encrypted handshake relies on in the session is left alone by the checks of the
/// EncryptedExtensions.
proof fn lemma_extensions_keep_ready<T: Hooks>(
    st: ExpectEncryptedExtensionsView,
    s: SessionView<T>,
    m: MessageView,
    next: ClientStateView<T>,
    s1: SessionView<T>,
)
    requires
        ClientStateView::<T>::ExpectEncryptedExtensions(st).is_ready(s),
        st.handled(s, m) == (Ok::<ClientStateView<T>, TlsErrorView>(next), s1),
        s1.common.is_quic() ==> s1.common.quic.params is Some,
    ensures
        next.is_ready(s1),
{
    let exts = handshake_payload(m)->0->EncryptedExtensions_0;
    let noted = quic_params_noted(alpn_processed(s, alpn_protocol(exts)).1, quic_params(exts));
    assert(encrypted_extensions_validated(s, st.hello, exts) == (Ok::<(), TlsErrorView>(()), s));
    assert(st.handled(s, m) == st.accepted(noted, m, early_data_offered(exts)));
    assert(noted.common.record_layer == s.common.record_layer);
    assert(noted.common.suite == s.common.suite);
    assert(noted.common.early_traffic == s.common.early_traffic);
    assert(noted.early_data == s.early_data);
}

proof fn lemma_certificate_keeps_ready<T: Hooks>(
    st: ExpectCertificateView<T>,
    s: SessionView<T>,
    m: MessageView,
    next: ClientStateView<T>,
    s1: SessionView<T>,
)
    requires
        certificate_due(st.hs, s),
        st.handled(s, m) == (Ok::<ClientStateView<T>, TlsErrorView>(next), s1),
    ensures
        next.is_ready(s1),
{
    let cert_chain = handshake_payload(m)->0->CertificateTLS13_0;
    assert(certificate_validated(s, cert_chain, st.may_send_sct_list) == (
        Ok::<(), TlsErrorView>(()),
        s,
    ));
}

proof fn lemma_request_keeps_ready<T: Hooks>(
    st: ExpectCertificateOrCertReqView,
    s: SessionView<T>,
    m: MessageView,
    next: ClientStateView<T>,
    s1: SessionView<T>,
)
    requires
        certificate_due(st.hs, s),
        st.request_handled(s, m) == (Ok::<ClientStateView<T>, TlsErrorView>(next), s1),
    ensures
        next.is_ready(s1),
{
}

proof fn lemma_signature_keeps_ready<T: Hooks>(
    st: ExpectCertificateVerifyView<T>,
    s: SessionView<T>,
    m: MessageView,
    now: Option<u64>,
    next: ClientStateView<T>,
    s1: SessionView<T>,
)
    requires
        certificate_due(st.hs, s),
        st.handled(s, m, now) == (Ok::<ClientStateView<T>, TlsErrorView>(next), s1),
    ensures
        next.is_ready(s1),
{
}

/// Sending a message leaves everything but the queues alone.
proof fn lemma_sent<T: Hooks>(s: SessionView<T>, m: MessageView)
    ensures
        ({
            let s1 = s.with_sent(m, true);
            &&& s1.common.protocol == s.common.protocol
            &&& s1.common.record_layer == s.common.record_layer
            &&& s1.common.suite == s.common.suite
            &&& s1.common.quic.params == s.common.quic.params
        }),
{
}

proof fn lemma_early_data_left<T: Hooks>(
    ks: KeyScheduleHandshakeView,
    transcript: TranscriptView,
    s: SessionView<T>,
    hash: Seq<u8>,
    client_random: Seq<u8>,
)
    requires
        ks.client is Some || s.common.early_traffic,
        s.common.record_layer.encrypter is Some,
    ensures
        ({
            let (ks1, transcript1, s1) = early_data_left(ks, transcript, s, hash, client_random);
            &&& ks1.client is Some
            &&& transcript1.alg == transcript.alg
            &&& s1.common.protocol == s.common.protocol
            &&& s1.common.record_layer.encrypter is Some
            &&& s1.common.suite == s.common.suite
            &&& s1.common.quic.params == s.common.quic.params
        }),
{
    let secret = ks.client_secret(hash);
    let logged = s.logged(KeyLogLabel::ClientHandshakeTrafficSecret, client_random, secret);
    lemma_sent(
        logged,
        MessageView::handshake(HandshakeType::EndOfEarlyData, HandshakePayloadView::EndOfEarlyData),
    );
}

proof fn lemma_client_auth_sent<T: Hooks>(
    transcript: TranscriptView,
    client_auth: Option<ClientAuthView<T::Key>>,
    s: SessionView<T>,
    outcome: Result<Seq<u8>, TlsErrorView>,
)
    ensures
        ({
            let (_, transcript1, s1) = client_auth_sent(transcript, client_auth, s, outcome);
            &&& transcript1.alg == transcript.alg
            &&& s1.common.protocol == s.common.protocol
            &&& s1.common.record_layer == s.common.record_layer
            &&& s1.common.suite == s.common.suite
            &&& s1.common.quic.params == s.common.quic.params
        }),
{
}

proof fn lemma_application_traffic_started<T: Hooks>(
    ks: KeySchedulePendingView,
    transcript: TranscriptView,
    s: SessionView<T>,
    hash: Seq<u8>,
    client_random: Seq<u8>,
)
    ensures
        ({
            let (r, transcript1, s1) = application_traffic_started(
                ks,
                transcript,
                s,
                hash,
                client_random,
            );
            &&& transcript1.alg == transcript.alg
            &&& s1.common.protocol == s.common.protocol
            &&& s1.common.suite == s.common.suite
            &&& s1.common.quic.params == s.common.quic.params
            &&& r matches Ok(secrets) ==> secrets.complete()
                && s1.common.record_layer.encrypter is Some
        }),
{
}

proof fn lemma_finish_keeps_ready<T: Hooks>(
    st: ExpectFinishedView<T>,
    s: SessionView<T>,
    m: MessageView,
    sig: Result<Seq<u8>, TlsErrorView>,
    next: ClientStateView<T>,
    s1: SessionView<T>,
)
    requires
        st.is_ready(s),
        finished_handled(st, s, m, sig) == (Ok::<ClientStateView<T>, TlsErrorView>(next), s1),
        s1.common.is_quic() ==> s1.common.quic.params is Some,
    ensures
        next.is_ready(s1),
{
    let after = st.hs.transcript.with_message(m);
    let (ks, transcript, s2) = st.before_auth(s, m);
    lemma_early_data_left(
        st.hs.key_schedule,
        after,
        s,
        st.hs.hash_at_server_hello,
        st.hs.client_random,
    );
    lemma_client_auth_sent(transcript, st.client_auth, s2, sig);
    let (_, transcript3, s3) = client_auth_sent(transcript, st.client_auth, s2, sig);
    lemma_application_traffic_started(
        ks.finish(),
        transcript3,
        s3,
        after.current_hash(),
        st.hs.client_random,
    );
}

proof fn lemma_traffic_keeps_ready<T: Hooks>(
    st: ExpectTrafficView,
    s: SessionView<T>,
    m: MessageView,
    now: Option<u64>,
)
    requires
        st.is_ready(s),
    ensures
        st.handled(s, m, now).0 matches Ok(next) ==> next.is_ready(st.handled(s, m, now).1),
        st.handled_in_quic(s, m, now).0 matches Ok(next) ==> next.is_ready(
            st.handled_in_quic(s, m, now).1,
        ),
{
}

/// A session that is ready stays so with every message that it accepts: it never gets stuck
/// on its way to the running session. With QUIC, the server's transport parameters must have
/// come.
pub proof fn ready_session_stays_ready<T: Hooks>(
    st: ClientStateView<T>,
    s: SessionView<T>,
    m: MessageView,
    next: ClientStateView<T>,
    s1: SessionView<T>,
)
    requires
        st.is_ready(s),
        st.may_step(s, m, (Ok(next), s1)),
        s1.common.is_quic() ==> s1.common.quic.params is Some,
    ensures
        next.is_ready(s1),
{
    let outcome = (Ok::<ClientStateView<T>, TlsErrorView>(next), s1);
    match st {
        ClientStateView::ExpectEncryptedExtensions(st) => {
            lemma_extensions_keep_ready(st, s, m, next, s1);
        },
        ClientStateView::ExpectCertificateOrCertReq(st) => {
            if m.is_handshake_type(HandshakeType::Certificate) {
                let due = ExpectCertificateView::<T> {
                    hs: st.hs,
                    may_send_sct_list: st.may_send_sct_list,
                    client_auth: None,
                };
                lemma_certificate_keeps_ready(due, s, m, next, s1);
            } else {
                lemma_request_keeps_ready(st, s, m, next, s1);
            }
        },
        ClientStateView::ExpectCertificate(st) => {
            lemma_certificate_keeps_ready(st, s, m, next, s1);
        },
        ClientStateView::ExpectCertificateVerify(st) => {
            let now = choose|now: Option<u64>| outcome == #[trigger] st.handled(s, m, now);
            lemma_signature_keeps_ready(st, s, m, now, next, s1);
        },
        ClientStateView::ExpectFinished(st) => {
            let sig = choose|sig: Result<Seq<u8>, TlsErrorView>|
                finished_signature_possible(st, s, m, sig) && outcome
                    == #[trigger] finished_handled(st, s, m, sig);
            lemma_finish_keeps_ready(st, s, m, sig, next, s1);
        },
        ClientStateView::ExpectTraffic(st) => {
            let now = choose|now: Option<u64>|
                outcome == traffic_step(#[trigger] st.handled(s, m, now), false);
            lemma_traffic_keeps_ready(st, s, m, now);
        },
        ClientStateView::ExpectQUICTraffic(st) => {
            let now = choose|now: Option<u64>|
                outcome == traffic_step(#[trigger] st.handled_in_quic(s, m, now), true);
            lemma_traffic_keeps_ready(st, s, m, now);
        },
    }
}

/// The encrypted handshake starts ready, if the suite is settled, and early data is being sent
/// exactly where it was offered.
pub proof fn started_handshake_is_ready<T: Hooks>(
    s: SessionView<T>,
    suite: SupportedCipherSuite,
    early: Option<KeyScheduleView>,
    psk_index: Option<u16>,
    handshake: HandshakeDetailsView,
    hello: ClientHelloDetailsView,
    name: Seq<u8>,
    group: NamedGroup,
    shared: Option<Seq<u8>>,
    transcript: TranscriptView,
    client_random: Seq<u8>,
)
    requires
        s.common.suite is Some,
        transcript.alg is Some,
        s.early_data.spec_is_enabled() ==> s.common.early_traffic,
        s.common.early_traffic ==> s.early_data.state == EarlyDataState::Ready
            && s.common.record_layer.encrypter is Some,
    ensures
        ({
            let hash = transcript.current_hash();
            let (r, s1, resuming_session) = handshake_traffic_started(
                s,
                suite,
                early,
                psk_index,
                handshake.resuming_session,
                name,
                group,
                shared,
                hash,
                client_random,
            );
            r matches Ok(key_schedule) ==> ClientStateView::<T>::ExpectEncryptedExtensions(
                ExpectEncryptedExtensionsView {
                    handshake: HandshakeDetailsView { resuming_session, ..handshake },
                    hs: HandshakeView {
                        dns_name: name,
                        client_random,
                        transcript,
                        key_schedule,
                        hash_at_server_hello: hash,
                    },
                    hello,
                },
            ).is_ready(s1)
        }),
{
}

/// Only the Finished message that is expected ends the handshake. Any other one is answered
/// with an alert, and nothing else changes.
pub proof fn only_the_expected_finished_is_accepted<T: Hooks>(
    st: ExpectFinishedView<T>,
    s: SessionView<T>,
    m: MessageView,
    sig: Result<Seq<u8>, TlsErrorView>,
)
    ensures
        finished_handled(st, s, m, sig).0 is Ok ==> handshake_payload(m) == Some(
            HandshakePayloadView::Finished(st.expected()),
        ),
        (handshake_payload(m) matches Some(HandshakePayloadView::Finished(received)) && received
            != st.expected()) ==> finished_handled(st, s, m, sig) == (
            Err::<ClientStateView<T>, TlsErrorView>(TlsErrorView::DecryptError),
            s.alerted(AlertDescription::DecryptError),
        ),
{
}

/// A server whose session is not resumed gets past its signature only with a certificate and
/// a signature that were both accepted, and that certificate is the one that is remembered.
pub proof fn only_a_judged_server_is_accepted<T: Hooks>(
    st: ExpectCertificateVerifyView<T>,
    s: SessionView<T>,
    m: MessageView,
    now: Option<u64>,
)
    requires
        st.handled(s, m, now).0 is Ok,
    ensures
        handshake_payload(m) matches Some(HandshakePayloadView::CertificateVerify(dss))
            && st.server_cert.cert_chain.len() > 0 && T::Verifier::cert_verdict(
            s.config.verifier,
            st.server_cert.cert_chain[0],
            st.server_cert.cert_chain.skip(1),
            st.hs.dns_name,
            st.server_cert.sct_list(),
            st.server_cert.ocsp_response,
            now,
        ) is Ok && T::Verifier::signature_verdict(
            s.config.verifier,
            verify_message(server_context(), st.hs.transcript.current_hash()),
            st.server_cert.cert_chain[0],
            dss,
        ) is Ok,
        st.handled(s, m, now).1.server_cert_chain == st.server_cert.cert_chain,
{
}

proof fn lemma_finish_delivers_nothing<T: Hooks>(
    st: ExpectFinishedView<T>,
    s: SessionView<T>,
    m: MessageView,
    sig: Result<Seq<u8>, TlsErrorView>,
)
    ensures
        finished_handled(st, s, m, sig).1.common.received_plaintext == s.common.received_plaintext,
{
    let after = st.hs.transcript.with_message(m);
    let (ks, transcript, s2) = st.before_auth(s, m);
    assert(s2.common.received_plaintext == s.common.received_plaintext);
    let (_, transcript3, s3) = client_auth_sent(transcript, st.client_auth, s2, sig);
    assert(s3.common.received_plaintext == s2.common.received_plaintext);
    let (_, _, s4) = application_traffic_started(
        ks.finish(),
        transcript3,
        s3,
        after.current_hash(),
        st.hs.client_random,
    );
    assert(s4.common.received_plaintext == s3.common.received_plaintext);
}

/// Before the handshake is over, no message makes data reach the application.
pub proof fn handshake_delivers_no_data<T: Hooks>(
    st: ClientStateView<T>,
    s: SessionView<T>,
    m: MessageView,
    r: Result<ClientStateView<T>, TlsErrorView>,
    s1: SessionView<T>,
)
    requires
        !(st is ExpectTraffic),
        st.may_step(s, m, (r, s1)),
    ensures
        s1.common.received_plaintext == s.common.received_plaintext,
{
    match st {
        ClientStateView::ExpectFinished(st) => {
            let sig = choose|sig: Result<Seq<u8>, TlsErrorView>|
                finished_signature_possible(st, s, m, sig) && (r, s1)
                    == #[trigger] finished_handled(st, s, m, sig);
            lemma_finish_delivers_nothing(st, s, m, sig);
        },
        _ => {},
    }
}

/// The server's Finished message is due only once the server has been judged, or where the
/// session continues one in which it was: that session's certificates are then the ones that
/// are remembered.
pub proof fn finished_is_due_only_from_a_judged_or_resumed_server<T: Hooks>(
    st: ClientStateView<T>,
    s: SessionView<T>,
    m: MessageView,
    next: ExpectFinishedView<T>,
    s1: SessionView<T>,
)
    requires
        st.may_step(s, m, (Ok(ClientStateView::ExpectFinished(next)), s1)),
    ensures
        st is ExpectCertificateVerify || (st matches ClientStateView::ExpectEncryptedExtensions(ee)
            && ee.handshake.resuming_session matches Some(resuming) && s1.server_cert_chain
            == resuming.value.server_cert_chain && next.client_auth is None),
{
    match st {
        ClientStateView::ExpectCertificateOrCertReq(due) => {
            assert(due.handled(s, m) == (
                Ok::<ClientStateView<T>, TlsErrorView>(ClientStateView::ExpectFinished(next)),
                s1,
            ));
        },
        ClientStateView::ExpectFinished(due) => {
            let outcome = (
                Ok::<ClientStateView<T>, TlsErrorView>(ClientStateView::ExpectFinished(next)),
                s1,
            );
            let sig = choose|sig: Result<Seq<u8>, TlsErrorView>|
                finished_signature_possible(due, s, m, sig) && outcome
                    == #[trigger] finished_handled(due, s, m, sig);
            assert(finished_handled(due, s, m, sig).0 == outcome.0);
        },
        _ => {},
    }
}

/// Everything that has been sent in between is encrypted, and what follows will be.
pub open spec fn sent_encrypted(before: CommonView, after: CommonView) -> bool {
    &&& before.sendable_tls.len() <= after.sendable_tls.len()
    &&& after.sendable_tls.take(before.sendable_tls.len() as int) == before.sendable_tls
    &&& forall|i: int|
        before.sendable_tls.len() <= i < after.sendable_tls.len() ==> (
        #[trigger] after.sendable_tls[i]).keys is Some
    &&& after.record_layer.encrypter is Some
}

proof fn lemma_sent_encrypted_trans(a: CommonView, b: CommonView, c: CommonView)
    requires
        sent_encrypted(a, b),
        sent_encrypted(b, c),
    ensures
        sent_encrypted(a, c),
{
    let n = a.sendable_tls.len() as int;
    let k = b.sendable_tls.len() as int;
    assert(c.sendable_tls.take(n) =~= c.sendable_tls.take(k).take(n));
    assert forall|i: int| n <= i < c.sendable_tls.len() implies (
    #[trigger] c.sendable_tls[i]).keys is Some by {
        if i < k {
            assert(c.sendable_tls[i] == c.sendable_tls.take(k)[i]);
        }
    }
}

proof fn lemma_sent_encrypted_same(a: CommonView, b: CommonView)
    requires
        a.sendable_tls == b.sendable_tls,
        b.record_layer.encrypter is Some,
    ensures
        sent_encrypted(a, b),
{
    assert(b.sendable_tls.take(a.sendable_tls.len() as int) =~= a.sendable_tls);
}

proof fn lemma_message_sent_encrypted(a: CommonView, m: MessageView)
    requires
        a.record_layer.encrypter is Some,
    ensures
        sent_encrypted(a, a.with_sent(m, true)),
        sent_encrypted(a, a.with_record(m, true)),
{
    let n = a.sendable_tls.len() as int;
    assert(a.with_sent(m, true).sendable_tls.take(n) =~= a.sendable_tls);
    assert(a.with_record(m, true).sendable_tls.take(n) =~= a.sendable_tls);
}

proof fn lemma_alert_sent_encrypted(a: CommonView, description: AlertDescription)
    requires
        a.record_layer.encrypter is Some,
    ensures
        sent_encrypted(a, a.alerted(description)),
{
    let n = a.sendable_tls.len() as int;
    assert(a.alerted(description).sendable_tls.take(n) =~= a.sendable_tls);
}

proof fn lemma_traffic_sent_encrypted(a: CommonView)
    requires
        a.record_layer.encrypter is Some,
    ensures
        sent_encrypted(a, a.with_traffic()),
{
    let n = a.sendable_tls.len() as int;
    assert(a.with_traffic().sendable_tls.take(n) =~= a.sendable_tls);
}

proof fn lemma_extensions_sent_encrypted<T: Hooks>(
    st: ExpectEncryptedExtensionsView,
    s: SessionView<T>,
    m: MessageView,
)
    requires
        s.common.record_layer.encrypter is Some,
    ensures
        sent_encrypted(s.common, st.handled(s, m).1.common),
{
    lemma_sent_encrypted_same(s.common, s.common);
    lemma_alert_sent_encrypted(s.common, AlertDescription::DecodeError);
    lemma_alert_sent_encrypted(s.common, AlertDescription::UnsupportedExtension);
    if let Some(HandshakePayloadView::EncryptedExtensions(exts)) = handshake_payload(m) {
        if encrypted_extensions_validated(s, st.hello, exts).0 is Ok {
            let proto = alpn_protocol(exts);
            let named = CommonView { alpn_protocol: proto, ..s.common };
            lemma_sent_encrypted_same(s.common, named);
            lemma_alert_sent_encrypted(named, AlertDescription::IllegalParameter);
            lemma_sent_encrypted_trans(
                s.common,
                named,
                named.alerted(AlertDescription::IllegalParameter),
            );
            if alpn_processed(s, proto).0 is Ok {
                let noted = quic_params_noted(alpn_processed(s, proto).1, quic_params(exts));
                let outcome = st.accepted(noted, m, early_data_offered(exts));
                assert(noted.common.sendable_tls == s.common.sendable_tls);
                assert(outcome.1.common.sendable_tls == noted.common.sendable_tls);
                lemma_sent_encrypted_same(s.common, outcome.1.common);
            }
        }
    }
}

proof fn lemma_certificate_sent_encrypted<T: Hooks>(
    st: ExpectCertificateView<T>,
    s: SessionView<T>,
    m: MessageView,
)
    requires
        s.common.record_layer.encrypter is Some,
    ensures
        sent_encrypted(s.common, st.handled(s, m).1.common),
{
    lemma_sent_encrypted_same(s.common, s.common);
    lemma_alert_sent_encrypted(s.common, AlertDescription::DecodeError);
    lemma_alert_sent_encrypted(s.common, AlertDescription::UnsupportedExtension);
}

proof fn lemma_request_sent_encrypted<T: Hooks>(
    st: ExpectCertificateOrCertReqView,
    s: SessionView<T>,
    m: MessageView,
)
    requires
        s.common.record_layer.encrypter is Some,
    ensures
        sent_encrypted(s.common, st.request_handled(s, m).1.common),
        sent_encrypted(s.common, s.common),
{
    lemma_sent_encrypted_same(s.common, s.common);
    lemma_alert_sent_encrypted(s.common, AlertDescription::DecodeError);
    lemma_alert_sent_encrypted(s.common, AlertDescription::HandshakeFailure);
}

proof fn lemma_finish_sent_encrypted<T: Hooks>(
    st: ExpectFinishedView<T>,
    s: SessionView<T>,
    m: MessageView,
    sig: Result<Seq<u8>, TlsErrorView>,
)
    requires
        s.common.record_layer.encrypter is Some,
    ensures
        sent_encrypted(s.common, finished_handled(st, s, m, sig).1.common),
{
    lemma_sent_encrypted_same(s.common, s.common);
    lemma_alert_sent_encrypted(s.common, AlertDescription::DecryptError);
    let after = st.hs.transcript.with_message(m);
    let (ks, transcript, s2) = st.before_auth(s, m);
    lemma_early_data_sent_encrypted(
        st.hs.key_schedule,
        after,
        s,
        st.hs.hash_at_server_hello,
        st.hs.client_random,
    );
    lemma_auth_sent_encrypted(transcript, st.client_auth, s2, sig);
    let (_, transcript3, s3) = client_auth_sent(transcript, st.client_auth, s2, sig);
    lemma_sent_encrypted_trans(s.common, s2.common, s3.common);
    lemma_application_traffic_sent_encrypted(
        ks.finish(),
        transcript3,
        s3,
        after.current_hash(),
        st.hs.client_random,
    );
    let (_, _, s4) = application_traffic_started(
        ks.finish(),
        transcript3,
        s3,
        after.current_hash(),
        st.hs.client_random,
    );
    lemma_sent_encrypted_trans(s.common, s3.common, s4.common);
}

proof fn lemma_early_data_sent_encrypted<T: Hooks>(
    ks: KeyScheduleHandshakeView,
    transcript: TranscriptView,
    s: SessionView<T>,
    hash: Seq<u8>,
    client_random: Seq<u8>,
)
    requires
        s.common.record_layer.encrypter is Some,
    ensures
        sent_encrypted(
            s.common,
            early_data_left(ks, transcript, s, hash, client_random).2.common,
        ),
{
    let secret = ks.client_secret(hash);
    let logged = s.logged(KeyLogLabel::ClientHandshakeTrafficSecret, client_random, secret);
    let end = MessageView::handshake(
        HandshakeType::EndOfEarlyData,
        HandshakePayloadView::EndOfEarlyData,
    );
    lemma_sent_encrypted_same(s.common, s.common);
    lemma_message_sent_encrypted(s.common, end);
    let announced = end_of_early_data_emitted(transcript, logged).1;
    assert(logged.common == s.common);
    assert(sent_encrypted(s.common, announced.common));
    let left = early_data_left(ks, transcript, s, hash, client_random).2;
    if s.common.early_traffic {
        lemma_sent_encrypted_same(announced.common, left.common);
        lemma_sent_encrypted_trans(s.common, announced.common, left.common);
    }
}

proof fn lemma_auth_sent_encrypted<T: Hooks>(
    transcript: TranscriptView,
    client_auth: Option<ClientAuthView<T::Key>>,
    s: SessionView<T>,
    outcome: Result<Seq<u8>, TlsErrorView>,
)
    requires
        s.common.record_layer.encrypter is Some,
    ensures
        sent_encrypted(
            s.common,
            client_auth_sent(transcript, client_auth, s, outcome).2.common,
        ),
{
    lemma_sent_encrypted_same(s.common, s.common);
    if let Some(auth) = client_auth {
        let certificate = MessageView::handshake(
            HandshakeType::Certificate,
            HandshakePayloadView::CertificateTLS13(client_certificate(auth)),
        );
        lemma_message_sent_encrypted(s.common, certificate);
        let shown = s.common.with_sent(certificate, true);
        if let Some(signer) = auth.signer {
            if let Ok(sig) = outcome {
                let signature = MessageView::handshake(
                    HandshakeType::CertificateVerify,
                    HandshakePayloadView::CertificateVerify(
                        DigitallySignedView { scheme: signer.scheme, sig },
                    ),
                );
                lemma_message_sent_encrypted(shown, signature);
                lemma_sent_encrypted_trans(s.common, shown, shown.with_sent(signature, true));
            }
        }
    }
}

proof fn lemma_application_traffic_sent_encrypted<T: Hooks>(
    ks: KeySchedulePendingView,
    transcript: TranscriptView,
    s: SessionView<T>,
    hash: Seq<u8>,
    client_random: Seq<u8>,
)
    requires
        s.common.record_layer.encrypter is Some,
    ensures
        sent_encrypted(
            s.common,
            application_traffic_started(ks, transcript, s, hash, client_random).2.common,
        ),
{
    let finished = MessageView::handshake(
        HandshakeType::Finished,
        HandshakePayloadView::Finished(ks.client_finish(transcript.current_hash())),
    );
    let s1 = s.with_sent(finished, true);
    lemma_message_sent_encrypted(s.common, finished);
    lemma_alert_sent_encrypted(s1.common, AlertDescription::UnexpectedMessage);
    lemma_sent_encrypted_trans(
        s.common,
        s1.common,
        s1.common.alerted(AlertDescription::UnexpectedMessage),
    );
    if aligned_checked(s1).0 is Ok {
        let secrets = application_secrets(ks.traffic, hash);
        let suite = s.common.suite->0;
        let keyed = s1.common.with_decrypter(
            traffic_keys(suite, secrets.server->0),
        ).with_encrypter(traffic_keys(suite, secrets.client->0));
        lemma_sent_encrypted_same(s1.common, keyed);
        lemma_traffic_sent_encrypted(keyed);
        let last = application_traffic_started(ks, transcript, s, hash, client_random).2;
        assert(last.common.sendable_tls == keyed.with_traffic().sendable_tls);
        lemma_sent_encrypted_same(keyed.with_traffic(), last.common);
        lemma_sent_encrypted_trans(s.common, s1.common, keyed);
        lemma_sent_encrypted_trans(s.common, keyed, keyed.with_traffic());
        lemma_sent_encrypted_trans(s.common, keyed.with_traffic(), last.common);
    }
}

proof fn lemma_running_sent_encrypted<T: Hooks>(
    st: ExpectTrafficView,
    s: SessionView<T>,
    m: MessageView,
    now: Option<u64>,
)
    requires
        s.common.record_layer.encrypter is Some,
    ensures
        sent_encrypted(s.common, st.handled(s, m, now).1.common),
        sent_encrypted(s.common, st.handled_in_quic(s, m, now).1.common),
{
    lemma_sent_encrypted_same(s.common, s.common);
    lemma_sent_encrypted_same(s.common, st.handled_in_quic(s, m, now).1.common);
    lemma_alert_sent_encrypted(s.common, AlertDescription::UnexpectedMessage);
    lemma_alert_sent_encrypted(s.common, AlertDescription::IllegalParameter);
    let after = st.handled(s, m, now).1.common;
    if after.sendable_tls == s.common.sendable_tls {
        lemma_sent_encrypted_same(s.common, after);
    }
}

/// From the EncryptedExtensions on, nothing that a message makes the client send goes out in
/// the clear, alerts included.
pub proof fn nothing_is_sent_in_the_clear<T: Hooks>(
    st: ClientStateView<T>,
    s: SessionView<T>,
    m: MessageView,
    r: Result<ClientStateView<T>, TlsErrorView>,
    s1: SessionView<T>,
)
    requires
        st.is_ready(s),
        st.may_step(s, m, (r, s1)),
    ensures
        sent_encrypted(s.common, s1.common),
{
    lemma_sent_encrypted_same(s.common, s.common);
    match st {
        ClientStateView::ExpectEncryptedExtensions(due) => {
            lemma_extensions_sent_encrypted(due, s, m);
        },
        ClientStateView::ExpectCertificateOrCertReq(due) => {
            let certificate = ExpectCertificateView::<T> {
                hs: due.hs,
                may_send_sct_list: due.may_send_sct_list,
                client_auth: None,
            };
            lemma_certificate_sent_encrypted(certificate, s, m);
            lemma_request_sent_encrypted(due, s, m);
        },
        ClientStateView::ExpectCertificate(due) => {
            lemma_certificate_sent_encrypted(due, s, m);
        },
        ClientStateView::ExpectCertificateVerify(due) => {
            let now = choose|now: Option<u64>| (r, s1) == #[trigger] due.handled(s, m, now);
            if let Some(HandshakePayloadView::CertificateVerify(dss)) = handshake_payload(m) {
                if let Err(err) = due.verdict(s, dss, now) {
                    lemma_alert_sent_encrypted(
                        s.common,
                        cert_error_alert(err),
                    );
                }
            }
        },
        ClientStateView::ExpectFinished(due) => {
            let sig = choose|sig: Result<Seq<u8>, TlsErrorView>|
                finished_signature_possible(due, s, m, sig) && (r, s1)
                    == #[trigger] finished_handled(due, s, m, sig);
            lemma_finish_sent_encrypted(due, s, m, sig);
        },
        ClientStateView::ExpectTraffic(due) => {
            let now = choose|now: Option<u64>|
                (r, s1) == traffic_step(#[trigger] due.handled(s, m, now), false);
            lemma_running_sent_encrypted(due, s, m, now);
        },
        ClientStateView::ExpectQUICTraffic(due) => {
            let now = choose|now: Option<u64>|
                (r, s1) == traffic_step(#[trigger] due.handled_in_quic(s, m, now), true);
            lemma_running_sent_encrypted(due, s, m, now);
        },
    }
}

proof fn lemma_group_named(groups: Seq<SupportedKxGroup>, name: NamedGroup)
    ensures
        group_named(groups, name) matches Some(group) ==> groups.contains(group)
            && group.spec_name() == name,
        group_named(groups, name) is None ==> forall|i: int|
            0 <= i < groups.len() ==> (#[trigger] groups[i]).spec_name() != name,
    decreases groups.len(),
{
    if groups.len() > 0 {
        let rest = groups.drop_first();
        lemma_group_named(rest, name);
        if groups[0].spec_name() == name {
            assert(groups.contains(groups[0]));
        } else {
            if let Some(group) = group_named(rest, name) {
                let i = choose|i: int| 0 <= i < rest.len() && rest[i] == group;
                assert(groups[i + 1] == group);
            }
            assert forall|i: int|
                group_named(groups, name) is None && 0 <= i < groups.len() implies (
            #[trigger] groups[i]).spec_name() != name by {
                if i > 0 {
                    assert(groups[i] == rest[i - 1]);
                }
            }
        }
    }
}

/// A group that is configured and in which no share was offered yet is offered with exactly
/// one share. That share is kept, its keys are of the group, and its public key is the one
/// that is sent. Only where generating a key in a configured group of that name came to
/// nothing is there no share.
pub proof fn configured_group_is_offered_with_a_share<T: Hooks>(
    s: SessionView<T>,
    exts: Seq<ClientExtensionView>,
    hello: ClientHelloDetailsView,
    group: NamedGroup,
    outcome: (Seq<ClientExtensionView>, ClientHelloDetailsView),
)
    requires
        kx_groups_chosen(s, exts, hello, group, outcome),
        exists|i: int|
            0 <= i < s.config.kx_groups.len() && (#[trigger] s.config.kx_groups[i]).spec_name()
                == group,
        forall|i: int|
            0 <= i < hello.offered_key_shares.len() ==> (
            #[trigger] hello.offered_key_shares[i]).group.spec_name() != group,
    ensures
        outcome.0.len() == exts.len() + 1,
        outcome.0.drop_last() == exts,
        outcome.0.last() is KeyShare,
        outcome.1.sent_extensions == hello.sent_extensions,
        ({
            let entries = outcome.0.last()->KeyShare_0;
            let kept = outcome.1.offered_key_shares;
            ||| {
                &&& entries.len() == 1
                &&& entries[0].group == group
                &&& kept.len() == hello.offered_key_shares.len() + 1
                &&& kept.drop_last() == hello.offered_key_shares
                &&& kept.last().group.spec_name() == group
                &&& s.config.kx_groups.contains(kept.last().group)
                &&& group_of(kept.last().privkey) == kept.last().group
                &&& public_key_of(kept.last().privkey) == Some(entries[0].payload)
                &&& kept.last().pubkey == entries[0].payload
            }
            ||| {
                &&& entries.len() == 0
                &&& kept == hello.offered_key_shares
                &&& exists|
                    supported: SupportedKxGroup,
                    privkey: Option<ring::agreement::EphemeralPrivateKey>,
                | #[trigger]
                    generated_in(supported, privkey) && s.config.kx_groups.contains(supported)
                        && supported.spec_name() == group && (privkey is None || public_key_of(
                        privkey->0,
                    ) is None)
            }
        }),
{
    lemma_group_named(s.config.kx_groups, group);
    share_at_finds_a_share(hello.offered_key_shares, group);
    assert(hello.share(group) is None);
    let supported = group_named(s.config.kx_groups, group)->0;
    let privkey = choose|privkey: Option<ring::agreement::EphemeralPrivateKey>| #[trigger]
        generated_in(supported, privkey) && (privkey matches Some(key) ==> group_of(key)
            == supported) && outcome == share_offered(
            exts,
            hello,
            group,
            started_with(supported, privkey),
        );
    assert(outcome.0.drop_last() =~= exts);
    if started_with(supported, privkey) is Some {
        assert(outcome.1.offered_key_shares.drop_last() =~= hello.offered_key_shares);
    } else {
        assert(generated_in(supported, privkey));
    }
}

/// A share that was offered before is offered again unaltered: the same public key is sent,
/// and the same shares are kept, that one last.
pub proof fn offered_share_is_not_altered<T: Hooks>(
    s: SessionView<T>,
    exts: Seq<ClientExtensionView>,
    hello: ClientHelloDetailsView,
    group: NamedGroup,
    outcome: (Seq<ClientExtensionView>, ClientHelloDetailsView),
)
    requires
        kx_groups_chosen(s, exts, hello, group, outcome),
        exists|i: int|
            0 <= i < hello.offered_key_shares.len() && (
            #[trigger] hello.offered_key_shares[i]).group.spec_name() == group,
    ensures
        outcome.0.len() == exts.len() + 1,
        outcome.0.drop_last() == exts,
        outcome.0.last() is KeyShare,
        outcome.1.offered_key_shares.to_multiset() == hello.offered_key_shares.to_multiset(),
        ({
            let entries = outcome.0.last()->KeyShare_0;
            let kept = outcome.1.offered_key_shares;
            &&& entries.len() == 1
            &&& entries[0].group == group
            &&& kept.len() == hello.offered_key_shares.len()
            &&& kept.last().group.spec_name() == group
            &&& kept.last().pubkey == entries[0].payload
        }),
{
    broadcast use vstd::seq_lib::group_to_multiset_ensures;

    share_at_finds_a_share(hello.offered_key_shares, group);
    let shares = hello.offered_key_shares;
    let i = share_at(shares, group)->0;
    assert(outcome.0.drop_last() =~= exts);
    assert(outcome.1.offered_key_shares =~= shares.remove(i).push(shares[i]));
    assert(shares =~= shares.remove(i).insert(i, shares[i]));
    assert(shares.remove(i).to_multiset().insert(shares[i]) =~= shares.to_multiset());
}

/// A group that the server asks for goes before one that it is remembered to like, and that
/// before the first that is configured.
pub proof fn server_has_the_first_say_on_the_group<T: Hooks>(
    s: SessionView<T>,
    name: Seq<u8>,
    retryreq: Option<HelloRetryRequestView>,
)
    ensures
        retryreq matches Some(req) ==> (req.requested_key_share_group() matches Some(group)
            ==> chosen_group(s, name, retryreq) == Some(group)),
        (retryreq is None || retryreq->0.requested_key_share_group() is None) ==> {
            &&& kx_hint(s, name) is Some ==> chosen_group(s, name, retryreq) == kx_hint(s, name)
            &&& kx_hint(s, name) is None && s.config.kx_groups.len() > 0 ==> chosen_group(
                s,
                name,
                retryreq,
            ) == Some(s.config.kx_groups[0].spec_name())
        },
{
}

} // verus!
