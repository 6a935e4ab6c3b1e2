//! The end of the handshake: the Finished messages of both sides, and what the client sends
//! of itself.

use super::super::common::{ClientAuthDetails, ClientAuthView};
use super::super::hs::{aligned_checked, check_aligned_handshake};
use super::super::{ClientSession, EarlyDataState, Hooks, SessionView};
use super::states::{step_view, ClientState, ClientStateView, HandshakeView};
use super::traffic::{
    get_handshake_payload, handshake_payload, ExpectQUICTraffic, ExpectTraffic, ExpectTrafficView,
};
use crate::base::{Payload, PayloadU8};
use crate::check::{inappropriate, inappropriate_handshake_message};
use crate::codec::views;
use crate::crypto::verify_slices_are_equal;
use crate::enums::{AlertDescription, HandshakeType, SignatureScheme};
use crate::error::{seen, TlsError, TlsErrorView};
use crate::handshake::{
    CertificateEntry, CertificateEntryView, CertificatePayloadTLS13, CertificatePayloadView,
    DigitallySignedStruct, DigitallySignedView, HandshakePayload, HandshakePayloadView,
};
use crate::hash_hs::{HandshakeHash, TranscriptView};
use crate::key::Certificate;
use crate::key_log::KeyLogLabel;
use crate::key_schedule::{
    derive_traffic_keys, traffic_keys, KeyScheduleHandshake, KeyScheduleHandshakeView,
    KeySchedulePendingView, KeyScheduleTraffic, KeyScheduleTrafficView,
    KeyScheduleTrafficWithClientFinishedPending, Label,
};
use crate::message::{Message, MessageView};
use crate::pki::ServerName;
use crate::session::{CommonView, QuicView, Secrets, SecretsView, SessionRandoms};
use crate::sign::{signature_view, Signer, SigningKey};
use crate::suites::SupportedCipherSuite;
use crate::verify::{
    client_context, construct_tls13_client_verify_message, verdict_view, verify_message,
    FinishedMessageVerified, HandshakeSignatureValid, ServerCertVerified,
};
use vstd::prelude::*;

verus! {

/// A handshake message has been sent: it is in the transcript, and on its way under the keys
/// in force.
pub open spec fn message_emitted<T: Hooks>(
    transcript: TranscriptView,
    s: SessionView<T>,
    typ: HandshakeType,
    payload: HandshakePayloadView,
) -> (TranscriptView, SessionView<T>) {
    let m = MessageView::handshake(typ, payload);
    (transcript.with_message(m), s.with_sent(m, true))
}

fn emit_message<T: Hooks>(
    transcript: &mut HandshakeHash,
    sess: &mut ClientSession<T>,
    typ: HandshakeType,
    payload: HandshakePayload,
)
    requires
        old(sess)@.common.can_encrypt(),
    ensures
        (final(transcript)@, final(sess)@) == message_emitted(
            old(transcript)@,
            old(sess)@,
            typ,
            payload@,
        ),
{
    let m: Message = Message::build_handshake(typ, payload);
    transcript.add_message(&m);
    sess.common.send_msg(m, true);
}

/// The client's Certificate message. A client that shows nothing sends an empty chain.
pub open spec fn client_certificate<K: SigningKey>(
    client_auth: ClientAuthView<K>,
) -> CertificatePayloadView {
    CertificatePayloadView {
        context: match client_auth.auth_context {
            Some(context) => context,
            None => Seq::empty(),
        },
        entries: match client_auth.cert {
            Some(chain) => chain.map_values(
                |cert: Seq<u8>| CertificateEntryView { cert, exts: Seq::empty() },
            ),
            None => Seq::empty(),
        },
    }
}

/// Sends the client's certificate chain.
pub fn emit_certificate_tls13<T: Hooks>(
    transcript: &mut HandshakeHash,
    client_auth: &mut ClientAuthDetails<T::Key>,
    sess: &mut ClientSession<T>,
)
    requires
        old(sess)@.common.can_encrypt(),
    ensures
        (final(transcript)@, final(sess)@) == message_emitted(
            old(transcript)@,
            old(sess)@,
            HandshakeType::Certificate,
            HandshakePayloadView::CertificateTLS13(client_certificate(old(client_auth)@)),
        ),
        final(client_auth)@ == (ClientAuthView::<T::Key> {
            cert: None,
            auth_context: None,
            ..old(client_auth)@
        }),
{
    let ghost before = client_auth@;
    let context: Vec<u8> = match client_auth.auth_context.take() {
        Some(context) => context,
        None => Vec::new(),
    };
    let entries: Vec<CertificateEntry> = match client_auth.cert.take() {
        Some(chain) => entries_of(chain),
        None => Vec::new(),
    };
    let cert_payload = CertificatePayloadTLS13 { context: PayloadU8::new(context), entries };
    assert(cert_payload@.entries =~= client_certificate(before).entries);
    assert(cert_payload@.context =~= client_certificate(before).context);
    emit_message(
        transcript,
        sess,
        HandshakeType::Certificate,
        HandshakePayload::CertificateTLS13(cert_payload),
    );
}

/// The certificates of a chain, with nothing added to them.
fn entries_of(chain: Vec<Certificate>) -> (r: Vec<CertificateEntry>)
    ensures
        views(r@) == views(chain@).map_values(
            |cert: Seq<u8>| CertificateEntryView { cert, exts: Seq::empty() },
        ),
{
    let mut entries: Vec<CertificateEntry> = Vec::new();
    let mut i: usize = 0;
    while i < chain.len()
        invariant
            i <= chain@.len(),
            views(entries@) == views(chain@).take(i as int).map_values(
                |cert: Seq<u8>| CertificateEntryView { cert, exts: Seq::empty() },
            ),
        decreases chain@.len() - i,
    {
        let ghost before = entries@;
        let entry: CertificateEntry = CertificateEntry::new(chain[i].duplicate());
        let ghost entry_view = entry@;
        entries.push(entry);
        assert(views(entries@) =~= views(before).push(entry_view));
        assert(views(chain@).take(i + 1).map_values(
            |cert: Seq<u8>| CertificateEntryView { cert, exts: Seq::empty() },
        ) =~= views(chain@).take(i as int).map_values(
            |cert: Seq<u8>| CertificateEntryView { cert, exts: Seq::empty() },
        ).push(entry_view));
        i += 1;
    }
    assert(views(chain@).take(i as int) =~= views(chain@));
    entries
}

/// Whether the client's signature of the handshake may have this outcome.
pub open spec fn signature_possible<K: SigningKey>(
    transcript: TranscriptView,
    client_auth: ClientAuthView<K>,
    outcome: Result<Seq<u8>, TlsErrorView>,
) -> bool {
    client_auth.signer matches Some(signer) ==> K::may_sign(
        signer.key,
        signer.scheme,
        verify_message(client_context(), transcript.current_hash()),
        outcome,
    )
}

/// The outcome of signing the handshake, given what came of the signature. A client without
/// a key sends nothing.
pub open spec fn certverify_emitted<T: Hooks>(
    transcript: TranscriptView,
    client_auth: ClientAuthView<T::Key>,
    s: SessionView<T>,
    outcome: Result<Seq<u8>, TlsErrorView>,
) -> (Result<(), TlsErrorView>, TranscriptView, SessionView<T>) {
    match client_auth.signer {
        Some(signer) => match outcome {
            Ok(sig) => {
                let (transcript, s) = message_emitted(
                    transcript,
                    s,
                    HandshakeType::CertificateVerify,
                    HandshakePayloadView::CertificateVerify(
                        DigitallySignedView { scheme: signer.scheme, sig },
                    ),
                );
                (Ok(()), transcript, s)
            },
            Err(err) => (Err(err), transcript, s),
        },
        None => (Ok(()), transcript, s),
    }
}

/// Sends a signature of the handshake, if it came to one.
pub fn send_certverify<T: Hooks>(
    transcript: &mut HandshakeHash,
    sess: &mut ClientSession<T>,
    scheme: SignatureScheme,
    outcome: Result<Vec<u8>, TlsError>,
) -> (r: Result<(), TlsError>)
    requires
        old(sess)@.common.can_encrypt(),
    ensures
        match outcome {
            Ok(sig) => r is Ok && (final(transcript)@, final(sess)@) == message_emitted(
                old(transcript)@,
                old(sess)@,
                HandshakeType::CertificateVerify,
                HandshakePayloadView::CertificateVerify(DigitallySignedView { scheme, sig: sig@ }),
            ),
            Err(err) => r == Err::<(), TlsError>(err) && final(transcript)@ == old(transcript)@
                && final(sess)@ == old(sess)@,
        },
{
    let sig: Vec<u8> = match outcome {
        Ok(sig) => sig,
        Err(err) => {
            return Err(err);
        },
    };
    let dss: DigitallySignedStruct = DigitallySignedStruct::new(scheme, sig);
    emit_message(
        transcript,
        sess,
        HandshakeType::CertificateVerify,
        HandshakePayload::CertificateVerify(dss),
    );
    Ok(())
}

/// Signs the handshake with the client's key, where there is one.
pub fn emit_certverify_tls13<T: Hooks>(
    transcript: &mut HandshakeHash,
    client_auth: &mut ClientAuthDetails<T::Key>,
    sess: &mut ClientSession<T>,
) -> (r: Result<(), TlsError>)
    requires
        old(client_auth)@.signer is Some ==> old(transcript)@.alg is Some && old(
            sess,
        )@.common.can_encrypt(),
    ensures
        exists|outcome: Result<Seq<u8>, TlsErrorView>|
            signature_possible(old(transcript)@, old(client_auth)@, outcome) && (
                seen(r),
                final(transcript)@,
                final(sess)@,
            ) == #[trigger] certverify_emitted(
                old(transcript)@,
                old(client_auth)@,
                old(sess)@,
                outcome,
            ),
        final(client_auth)@ == (ClientAuthView::<T::Key> { signer: None, ..old(client_auth)@ }),
        final(transcript)@.alg == old(transcript)@.alg,
{
    let ghost before = client_auth@;
    let signer: Signer<T::Key> = match client_auth.signer.take() {
        Some(signer) => signer,
        None => {
            proof {
                let outcome: Result<Seq<u8>, TlsErrorView> = Ok(Seq::empty());
                assert(signature_possible(transcript@, before, outcome));
                assert(certverify_emitted(transcript@, before, sess@, outcome) == (
                    Ok::<(), TlsErrorView>(()),
                    transcript@,
                    sess@,
                ));
            }
            return Ok(());
        },
    };
    let handshake_hash: Vec<u8> = transcript.get_current_hash();
    let message: Vec<u8> = construct_tls13_client_verify_message(handshake_hash.as_slice());
    let outcome: Result<Vec<u8>, TlsError> = signer.sign(message.as_slice());
    let ghost seen_outcome = signature_view(outcome);
    let ghost transcript_before = transcript@;
    let ghost s = sess@;
    let r = send_certverify(transcript, sess, signer.get_scheme(), outcome);
    proof {
        assert(signature_possible(transcript_before, before, seen_outcome));
        assert((seen(r), transcript@, sess@) == certverify_emitted(
            transcript_before,
            before,
            s,
            seen_outcome,
        ));
    }
    r
}

/// Sends the client's Finished message.
pub fn emit_finished_tls13<T: Hooks>(
    transcript: &mut HandshakeHash,
    key_schedule: &KeyScheduleTrafficWithClientFinishedPending,
    sess: &mut ClientSession<T>,
)
    requires
        old(transcript)@.alg is Some,
        old(sess)@.common.can_encrypt(),
    ensures
        (final(transcript)@, final(sess)@) == message_emitted(
            old(transcript)@,
            old(sess)@,
            HandshakeType::Finished,
            HandshakePayloadView::Finished(
                key_schedule@.client_finish(old(transcript)@.current_hash()),
            ),
        ),
{
    let handshake_hash: Vec<u8> = transcript.get_current_hash();
    let verify_data: Vec<u8> = key_schedule.sign_client_finish(handshake_hash.as_slice());
    let verify_data_payload: Payload = Payload::new(verify_data.as_slice());
    emit_message(
        transcript,
        sess,
        HandshakeType::Finished,
        HandshakePayload::Finished(verify_data_payload),
    );
}

/// The end of early data has been announced. QUIC has other means for that.
pub open spec fn end_of_early_data_emitted<T: Hooks>(
    transcript: TranscriptView,
    s: SessionView<T>,
) -> (TranscriptView, SessionView<T>) {
    if s.common.is_quic() {
        (transcript, s)
    } else {
        message_emitted(
            transcript,
            s,
            HandshakeType::EndOfEarlyData,
            HandshakePayloadView::EndOfEarlyData,
        )
    }
}

/// Announces the end of early data.
pub fn emit_end_of_early_data_tls13<T: Hooks>(
    transcript: &mut HandshakeHash,
    sess: &mut ClientSession<T>,
)
    requires
        old(sess)@.common.can_encrypt(),
    ensures
        (final(transcript)@, final(sess)@) == end_of_early_data_emitted(
            old(transcript)@,
            old(sess)@,
        ),
{
    if sess.common.is_quic() {
        return;
    }
    emit_message(
        transcript,
        sess,
        HandshakeType::EndOfEarlyData,
        HandshakePayload::EndOfEarlyData,
    );
}

/// The verdict on the server's Finished message.
pub open spec fn finished_checked<T: Hooks>(
    s: SessionView<T>,
    expected: Seq<u8>,
    received: Seq<u8>,
) -> (Result<(), TlsErrorView>, SessionView<T>) {
    if expected == received {
        (Ok(()), s)
    } else {
        (Err(TlsErrorView::DecryptError), s.alerted(AlertDescription::DecryptError))
    }
}

/// Holds the server's Finished message against the one that is expected.
pub fn check_finished<T: Hooks>(
    sess: &mut ClientSession<T>,
    expected: &[u8],
    received: &[u8],
) -> (r: Result<FinishedMessageVerified, TlsError>)
    ensures
        (verdict_view(r), final(sess)@) == finished_checked(old(sess)@, expected@, received@),
{
    if verify_slices_are_equal(expected, received) {
        Ok(FinishedMessageVerified::assertion())
    } else {
        sess.common.send_fatal_alert(AlertDescription::DecryptError);
        Err(TlsError::DecryptError)
    }
}

/// Early data, where it is being sent, is over: its end is announced under its own keys, and
/// the keys of the handshake take over.
pub open spec fn early_data_left<T: Hooks>(
    ks: KeyScheduleHandshakeView,
    transcript: TranscriptView,
    s: SessionView<T>,
    hash: Seq<u8>,
    client_random: Seq<u8>,
) -> (KeyScheduleHandshakeView, TranscriptView, SessionView<T>) {
    if s.common.early_traffic {
        let secret = ks.client_secret(hash);
        let (transcript, s1) = end_of_early_data_emitted(
            transcript,
            s.logged(KeyLogLabel::ClientHandshakeTrafficSecret, client_random, secret),
        );
        (
            ks.with_client(hash),
            transcript,
            s1.with_early_traffic(false).with_early_data(
                EarlyDataState::AcceptedFinished,
            ).with_encrypter(traffic_keys(s.common.suite->0, secret)),
        )
    } else {
        (ks, transcript, s)
    }
}

fn leave_early_data<T: Hooks>(
    key_schedule: &mut KeyScheduleHandshake,
    transcript: &mut HandshakeHash,
    sess: &mut ClientSession<T>,
    hash: &[u8],
    randoms: &SessionRandoms,
)
    requires
        old(sess)@.common.can_encrypt(),
        old(sess)@.common.suite is Some,
        old(sess)@.common.early_traffic ==> old(sess)@.early_data.state
            == EarlyDataState::Accepted,
    ensures
        (final(key_schedule)@, final(transcript)@, final(sess)@) == early_data_left(
            old(key_schedule)@,
            old(transcript)@,
            old(sess)@,
            hash@,
            randoms@,
        ),
{
    if sess.common.early_traffic {
        let suite: SupportedCipherSuite = sess.common.get_suite_assert();
        let write_key: Vec<u8> = key_schedule.client_handshake_traffic_secret(
            hash,
            &mut sess.config.key_log,
            &randoms.client,
        );
        emit_end_of_early_data_tls13(transcript, sess);
        sess.common.early_traffic = false;
        sess.early_data.finished();
        sess.common.record_layer.set_message_encrypter(
            derive_traffic_keys(suite, write_key.as_slice()),
        );
    }
}

/// The client has answered a request for a certificate, where there was one, given what came
/// of its signature.
pub open spec fn client_auth_sent<T: Hooks>(
    transcript: TranscriptView,
    client_auth: Option<ClientAuthView<T::Key>>,
    s: SessionView<T>,
    outcome: Result<Seq<u8>, TlsErrorView>,
) -> (Result<(), TlsErrorView>, TranscriptView, SessionView<T>) {
    match client_auth {
        Some(client_auth) => {
            let (transcript, s) = message_emitted(
                transcript,
                s,
                HandshakeType::Certificate,
                HandshakePayloadView::CertificateTLS13(client_certificate(client_auth)),
            );
            certverify_emitted(transcript, client_auth, s, outcome)
        },
        None => (Ok(()), transcript, s),
    }
}

/// Whether the signature in the client's answer may have this outcome.
pub open spec fn auth_signature_possible<K: SigningKey>(
    transcript: TranscriptView,
    client_auth: Option<ClientAuthView<K>>,
    outcome: Result<Seq<u8>, TlsErrorView>,
) -> bool {
    client_auth matches Some(client_auth) ==> signature_possible(
        transcript.with_message(
            MessageView::handshake(
                HandshakeType::Certificate,
                HandshakePayloadView::CertificateTLS13(client_certificate(client_auth)),
            ),
        ),
        client_auth,
        outcome,
    )
}

fn send_client_auth<T: Hooks>(
    transcript: &mut HandshakeHash,
    client_auth: Option<ClientAuthDetails<T::Key>>,
    sess: &mut ClientSession<T>,
) -> (r: Result<(), TlsError>)
    requires
        old(transcript)@.alg is Some,
        old(sess)@.common.can_encrypt(),
    ensures
        exists|outcome: Result<Seq<u8>, TlsErrorView>|
            auth_signature_possible(old(transcript)@, auth_view(client_auth), outcome) && (
                seen(r),
                final(transcript)@,
                final(sess)@,
            ) == #[trigger] client_auth_sent(
                old(transcript)@,
                auth_view(client_auth),
                old(sess)@,
                outcome,
            ),
        final(transcript)@.alg == old(transcript)@.alg,
{
    match client_auth {
        Some(client_auth) => {
            let mut client_auth = client_auth;
            let ghost auth = client_auth@;
            let ghost t0 = transcript@;
            let ghost s0 = sess@;
            emit_certificate_tls13(transcript, &mut client_auth, sess);
            let ghost t1 = transcript@;
            let ghost s1 = sess@;
            let ghost auth1 = client_auth@;
            let r = emit_certverify_tls13(transcript, &mut client_auth, sess);
            proof {
                let outcome = choose|outcome: Result<Seq<u8>, TlsErrorView>|
                    signature_possible(t1, auth1, outcome) && (seen(r), transcript@, sess@)
                        == #[trigger] certverify_emitted(t1, auth1, s1, outcome);
                assert(auth_signature_possible(t0, Some(auth), outcome));
                assert((seen(r), transcript@, sess@) == client_auth_sent(
                    t0,
                    Some(auth),
                    s0,
                    outcome,
                ));
            }
            r
        },
        None => {
            proof {
                let outcome: Result<Seq<u8>, TlsErrorView> = Ok(Seq::empty());
                assert(auth_signature_possible::<T::Key>(transcript@, None, outcome));
                assert(client_auth_sent(transcript@, None, sess@, outcome) == (
                    Ok::<(), TlsErrorView>(()),
                    transcript@,
                    sess@,
                ));
            }
            Ok(())
        },
    }
}

pub open spec fn auth_view<K: SigningKey>(client_auth: Option<ClientAuthDetails<K>>) -> Option<
    ClientAuthView<K>,
> {
    match client_auth {
        Some(client_auth) => Some(client_auth@),
        None => None,
    }
}

/// The schedule once all secrets of the running session are derived.
pub open spec fn application_secrets(ks: KeyScheduleTrafficView, hash: Seq<u8>) ->
    KeyScheduleTrafficView {
    KeyScheduleTrafficView {
        client: Some(ks.ks.derived(Label::ClientApplicationTraffic, hash)),
        server: Some(ks.ks.derived(Label::ServerApplicationTraffic, hash)),
        exporter: Some(ks.ks.derived(Label::ExporterMaster, hash)),
        ..ks
    }
}

/// The outcome of the client's Finished message and the change to the keys of the running
/// session.
pub open spec fn application_traffic_started<T: Hooks>(
    ks: KeySchedulePendingView,
    transcript: TranscriptView,
    s: SessionView<T>,
    hash: Seq<u8>,
    client_random: Seq<u8>,
) -> (Result<KeyScheduleTrafficView, TlsErrorView>, TranscriptView, SessionView<T>) {
    let secrets = application_secrets(ks.traffic, hash);
    let suite = s.common.suite->0;
    let (transcript, s1) = message_emitted(
        transcript,
        s,
        HandshakeType::Finished,
        HandshakePayloadView::Finished(ks.client_finish(transcript.current_hash())),
    );
    match aligned_checked(s1) {
        (Err(err), s2) => (Err(err), transcript, s2),
        (Ok(()), s2) => {
            let s3 = s2.logged(
                KeyLogLabel::ServerTrafficSecret0,
                client_random,
                secrets.server->0,
            ).with_decrypter(traffic_keys(suite, secrets.server->0));
            let s4 = s3.logged(KeyLogLabel::ExporterSecret, client_random, secrets.exporter->0);
            let s5 = s4.logged(
                KeyLogLabel::ClientTrafficSecret0,
                client_random,
                secrets.client->0,
            ).with_encrypter(traffic_keys(suite, secrets.client->0));
            let s6 = SessionView { common: s5.common.with_traffic(), ..s5 };
            let s7 = if s6.common.is_quic() {
                SessionView {
                    common: CommonView {
                        quic: QuicView {
                            traffic_secrets: Some(
                                SecretsView {
                                    client: secrets.client->0,
                                    server: secrets.server->0,
                                },
                            ),
                            ..s6.common.quic
                        },
                        ..s6.common
                    },
                    ..s6
                }
            } else {
                s6
            };
            (Ok(secrets), transcript, s7)
        },
    }
}

fn start_application_traffic<T: Hooks>(
    key_schedule: KeyScheduleTrafficWithClientFinishedPending,
    transcript: &mut HandshakeHash,
    sess: &mut ClientSession<T>,
    hash: &[u8],
    randoms: &SessionRandoms,
) -> (r: Result<KeyScheduleTraffic, TlsError>)
    requires
        old(transcript)@.alg is Some,
        old(sess)@.common.can_encrypt(),
        old(sess)@.common.suite is Some,
    ensures
        (
            match r {
                Ok(ks) => Ok(ks@),
                Err(err) => Err(err@),
            },
            final(transcript)@,
            final(sess)@,
        ) == application_traffic_started(
            key_schedule@,
            old(transcript)@,
            old(sess)@,
            hash@,
            randoms@,
        ),
{
    let ghost ks = key_schedule@;
    let mut key_schedule = key_schedule;
    emit_finished_tls13(transcript, &key_schedule, sess);
    // Now move to the keys of the running session.
    match check_aligned_handshake(sess) {
        Ok(()) => {},
        Err(err) => {
            return Err(err);
        },
    }
    let suite: SupportedCipherSuite = sess.common.get_suite_assert();
    let read_key: Vec<u8> = key_schedule.server_application_traffic_secret(
        hash,
        &mut sess.config.key_log,
        &randoms.client,
    );
    sess.common.record_layer.set_message_decrypter(
        derive_traffic_keys(suite, read_key.as_slice()),
    );
    key_schedule.exporter_master_secret(hash, &mut sess.config.key_log, &randoms.client);
    let write_key: Vec<u8> = key_schedule.client_application_traffic_secret(
        hash,
        &mut sess.config.key_log,
        &randoms.client,
    );
    sess.common.record_layer.set_message_encrypter(
        derive_traffic_keys(suite, write_key.as_slice()),
    );
    sess.common.start_traffic();
    if sess.common.is_quic() {
        sess.common.quic.traffic_secrets = Some(Secrets { client: write_key, server: read_key });
    }
    let traffic: KeyScheduleTraffic = key_schedule.into_traffic();
    assert(traffic@ == application_secrets(ks.traffic, hash@));
    Ok(traffic)
}

/// In this state the server's Finished message is due.
pub struct ExpectFinished<T: Hooks> {
    pub dns_name: ServerName,
    pub randoms: SessionRandoms,
    pub transcript: HandshakeHash,
    pub key_schedule: KeyScheduleHandshake,
    pub client_auth: Option<ClientAuthDetails<T::Key>>,
    pub cert_verified: ServerCertVerified,
    pub sig_verified: HandshakeSignatureValid,
    pub hash_at_client_recvd_server_hello: Vec<u8>,
}

#[verifier::ext_equal]
pub struct ExpectFinishedView<T: Hooks> {
    pub hs: HandshakeView,
    pub client_auth: Option<ClientAuthView<T::Key>>,
}

impl<T: Hooks> View for ExpectFinished<T> {
    type V = ExpectFinishedView<T>;

    open spec fn view(&self) -> ExpectFinishedView<T> {
        ExpectFinishedView {
            hs: HandshakeView {
                dns_name: self.dns_name@,
                client_random: self.randoms@,
                transcript: self.transcript@,
                key_schedule: self.key_schedule@,
                hash_at_server_hello: self.hash_at_client_recvd_server_hello@,
            },
            client_auth: auth_view(self.client_auth),
        }
    }
}

impl<T: Hooks> ExpectFinishedView<T> {
    /// Whether what a message needs is there.
    pub open spec fn can_handle(self, s: SessionView<T>, m: MessageView) -> bool {
        handshake_payload(m) matches Some(HandshakePayloadView::Finished(verify_data)) ==> {
            &&& self.hs.transcript.alg is Some
            &&& self.hs.key_schedule.server is Some
            &&& verify_data == self.expected() ==> self.is_ready(s)
        }
    }

    /// Whether the handshake can be finished.
    pub open spec fn is_ready(self, s: SessionView<T>) -> bool {
        &&& self.hs.is_ready(s)
        &&& self.hs.key_schedule.client is Some || s.common.early_traffic
        &&& s.common.early_traffic ==> s.early_data.state == EarlyDataState::Accepted
    }

    /// The server's Finished message that is expected.
    pub open spec fn expected(self) -> Seq<u8> {
        self.hs.key_schedule.server_finish(self.hs.transcript.current_hash())
    }

    /// The schedule, the transcript and the session when the client answers for itself.
    pub open spec fn before_auth(self, s: SessionView<T>, m: MessageView) -> (
        KeyScheduleHandshakeView,
        TranscriptView,
        SessionView<T>,
    ) {
        early_data_left(
            self.hs.key_schedule,
            self.hs.transcript.with_message(m),
            s,
            self.hs.hash_at_server_hello,
            self.hs.client_random,
        )
    }
}

/// The outcome of the server's Finished message, given what came of the client's signature.
pub open spec fn finished_handled<T: Hooks>(
    st: ExpectFinishedView<T>,
    s: SessionView<T>,
    m: MessageView,
    outcome: Result<Seq<u8>, TlsErrorView>,
) -> (Result<ClientStateView<T>, TlsErrorView>, SessionView<T>) {
    match handshake_payload(m) {
        Some(HandshakePayloadView::Finished(received)) => match finished_checked(
            s,
            st.expected(),
            received,
        ) {
            (Err(err), s1) => (Err(err), s1),
            (Ok(()), s1) => {
                let (ks, transcript, s2) = st.before_auth(s1, m);
                match client_auth_sent(transcript, st.client_auth, s2, outcome) {
                    (Err(err), _, s3) => (Err(err), s3),
                    (Ok(()), transcript, s3) => match application_traffic_started(
                        ks.finish(),
                        transcript,
                        s3,
                        st.hs.transcript.with_message(m).current_hash(),
                        st.hs.client_random,
                    ) {
                        (Err(err), _, s4) => (Err(err), s4),
                        (Ok(key_schedule), transcript, s4) => {
                            let next = ExpectTrafficView {
                                dns_name: st.hs.dns_name,
                                transcript,
                                key_schedule,
                                want_write_key_update: false,
                            };
                            (
                                Ok(
                                    if s4.common.is_quic() {
                                        ClientStateView::ExpectQUICTraffic(next)
                                    } else {
                                        ClientStateView::ExpectTraffic(next)
                                    },
                                ),
                                s4,
                            )
                        },
                    },
                }
            },
        },
        _ => (Err(inappropriate(m, HandshakeType::Finished)), s),
    }
}

/// Whether the client's signature may have this outcome, if the server's message lets it come
/// to one.
pub open spec fn finished_signature_possible<T: Hooks>(
    st: ExpectFinishedView<T>,
    s: SessionView<T>,
    m: MessageView,
    outcome: Result<Seq<u8>, TlsErrorView>,
) -> bool {
    handshake_payload(m) == Some(HandshakePayloadView::Finished(st.expected()))
        ==> auth_signature_possible(st.before_auth(s, m).1, st.client_auth, outcome)
}

impl<T: Hooks> ExpectFinished<T> {
    /// Handles a message.
    pub fn handle(self, sess: &mut ClientSession<T>, m: Message) -> (r: Result<
        ClientState<T>,
        TlsError,
    >)
        requires
            self@.can_handle(old(sess)@, m@),
        ensures
            exists|outcome: Result<Seq<u8>, TlsErrorView>|
                finished_signature_possible(self@, old(sess)@, m@, outcome) && (
                    step_view(r),
                    final(sess)@,
                ) == #[trigger] finished_handled(self@, old(sess)@, m@, outcome),
    {
        let ghost st_view = self@;
        let ghost s0 = sess@;
        let ghost any: Result<Seq<u8>, TlsErrorView> = Ok(Seq::empty());
        let finished: &Payload = match get_handshake_payload(&m) {
            Some(HandshakePayload::Finished(finished)) => finished,
            _ => {
                let err: TlsError = inappropriate_handshake_message(&m, HandshakeType::Finished);
                assert(finished_signature_possible(st_view, s0, m@, any));
                assert((Err::<ClientStateView<T>, TlsErrorView>(err@), sess@) == finished_handled(
                    st_view,
                    s0,
                    m@,
                    any,
                ));
                return Err(err);
            },
        };
        let mut st = self;
        let handshake_hash: Vec<u8> = st.transcript.get_current_hash();
        let expect_verify_data: Vec<u8> = st.key_schedule.sign_server_finish(
            handshake_hash.as_slice(),
        );
        let fin: FinishedMessageVerified = match check_finished(
            sess,
            expect_verify_data.as_slice(),
            finished.0.as_slice(),
        ) {
            Ok(fin) => fin,
            Err(err) => {
                assert(finished_signature_possible(st_view, s0, m@, any));
                assert((Err::<ClientStateView<T>, TlsErrorView>(err@), sess@) == finished_handled(
                    st_view,
                    s0,
                    m@,
                    any,
                ));
                return Err(err);
            },
        };
        st.transcript.add_message(&m);
        let hash_after_handshake: Vec<u8> = st.transcript.get_current_hash();
        leave_early_data(
            &mut st.key_schedule,
            &mut st.transcript,
            sess,
            st.hash_at_client_recvd_server_hello.as_slice(),
            &st.randoms,
        );
        let ghost t1 = st.transcript@;
        let ghost s1 = sess@;
        let sent: Result<(), TlsError> = send_client_auth(&mut st.transcript, st.client_auth, sess);
        let ghost outcome = choose|outcome: Result<Seq<u8>, TlsErrorView>|
            auth_signature_possible(t1, st_view.client_auth, outcome) && (
                seen(sent),
                st.transcript@,
                sess@,
            ) == #[trigger] client_auth_sent(t1, st_view.client_auth, s1, outcome);
        assert(finished_signature_possible(st_view, s0, m@, outcome));
        match sent {
            Ok(()) => {},
            Err(err) => {
                assert((Err::<ClientStateView<T>, TlsErrorView>(err@), sess@) == finished_handled(
                    st_view,
                    s0,
                    m@,
                    outcome,
                ));
                return Err(err);
            },
        }
        let pending: KeyScheduleTrafficWithClientFinishedPending =
            st.key_schedule.into_traffic_with_client_finished_pending();
        let key_schedule: KeyScheduleTraffic = match start_application_traffic(
            pending,
            &mut st.transcript,
            sess,
            hash_after_handshake.as_slice(),
            &st.randoms,
        ) {
            Ok(key_schedule) => key_schedule,
            Err(err) => {
                assert((Err::<ClientStateView<T>, TlsErrorView>(err@), sess@) == finished_handled(
                    st_view,
                    s0,
                    m@,
                    outcome,
                ));
                return Err(err);
            },
        };
        let next = ExpectTraffic {
            dns_name: st.dns_name,
            transcript: st.transcript,
            key_schedule,
            want_write_key_update: false,
            cert_verified: st.cert_verified,
            sig_verified: st.sig_verified,
            fin_verified: fin,
        };
        let r: Result<ClientState<T>, TlsError> = if sess.common.is_quic() {
            Ok(ClientState::ExpectQUICTraffic(ExpectQUICTraffic(next)))
        } else {
            Ok(ClientState::ExpectTraffic(next))
        };
        assert((step_view(r), sess@) == finished_handled(st_view, s0, m@, outcome));
        r
    }
}

} // verus!
