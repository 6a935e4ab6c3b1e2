//! The states of the handshake, from the ServerHello to the server's Finished message.

use super::super::common::{
    ClientAuthDetails, ClientAuthView, ClientHelloDetails, ClientHelloDetailsView, HandshakeDetails,
    HandshakeDetailsView, ServerCertDetails, ServerCertView,
};
use super::super::hs::{
    alpn_processed, process_alpn_protocol, sct_list_invalid, sct_list_is_invalid,
};
use super::super::{ClientSession, EarlyDataState, Hooks, ResolvesClientCert, SessionView};
use super::finish::{
    auth_view, finished_handled, finished_signature_possible, ExpectFinished, ExpectFinishedView,
};
use super::traffic::{
    clock, get_handshake_payload, handshake_payload, is_coherent, ExpectQUICTraffic,
    ExpectTraffic, ExpectTrafficView,
};
use super::{encrypted_extensions_validated, validate_encrypted_extensions};
use crate::base::PayloadU16;
use crate::check::{check_message, checked, inappropriate, inappropriate_handshake_message};
use crate::codec::{to_vec, views};
use crate::crypto::max_okm_len;
use crate::enums::{
    AlertDescription, ContentType, ExtensionType, HandshakeType, SignatureScheme,
};
use crate::error::{misbehaved, PKIError, PKIErrorView, TlsError, TlsErrorView};
use crate::extensions::ServerExtension;
use crate::handshake::{
    alpn_protocol, early_data_extension_offered, early_data_offered, get_alpn_protocol,
    get_quic_params_extension, quic_params, CertificatePayloadTLS13, CertificatePayloadView,
    CertificateRequestPayloadTLS13, CertificateRequestView, DigitallySignedStruct,
    DigitallySignedView, HandshakePayload, HandshakePayloadView,
};
use crate::hash_hs::{HandshakeHash, TranscriptView};
use crate::key::{duplicate_chain, Certificate};
use crate::key_log::KeyLogLabel;
use crate::key_schedule::{
    derive_traffic_keys, traffic_keys, KeyScheduleHandshake, KeyScheduleHandshakeView,
};
use crate::message::{Message, MessagePayload, MessageView};
use crate::pki::ServerName;
use crate::session::{CommonView, QuicView, SessionRandoms};
use crate::sign::{
    holds_scheme, supported_sign_tls13, tls13_schemes, Signer, SignerView, SigningKey,
};
use crate::suites::SupportedCipherSuite;
use crate::ticketer::{clock_read, time_view, TimeBase};
use crate::verify::{
    construct_tls13_server_verify_message, server_context, verdict_view, verify_message,
    HandshakeSignatureValid, ServerCertVerified, ServerCertVerifier,
};
use vstd::prelude::*;
use vstd::slice::slice_subrange;

verus! {

/// What every state of the encrypted handshake holds.
#[verifier::ext_equal]
pub struct HandshakeView {
    pub dns_name: Seq<u8>,
    pub client_random: Seq<u8>,
    pub transcript: TranscriptView,
    pub key_schedule: KeyScheduleHandshakeView,
    pub hash_at_server_hello: Seq<u8>,
}

impl HandshakeView {
    /// With one more message.
    pub open spec fn with_message(self, m: MessageView) -> HandshakeView {
        HandshakeView { transcript: self.transcript.with_message(m), ..self }
    }

    /// Whether the handshake can be finished, as far as the server is concerned.
    pub open spec fn is_ready<T: Hooks>(self, s: SessionView<T>) -> bool {
        &&& self.transcript.alg is Some
        &&& self.key_schedule.server is Some
        &&& s.common.suite is Some
        &&& s.common.record_layer.encrypter is Some
    }
}

/// What the client expects next.
pub enum ClientState<T: Hooks> {
    ExpectEncryptedExtensions(ExpectEncryptedExtensions),
    ExpectCertificateOrCertReq(ExpectCertificateOrCertReq),
    ExpectCertificate(ExpectCertificate<T>),
    ExpectCertificateVerify(ExpectCertificateVerify<T>),
    ExpectFinished(ExpectFinished<T>),
    ExpectTraffic(ExpectTraffic),
    ExpectQUICTraffic(ExpectQUICTraffic),
}

#[verifier::ext_equal]
pub enum ClientStateView<T: Hooks> {
    ExpectEncryptedExtensions(ExpectEncryptedExtensionsView),
    ExpectCertificateOrCertReq(ExpectCertificateOrCertReqView),
    ExpectCertificate(ExpectCertificateView<T>),
    ExpectCertificateVerify(ExpectCertificateVerifyView<T>),
    ExpectFinished(ExpectFinishedView<T>),
    ExpectTraffic(ExpectTrafficView),
    ExpectQUICTraffic(ExpectTrafficView),
}

impl<T: Hooks> View for ClientState<T> {
    type V = ClientStateView<T>;

    open spec fn view(&self) -> ClientStateView<T> {
        match *self {
            ClientState::ExpectEncryptedExtensions(st) =>
                ClientStateView::ExpectEncryptedExtensions(st@),
            ClientState::ExpectCertificateOrCertReq(st) =>
                ClientStateView::ExpectCertificateOrCertReq(st@),
            ClientState::ExpectCertificate(st) => ClientStateView::ExpectCertificate(st@),
            ClientState::ExpectCertificateVerify(st) => ClientStateView::ExpectCertificateVerify(
                st@,
            ),
            ClientState::ExpectFinished(st) => ClientStateView::ExpectFinished(st@),
            ClientState::ExpectTraffic(st) => ClientStateView::ExpectTraffic(st@),
            ClientState::ExpectQUICTraffic(st) => ClientStateView::ExpectQUICTraffic(st@),
        }
    }
}

/// A state or an error, by their views.
pub open spec fn step_view<T: Hooks>(r: Result<ClientState<T>, TlsError>) -> Result<
    ClientStateView<T>,
    TlsErrorView,
> {
    match r {
        Ok(st) => Ok(st@),
        Err(err) => Err(err@),
    }
}

/// In this state the EncryptedExtensions are due.
pub struct ExpectEncryptedExtensions {
    pub handshake: HandshakeDetails,
    pub dns_name: ServerName,
    pub randoms: SessionRandoms,
    pub transcript: HandshakeHash,
    pub key_schedule: KeyScheduleHandshake,
    pub hello: ClientHelloDetails,
    pub hash_at_client_recvd_server_hello: Vec<u8>,
}

#[verifier::ext_equal]
pub struct ExpectEncryptedExtensionsView {
    pub handshake: HandshakeDetailsView,
    pub hs: HandshakeView,
    pub hello: ClientHelloDetailsView,
}

impl View for ExpectEncryptedExtensions {
    type V = ExpectEncryptedExtensionsView;

    open spec fn view(&self) -> ExpectEncryptedExtensionsView {
        ExpectEncryptedExtensionsView {
            handshake: self.handshake@,
            hs: HandshakeView {
                dns_name: self.dns_name@,
                client_random: self.randoms@,
                transcript: self.transcript@,
                key_schedule: self.key_schedule@,
                hash_at_server_hello: self.hash_at_client_recvd_server_hello@,
            },
            hello: self.hello@,
        }
    }
}

/// The server's word on early data, where it was being sent: the schedule and the session
/// afterwards. Where it is refused, the keys of the handshake take over.
pub open spec fn early_data_settled<T: Hooks>(
    ks: KeyScheduleHandshakeView,
    hash: Seq<u8>,
    client_random: Seq<u8>,
    s: SessionView<T>,
    accepted: bool,
) -> (KeyScheduleHandshakeView, SessionView<T>) {
    if !s.common.early_traffic {
        (ks, s)
    } else if accepted {
        (ks, s.with_early_data(EarlyDataState::Accepted))
    } else {
        let secret = ks.client_secret(hash);
        (
            ks.with_client(hash),
            s.with_early_data(EarlyDataState::Rejected).with_early_traffic(false).logged(
                KeyLogLabel::ClientHandshakeTrafficSecret,
                client_random,
                secret,
            ).with_encrypter(traffic_keys(s.common.suite->0, secret)),
        )
    }
}

/// Whether what the server's word on early data needs is there, where it was being sent:
/// that it was offered, to accept it, or a suite for other keys, to refuse it.
pub open spec fn can_settle_early_data<T: Hooks>(s: SessionView<T>, accepted: bool) -> bool {
    s.common.early_traffic ==> if accepted {
        s.early_data.state == EarlyDataState::Ready
    } else {
        s.common.suite is Some
    }
}

/// The session after the server's QUIC transport parameters have been noted.
pub open spec fn quic_params_noted<T: Hooks>(
    s: SessionView<T>,
    params: Option<Seq<u8>>,
) -> SessionView<T> {
    if params is Some {
        SessionView {
            common: CommonView { quic: QuicView { params, ..s.common.quic }, ..s.common },
            ..s
        }
    } else {
        s
    }
}

impl ExpectEncryptedExtensionsView {
    /// Whether what a message needs is there.
    pub open spec fn can_handle<T: Hooks>(self, s: SessionView<T>, m: MessageView) -> bool {
        match handshake_payload(m) {
            Some(HandshakePayloadView::EncryptedExtensions(exts)) => {
                let (validated, s1) = encrypted_extensions_validated(s, self.hello, exts);
                validated is Ok && alpn_processed(s1, alpn_protocol(exts)).0 is Ok
                    && self.handshake.resuming_session is Some ==> can_settle_early_data(
                    s,
                    early_data_offered(exts),
                )
            },
            _ => true,
        }
    }

    /// The outcome of a message.
    pub open spec fn handled<T: Hooks>(self, s: SessionView<T>, m: MessageView) -> (
        Result<ClientStateView<T>, TlsErrorView>,
        SessionView<T>,
    ) {
        match handshake_payload(m) {
            Some(HandshakePayloadView::EncryptedExtensions(exts)) => {
                match encrypted_extensions_validated(s, self.hello, exts) {
                    (Err(err), s1) => (Err(err), s1),
                    (Ok(()), s1) => match alpn_processed(s1, alpn_protocol(exts)) {
                        (Err(err), s2) => (Err(err), s2),
                        (Ok(()), s2) => self.accepted(
                            quic_params_noted(s2, quic_params(exts)),
                            m,
                            early_data_offered(exts),
                        ),
                    },
                }
            },
            _ => (Err(inappropriate(m, HandshakeType::EncryptedExtensions)), s),
        }
    }

    /// The outcome of extensions that nothing is wrong with. A session that is resumed needs
    /// no certificate: it continues the one that was judged.
    pub open spec fn accepted<T: Hooks>(
        self,
        s: SessionView<T>,
        m: MessageView,
        early_data_offered: bool,
    ) -> (Result<ClientStateView<T>, TlsErrorView>, SessionView<T>) {
        let hs = self.hs.with_message(m);
        match self.handshake.resuming_session {
            Some(resuming) => {
                let (key_schedule, s1) = early_data_settled(
                    hs.key_schedule,
                    hs.hash_at_server_hello,
                    hs.client_random,
                    s,
                    early_data_offered,
                );
                (
                    Ok(
                        ClientStateView::ExpectFinished(
                            ExpectFinishedView {
                                hs: HandshakeView { key_schedule, ..hs },
                                client_auth: None,
                            },
                        ),
                    ),
                    SessionView { server_cert_chain: resuming.value.server_cert_chain, ..s1 },
                )
            },
            None => if early_data_offered {
                (Err(misbehaved("server sent early data extension without resumption")), s)
            } else {
                (
                    Ok(
                        ClientStateView::ExpectCertificateOrCertReq(
                            ExpectCertificateOrCertReqView {
                                hs,
                                may_send_sct_list: self.hello.sent_extensions.contains(
                                    ExtensionType::SCT,
                                ),
                            },
                        ),
                    ),
                    s,
                )
            },
        }
    }
}

fn settle_early_data<T: Hooks>(
    key_schedule: &mut KeyScheduleHandshake,
    sess: &mut ClientSession<T>,
    hash: &[u8],
    randoms: &SessionRandoms,
    accepted: bool,
)
    requires
        can_settle_early_data(old(sess)@, accepted),
    ensures
        (final(key_schedule)@, final(sess)@) == early_data_settled(
            old(key_schedule)@,
            hash@,
            randoms@,
            old(sess)@,
            accepted,
        ),
{
    let was_early_traffic: bool = sess.common.early_traffic;
    if was_early_traffic {
        if accepted {
            sess.early_data.accepted();
        } else {
            sess.early_data.rejected();
            sess.common.early_traffic = false;
        }
    }
    if was_early_traffic && !sess.common.early_traffic {
        // If there is no early traffic, the keys of the handshake take over.
        let suite: SupportedCipherSuite = sess.common.get_suite_assert();
        let write_key: Vec<u8> = key_schedule.client_handshake_traffic_secret(
            hash,
            &mut sess.config.key_log,
            &randoms.client,
        );
        sess.common.record_layer.set_message_encrypter(
            derive_traffic_keys(suite, write_key.as_slice()),
        );
    }
}

impl ExpectEncryptedExtensions {
    /// Handles a message.
    pub fn handle<T: Hooks>(self, sess: &mut ClientSession<T>, m: Message) -> (r: Result<
        ClientState<T>,
        TlsError,
    >)
        requires
            self@.can_handle(old(sess)@, m@),
        ensures
            (step_view(r), final(sess)@) == self@.handled(old(sess)@, m@),
    {
        let exts: &Vec<ServerExtension> = match get_handshake_payload(&m) {
            Some(HandshakePayload::EncryptedExtensions(exts)) => exts,
            _ => {
                return Err(
                    inappropriate_handshake_message(&m, HandshakeType::EncryptedExtensions),
                );
            },
        };
        let mut st = self;
        st.transcript.add_message(&m);
        match validate_encrypted_extensions(sess, &st.hello, exts) {
            Ok(()) => {},
            Err(err) => {
                return Err(err);
            },
        }
        match process_alpn_protocol(sess, get_alpn_protocol(exts)) {
            Ok(()) => {},
            Err(err) => {
                return Err(err);
            },
        }
        if let Some(params) = get_quic_params_extension(exts) {
            sess.common.quic.params = Some(params);
        }
        let offered: bool = early_data_extension_offered(exts);
        match st.handshake.resuming_session {
            Some(resuming) => {
                settle_early_data(
                    &mut st.key_schedule,
                    sess,
                    st.hash_at_client_recvd_server_hello.as_slice(),
                    &st.randoms,
                    offered,
                );
                sess.server_cert_chain = duplicate_chain(&resuming.value.server_cert_chain);
                // The certificate chain is not judged again: resumption continues the
                // earlier session in terms of policy.
                Ok(
                    ClientState::ExpectFinished(
                        ExpectFinished {
                            dns_name: st.dns_name,
                            randoms: st.randoms,
                            transcript: st.transcript,
                            key_schedule: st.key_schedule,
                            client_auth: None,
                            cert_verified: ServerCertVerified::assertion(),
                            sig_verified: HandshakeSignatureValid::assertion(),
                            hash_at_client_recvd_server_hello: st.hash_at_client_recvd_server_hello,
                        },
                    ),
                )
            },
            None => {
                if offered {
                    return Err(
                        TlsError::PeerMisbehavedError(
                            "server sent early data extension without resumption".to_string(),
                        ),
                    );
                }
                let may_send_sct_list: bool = st.hello.server_may_send_sct_list();
                Ok(
                    ClientState::ExpectCertificateOrCertReq(
                        ExpectCertificateOrCertReq {
                            dns_name: st.dns_name,
                            randoms: st.randoms,
                            transcript: st.transcript,
                            key_schedule: st.key_schedule,
                            may_send_sct_list,
                            hash_at_client_recvd_server_hello: st.hash_at_client_recvd_server_hello,
                        },
                    ),
                )
            },
        }
    }
}

/// In this state the server's certificate is due.
pub struct ExpectCertificate<T: Hooks> {
    pub dns_name: ServerName,
    pub randoms: SessionRandoms,
    pub transcript: HandshakeHash,
    pub key_schedule: KeyScheduleHandshake,
    pub may_send_sct_list: bool,
    pub client_auth: Option<ClientAuthDetails<T::Key>>,
    pub hash_at_client_recvd_server_hello: Vec<u8>,
}

#[verifier::ext_equal]
pub struct ExpectCertificateView<T: Hooks> {
    pub hs: HandshakeView,
    pub may_send_sct_list: bool,
    pub client_auth: Option<ClientAuthView<T::Key>>,
}

impl<T: Hooks> View for ExpectCertificate<T> {
    type V = ExpectCertificateView<T>;

    open spec fn view(&self) -> ExpectCertificateView<T> {
        ExpectCertificateView {
            hs: HandshakeView {
                dns_name: self.dns_name@,
                client_random: self.randoms@,
                transcript: self.transcript@,
                key_schedule: self.key_schedule@,
                hash_at_server_hello: self.hash_at_client_recvd_server_hello@,
            },
            may_send_sct_list: self.may_send_sct_list,
            client_auth: auth_view(self.client_auth),
        }
    }
}

/// What a Certificate message shows of the server.
pub open spec fn server_cert_of(cert_chain: CertificatePayloadView) -> ServerCertView {
    ServerCertView {
        cert_chain: cert_chain.chain(),
        ocsp_response: cert_chain.end_entity_ocsp(),
        scts: cert_chain.end_entity_scts(),
    }
}

/// The outcome of looking at a Certificate message.
pub open spec fn certificate_validated<T: Hooks>(
    s: SessionView<T>,
    cert_chain: CertificatePayloadView,
    may_send_sct_list: bool,
) -> (Result<(), TlsErrorView>, SessionView<T>) {
    if cert_chain.context.len() > 0 {
        (
            Err(TlsErrorView::CorruptMessagePayload(ContentType::Handshake)),
            s.alerted(AlertDescription::DecodeError),
        )
    } else if cert_chain.any_entry_has_duplicate_extension()
        || cert_chain.any_entry_has_unknown_extension() {
        (
            Err(misbehaved("bad cert chain extensions")),
            s.alerted(AlertDescription::UnsupportedExtension),
        )
    } else {
        match cert_chain.end_entity_scts() {
            Some(scts) => if sct_list_invalid(scts) {
                (Err(misbehaved("server sent invalid SCT list")), s)
            } else if !may_send_sct_list {
                (Err(misbehaved("server sent unsolicited SCT list")), s)
            } else {
                (Ok(()), s)
            },
            None => (Ok(()), s),
        }
    }
}

impl<T: Hooks> ExpectCertificateView<T> {
    /// The outcome of a message.
    pub open spec fn handled(self, s: SessionView<T>, m: MessageView) -> (
        Result<ClientStateView<T>, TlsErrorView>,
        SessionView<T>,
    ) {
        match handshake_payload(m) {
            Some(HandshakePayloadView::CertificateTLS13(cert_chain)) => {
                match certificate_validated(s, cert_chain, self.may_send_sct_list) {
                    (Err(err), s1) => (Err(err), s1),
                    (Ok(()), s1) => (
                        Ok(
                            ClientStateView::ExpectCertificateVerify(
                                ExpectCertificateVerifyView {
                                    hs: self.hs.with_message(m),
                                    server_cert: server_cert_of(cert_chain),
                                    client_auth: self.client_auth,
                                },
                            ),
                        ),
                        s1,
                    ),
                }
            },
            _ => (Err(inappropriate(m, HandshakeType::Certificate)), s),
        }
    }
}

/// Refuses a Certificate message that holds what has no place in it.
fn validate_certificate<T: Hooks>(
    sess: &mut ClientSession<T>,
    cert_chain: &CertificatePayloadTLS13,
    may_send_sct_list: bool,
) -> (r: Result<ServerCertDetails, TlsError>)
    ensures
        (verdict_view(r), final(sess)@) == certificate_validated(
            old(sess)@,
            cert_chain@,
            may_send_sct_list,
        ),
        r matches Ok(server_cert) ==> server_cert@ == server_cert_of(cert_chain@),
{
    // There is a context only when a client shows its certificate.
    if cert_chain.context.0.len() != 0 {
        sess.common.send_fatal_alert(AlertDescription::DecodeError);
        return Err(TlsError::CorruptMessagePayload(ContentType::Handshake));
    }
    if cert_chain.any_entry_has_duplicate_extension()
        || cert_chain.any_entry_has_unknown_extension() {
        sess.common.send_fatal_alert(AlertDescription::UnsupportedExtension);
        return Err(TlsError::PeerMisbehavedError("bad cert chain extensions".to_string()));
    }
    let server_cert: ServerCertDetails = ServerCertDetails::new(
        cert_chain.convert(),
        cert_chain.get_end_entity_ocsp(),
        cert_chain.get_end_entity_scts(),
    );
    if let Some(sct_list) = &server_cert.scts {
        if sct_list_is_invalid(sct_list) {
            return Err(TlsError::PeerMisbehavedError("server sent invalid SCT list".to_string()));
        }
        if !may_send_sct_list {
            return Err(
                TlsError::PeerMisbehavedError("server sent unsolicited SCT list".to_string()),
            );
        }
    }
    Ok(server_cert)
}

impl<T: Hooks> ExpectCertificate<T> {
    /// Handles a message.
    pub fn handle(self, sess: &mut ClientSession<T>, m: Message) -> (r: Result<
        ClientState<T>,
        TlsError,
    >)
        ensures
            (step_view(r), final(sess)@) == self@.handled(old(sess)@, m@),
    {
        let cert_chain: &CertificatePayloadTLS13 = match get_handshake_payload(&m) {
            Some(HandshakePayload::CertificateTLS13(cert_chain)) => cert_chain,
            _ => {
                return Err(inappropriate_handshake_message(&m, HandshakeType::Certificate));
            },
        };
        let mut st = self;
        st.transcript.add_message(&m);
        match validate_certificate(sess, cert_chain, st.may_send_sct_list) {
            Ok(server_cert) => Ok(
                ClientState::ExpectCertificateVerify(
                    ExpectCertificateVerify {
                        dns_name: st.dns_name,
                        randoms: st.randoms,
                        transcript: st.transcript,
                        key_schedule: st.key_schedule,
                        server_cert,
                        client_auth: st.client_auth,
                        hash_at_client_recvd_server_hello: st.hash_at_client_recvd_server_hello,
                    },
                ),
            ),
            Err(err) => Err(err),
        }
    }
}

/// In this state the server's certificate, or a request for the client's, is due.
pub struct ExpectCertificateOrCertReq {
    pub dns_name: ServerName,
    pub randoms: SessionRandoms,
    pub transcript: HandshakeHash,
    pub key_schedule: KeyScheduleHandshake,
    pub may_send_sct_list: bool,
    pub hash_at_client_recvd_server_hello: Vec<u8>,
}

#[verifier::ext_equal]
pub struct ExpectCertificateOrCertReqView {
    pub hs: HandshakeView,
    pub may_send_sct_list: bool,
}

impl View for ExpectCertificateOrCertReq {
    type V = ExpectCertificateOrCertReqView;

    open spec fn view(&self) -> ExpectCertificateOrCertReqView {
        ExpectCertificateOrCertReqView {
            hs: HandshakeView {
                dns_name: self.dns_name@,
                client_random: self.randoms@,
                transcript: self.transcript@,
                key_schedule: self.key_schedule@,
                hash_at_server_hello: self.hash_at_client_recvd_server_hello@,
            },
            may_send_sct_list: self.may_send_sct_list,
        }
    }
}

impl ExpectCertificateOrCertReqView {
    /// The outcome of a message.
    pub open spec fn handled<T: Hooks>(self, s: SessionView<T>, m: MessageView) -> (
        Result<ClientStateView<T>, TlsErrorView>,
        SessionView<T>,
    ) {
        match checked(
            m,
            seq![ContentType::Handshake],
            seq![HandshakeType::Certificate, HandshakeType::CertificateRequest],
        ) {
            Err(err) => (Err(err), s),
            Ok(()) => if m.is_handshake_type(HandshakeType::Certificate) {
                ExpectCertificateView::<T> {
                    hs: self.hs,
                    may_send_sct_list: self.may_send_sct_list,
                    client_auth: None,
                }.handled(s, m)
            } else {
                self.request_handled(s, m)
            },
        }
    }

    /// The outcome of a message where a request for a certificate is due.
    pub open spec fn request_handled<T: Hooks>(self, s: SessionView<T>, m: MessageView) -> (
        Result<ClientStateView<T>, TlsErrorView>,
        SessionView<T>,
    ) {
        match handshake_payload(m) {
            Some(HandshakePayloadView::CertificateRequestTLS13(certreq)) => {
                if certreq.context.len() > 0 {
                    (
                        Err(TlsErrorView::CorruptMessagePayload(ContentType::Handshake)),
                        s.alerted(AlertDescription::DecodeError),
                    )
                } else if compatible_schemes(certreq).len() == 0 {
                    (
                        Err(
                            TlsErrorView::PeerIncompatibleError(
                                "server sent bad certreq schemes"@,
                            ),
                        ),
                        s.alerted(AlertDescription::HandshakeFailure),
                    )
                } else {
                    (
                        Ok(
                            ClientStateView::ExpectCertificate(
                                ExpectCertificateView {
                                    hs: self.hs.with_message(m),
                                    may_send_sct_list: self.may_send_sct_list,
                                    client_auth: Some(client_auth_for(s, certreq)),
                                },
                            ),
                        ),
                        s,
                    )
                }
            },
            _ => (Err(inappropriate(m, HandshakeType::CertificateRequest)), s),
        }
    }
}

impl ExpectCertificateOrCertReq {
    /// Handles a message.
    pub fn handle<T: Hooks>(self, sess: &mut ClientSession<T>, m: Message) -> (r: Result<
        ClientState<T>,
        TlsError,
    >)
        ensures
            (step_view(r), final(sess)@) == self@.handled(old(sess)@, m@),
    {
        let content_types: Vec<ContentType> = vec![ContentType::Handshake];
        let handshake_types: Vec<HandshakeType> = vec![
            HandshakeType::Certificate,
            HandshakeType::CertificateRequest,
        ];
        assert(content_types@ =~= seq![ContentType::Handshake]);
        assert(handshake_types@ =~= seq![
            HandshakeType::Certificate,
            HandshakeType::CertificateRequest,
        ]);
        match check_message(&m, content_types, handshake_types) {
            Ok(()) => {},
            Err(err) => {
                return Err(err);
            },
        }
        if m.is_handshake_type(HandshakeType::Certificate) {
            let st: ExpectCertificate<T> = ExpectCertificate {
                dns_name: self.dns_name,
                randoms: self.randoms,
                transcript: self.transcript,
                key_schedule: self.key_schedule,
                may_send_sct_list: self.may_send_sct_list,
                client_auth: None,
                hash_at_client_recvd_server_hello: self.hash_at_client_recvd_server_hello,
            };
            st.handle(sess, m)
        } else {
            let st = ExpectCertificateRequest {
                dns_name: self.dns_name,
                randoms: self.randoms,
                transcript: self.transcript,
                key_schedule: self.key_schedule,
                may_send_sct_list: self.may_send_sct_list,
                hash_at_client_recvd_server_hello: self.hash_at_client_recvd_server_hello,
            };
            st.handle(sess, m)
        }
    }
}

/// The alert for a server that was refused.
pub open spec fn cert_error_alert(err: TlsErrorView) -> AlertDescription {
    match err {
        TlsErrorView::WebPKIError(PKIErrorView::BadDER, _) => AlertDescription::DecodeError,
        TlsErrorView::PeerMisbehavedError(_) => AlertDescription::IllegalParameter,
        _ => AlertDescription::BadCertificate,
    }
}

/// Tells the server that it was refused, and hands the error back.
pub fn send_cert_error_alert<T: Hooks>(sess: &mut ClientSession<T>, err: TlsError) -> (r: TlsError)
    ensures
        r == err,
        final(sess)@ == old(sess)@.alerted(cert_error_alert(err@)),
{
    match &err {
        TlsError::WebPKIError(PKIError::BadDER, _) => {
            sess.common.send_fatal_alert(AlertDescription::DecodeError);
        },
        TlsError::PeerMisbehavedError(_) => {
            sess.common.send_fatal_alert(AlertDescription::IllegalParameter);
        },
        _ => {
            sess.common.send_fatal_alert(AlertDescription::BadCertificate);
        },
    }
    err
}

/// In this state the server's signature of the handshake is due.
pub struct ExpectCertificateVerify<T: Hooks> {
    pub dns_name: ServerName,
    pub randoms: SessionRandoms,
    pub transcript: HandshakeHash,
    pub key_schedule: KeyScheduleHandshake,
    pub server_cert: ServerCertDetails,
    pub client_auth: Option<ClientAuthDetails<T::Key>>,
    pub hash_at_client_recvd_server_hello: Vec<u8>,
}

#[verifier::ext_equal]
pub struct ExpectCertificateVerifyView<T: Hooks> {
    pub hs: HandshakeView,
    pub server_cert: ServerCertView,
    pub client_auth: Option<ClientAuthView<T::Key>>,
}

impl<T: Hooks> View for ExpectCertificateVerify<T> {
    type V = ExpectCertificateVerifyView<T>;

    open spec fn view(&self) -> ExpectCertificateVerifyView<T> {
        ExpectCertificateVerifyView {
            hs: HandshakeView {
                dns_name: self.dns_name@,
                client_random: self.randoms@,
                transcript: self.transcript@,
                key_schedule: self.key_schedule@,
                hash_at_server_hello: self.hash_at_client_recvd_server_hello@,
            },
            server_cert: self.server_cert@,
            client_auth: auth_view(self.client_auth),
        }
    }
}

impl<T: Hooks> ExpectCertificateVerifyView<T> {
    /// Whether what a message needs is there.
    pub open spec fn can_handle(self, m: MessageView) -> bool {
        handshake_payload(m) matches Some(HandshakePayloadView::CertificateVerify(_))
            && self.server_cert.cert_chain.len() > 0 ==> self.hs.transcript.alg is Some
    }

    /// The verdict on the server at what the clock shows: first on its certificate chain, then
    /// on its signature.
    pub open spec fn verdict(
        self,
        s: SessionView<T>,
        cert_verify: DigitallySignedView,
        now: Option<u64>,
    ) -> Result<(), TlsErrorView> {
        let chain = self.server_cert.cert_chain;
        match T::Verifier::cert_verdict(
            s.config.verifier,
            chain[0],
            chain.skip(1),
            self.hs.dns_name,
            self.server_cert.sct_list(),
            self.server_cert.ocsp_response,
            now,
        ) {
            Ok(()) => T::Verifier::signature_verdict(
                s.config.verifier,
                verify_message(server_context(), self.hs.transcript.current_hash()),
                chain[0],
                cert_verify,
            ),
            Err(err) => Err(err),
        }
    }

    /// The outcome of a message, at what the clock shows.
    pub open spec fn handled(self, s: SessionView<T>, m: MessageView, now: Option<u64>) -> (
        Result<ClientStateView<T>, TlsErrorView>,
        SessionView<T>,
    ) {
        match handshake_payload(m) {
            Some(HandshakePayloadView::CertificateVerify(cert_verify)) => {
                if self.server_cert.cert_chain.len() == 0 {
                    (Err(TlsErrorView::NoCertificatesPresented), s)
                } else {
                    match self.verdict(s, cert_verify, now) {
                        Err(err) => (Err(err), s.alerted(cert_error_alert(err))),
                        Ok(()) => (
                            Ok(
                                ClientStateView::ExpectFinished(
                                    ExpectFinishedView {
                                        hs: self.hs.with_message(m),
                                        client_auth: self.client_auth,
                                    },
                                ),
                            ),
                            SessionView {
                                server_cert_chain: self.server_cert.cert_chain,
                                ..s
                            },
                        ),
                    }
                }
            },
            _ => (Err(inappropriate(m, HandshakeType::CertificateVerify)), s),
        }
    }
}

impl<T: Hooks> ExpectCertificateVerify<T> {
    /// Judges the server at what the clock shows.
    fn judge(
        &self,
        sess: &ClientSession<T>,
        cert_verify: &DigitallySignedStruct,
        now: Option<TimeBase>,
    ) -> (r: Result<(ServerCertVerified, HandshakeSignatureValid), TlsError>)
        requires
            self@.hs.transcript.alg is Some,
            self.server_cert.cert_chain@.len() > 0,
        ensures
            verdict_view(r) == self@.verdict(sess@, cert_verify@, time_view(now)),
    {
        let chain: &Vec<Certificate> = &self.server_cert.cert_chain;
        let end_entity: &Certificate = &chain[0];
        let intermediates: &[Certificate] = slice_subrange(chain.as_slice(), 1, chain.len());
        assert(views(intermediates@) =~= views(chain@).skip(1));
        let no_scts: Vec<PayloadU16> = Vec::new();
        assert(views(no_scts@) =~= Seq::<Seq<u8>>::empty());
        let scts: &Vec<PayloadU16> = match &self.server_cert.scts {
            Some(scts) => scts,
            None => &no_scts,
        };
        // 1. Judge the certificate chain.
        let cert_verified: ServerCertVerified = match sess.config.verifier.verify_server_cert(
            end_entity,
            intermediates,
            &self.dns_name,
            scts,
            &self.server_cert.ocsp_response,
            now,
        ) {
            Ok(verified) => verified,
            Err(err) => {
                return Err(err);
            },
        };
        // 2. Judge the signature of the handshake.
        let handshake_hash: Vec<u8> = self.transcript.get_current_hash();
        let message: Vec<u8> = construct_tls13_server_verify_message(handshake_hash.as_slice());
        match sess.config.verifier.verify_tls13_signature(
            message.as_slice(),
            end_entity,
            cert_verify,
        ) {
            Ok(sig_verified) => Ok((cert_verified, sig_verified)),
            Err(err) => Err(err),
        }
    }

    /// Handles a message that came at a given time, if the clock can be read.
    pub fn handle_at(self, sess: &mut ClientSession<T>, m: Message, now: Option<TimeBase>) -> (r:
        Result<ClientState<T>, TlsError>)
        requires
            self@.can_handle(m@),
        ensures
            (step_view(r), final(sess)@) == self@.handled(old(sess)@, m@, time_view(now)),
    {
        let cert_verify: &DigitallySignedStruct = match get_handshake_payload(&m) {
            Some(HandshakePayload::CertificateVerify(cert_verify)) => cert_verify,
            _ => {
                return Err(inappropriate_handshake_message(&m, HandshakeType::CertificateVerify));
            },
        };
        if self.server_cert.cert_chain.len() == 0 {
            return Err(TlsError::NoCertificatesPresented);
        }
        let (cert_verified, sig_verified) = match self.judge(sess, cert_verify, now) {
            Ok(verified) => verified,
            Err(err) => {
                return Err(send_cert_error_alert(sess, err));
            },
        };
        let mut st = self;
        sess.server_cert_chain = st.server_cert.cert_chain;
        st.transcript.add_message(&m);
        Ok(
            ClientState::ExpectFinished(
                ExpectFinished {
                    dns_name: st.dns_name,
                    randoms: st.randoms,
                    transcript: st.transcript,
                    key_schedule: st.key_schedule,
                    client_auth: st.client_auth,
                    cert_verified,
                    sig_verified,
                    hash_at_client_recvd_server_hello: st.hash_at_client_recvd_server_hello,
                },
            ),
        )
    }

    /// Handles a message.
    pub fn handle(self, sess: &mut ClientSession<T>, m: Message) -> (r: Result<
        ClientState<T>,
        TlsError,
    >)
        requires
            self@.can_handle(m@),
        ensures
            exists|now: Option<u64>|
                clock_read(now) && (step_view(r), final(sess)@) == #[trigger] self@.handled(
                    old(sess)@,
                    m@,
                    now,
                ),
    {
        let now: Option<TimeBase> = clock();
        self.handle_at(sess, m, now)
    }
}

/// In this state a request for the client's certificate is due. The server's certificate
/// follows.
pub struct ExpectCertificateRequest {
    pub dns_name: ServerName,
    pub randoms: SessionRandoms,
    pub transcript: HandshakeHash,
    pub key_schedule: KeyScheduleHandshake,
    pub may_send_sct_list: bool,
    pub hash_at_client_recvd_server_hello: Vec<u8>,
}

impl View for ExpectCertificateRequest {
    type V = ExpectCertificateOrCertReqView;

    open spec fn view(&self) -> ExpectCertificateOrCertReqView {
        ExpectCertificateOrCertReqView {
            hs: HandshakeView {
                dns_name: self.dns_name@,
                client_random: self.randoms@,
                transcript: self.transcript@,
                key_schedule: self.key_schedule@,
                hash_at_server_hello: self.hash_at_client_recvd_server_hello@,
            },
            may_send_sct_list: self.may_send_sct_list,
        }
    }
}

/// The schemes of a request that this side can sign with, in the server's order.
pub open spec fn compatible_schemes(certreq: CertificateRequestView) -> Seq<SignatureScheme> {
    match certreq.sigalgs() {
        Some(schemes) => schemes.filter(|scheme: SignatureScheme| tls13_schemes().contains(scheme)),
        None => Seq::empty(),
    }
}

/// How the client answers a request.
pub open spec fn client_auth_for<T: Hooks>(
    s: SessionView<T>,
    certreq: CertificateRequestView,
) -> ClientAuthView<T::Key> {
    let schemes = compatible_schemes(certreq);
    let authorities = match certreq.authorities() {
        Some(names) => names,
        None => Seq::empty(),
    };
    match T::Resolver::resolved(s.config.resolver, authorities, schemes) {
        Some(certkey) => ClientAuthView {
            cert: Some(certkey.cert),
            signer: match <T::Key as SigningKey>::chosen_scheme(certkey.key, schemes) {
                Some(scheme) => Some(SignerView { key: certkey.key, scheme }),
                None => None,
            },
            auth_context: Some(certreq.context),
        },
        None => ClientAuthView::nothing(),
    }
}

fn get_compatible_schemes(certreq: &CertificateRequestPayloadTLS13) -> (r: Vec<SignatureScheme>)
    ensures
        r@ == compatible_schemes(certreq@),
{
    let ours: Vec<SignatureScheme> = supported_sign_tls13();
    let mut compat: Vec<SignatureScheme> = Vec::new();
    let ghost keep = |scheme: SignatureScheme| tls13_schemes().contains(scheme);
    if let Some(schemes) = certreq.get_sigalgs_extension() {
        let mut i: usize = 0;
        assert(schemes@.take(0).filter(keep) =~= Seq::<SignatureScheme>::empty()) by {
            reveal(Seq::filter);
        }
        while i < schemes.len()
            invariant
                i <= schemes@.len(),
                ours@ == tls13_schemes(),
                keep == (|scheme: SignatureScheme| tls13_schemes().contains(scheme)),
                compat@ == schemes@.take(i as int).filter(keep),
            decreases schemes@.len() - i,
        {
            assert(schemes@.take(i + 1).drop_last() =~= schemes@.take(i as int));
            assert(schemes@.take(i + 1).filter(keep) == if keep(schemes@[i as int]) {
                schemes@.take(i as int).filter(keep).push(schemes@[i as int])
            } else {
                schemes@.take(i as int).filter(keep)
            }) by {
                reveal(Seq::filter);
            }
            if holds_scheme(&ours, schemes[i]) {
                compat.push(schemes[i]);
            }
            i += 1;
        }
        assert(schemes@.take(i as int) =~= schemes@);
    }
    compat
}

impl ExpectCertificateRequest {
    /// Handles a message.
    pub fn handle<T: Hooks>(self, sess: &mut ClientSession<T>, m: Message) -> (r: Result<
        ClientState<T>,
        TlsError,
    >)
        ensures
            (step_view(r), final(sess)@) == self@.request_handled(old(sess)@, m@),
    {
        let certreq: &CertificateRequestPayloadTLS13 = match get_handshake_payload(&m) {
            Some(HandshakePayload::CertificateRequestTLS13(certreq)) => certreq,
            _ => {
                return Err(
                    inappropriate_handshake_message(&m, HandshakeType::CertificateRequest),
                );
            },
        };
        let mut st = self;
        st.transcript.add_message(&m);
        // There is no context in the course of a handshake.
        if certreq.context.0.len() != 0 {
            sess.common.send_fatal_alert(AlertDescription::DecodeError);
            return Err(TlsError::CorruptMessagePayload(ContentType::Handshake));
        }
        let compat_sigschemes: Vec<SignatureScheme> = get_compatible_schemes(certreq);
        if compat_sigschemes.len() == 0 {
            sess.common.send_fatal_alert(AlertDescription::HandshakeFailure);
            return Err(
                TlsError::PeerIncompatibleError("server sent bad certreq schemes".to_string()),
            );
        }
        let no_canames: Vec<PayloadU16> = Vec::new();
        assert(views(no_canames@) =~= Seq::<Seq<u8>>::empty());
        let canames: &Vec<PayloadU16> = match certreq.get_authorities_extension() {
            Some(names) => names,
            None => &no_canames,
        };
        let client_auth: ClientAuthDetails<T::Key> =
            match sess.config.client_auth_cert_resolver.resolve(canames, &compat_sigschemes) {
            Some(certkey) => {
                let signer: Option<Signer<T::Key>> = match certkey.key.choose_scheme(
                    &compat_sigschemes,
                ) {
                    Some(scheme) => Some(Signer { key: certkey.key, scheme }),
                    None => None,
                };
                ClientAuthDetails {
                    cert: Some(certkey.cert),
                    signer,
                    auth_context: Some(to_vec(certreq.context.0.as_slice())),
                }
            },
            None => ClientAuthDetails::new(),
        };
        assert(client_auth@ == client_auth_for(sess@, certreq@));
        Ok(
            ClientState::ExpectCertificate(
                ExpectCertificate {
                    dns_name: st.dns_name,
                    randoms: st.randoms,
                    transcript: st.transcript,
                    key_schedule: st.key_schedule,
                    may_send_sct_list: st.may_send_sct_list,
                    client_auth: Some(client_auth),
                    hash_at_client_recvd_server_hello: st.hash_at_client_recvd_server_hello,
                },
            ),
        )
    }
}

impl<T: Hooks> ClientStateView<T> {
    /// Whether what a message needs in this state is there.
    pub open spec fn can_handle(self, s: SessionView<T>, m: MessageView) -> bool {
        match self {
            ClientStateView::ExpectEncryptedExtensions(st) => st.can_handle(s, m),
            ClientStateView::ExpectCertificateOrCertReq(st) => true,
            ClientStateView::ExpectCertificate(st) => true,
            ClientStateView::ExpectCertificateVerify(st) => st.can_handle(m),
            ClientStateView::ExpectFinished(st) => st.can_handle(s, m),
            ClientStateView::ExpectTraffic(st) => st.can_handle(s, m) && is_coherent(m),
            ClientStateView::ExpectQUICTraffic(st) => st.can_handle_in_quic(s, m),
        }
    }

    /// Whether a message may have this outcome in this state. Only the clock and the client's
    /// signature can make a difference.
    pub open spec fn may_step(
        self,
        s: SessionView<T>,
        m: MessageView,
        outcome: (Result<ClientStateView<T>, TlsErrorView>, SessionView<T>),
    ) -> bool {
        match self {
            ClientStateView::ExpectEncryptedExtensions(st) => outcome == st.handled(s, m),
            ClientStateView::ExpectCertificateOrCertReq(st) => outcome == st.handled(s, m),
            ClientStateView::ExpectCertificate(st) => outcome == st.handled(s, m),
            ClientStateView::ExpectCertificateVerify(st) => exists|now: Option<u64>|
                clock_read(now) && outcome == #[trigger] st.handled(s, m, now),
            ClientStateView::ExpectFinished(st) => exists|sig: Result<Seq<u8>, TlsErrorView>|
                finished_signature_possible(st, s, m, sig) && outcome
                    == #[trigger] finished_handled(st, s, m, sig),
            ClientStateView::ExpectTraffic(st) => exists|now: Option<u64>|
                clock_read(now) && outcome == traffic_step(#[trigger] st.handled(s, m, now), false),
            ClientStateView::ExpectQUICTraffic(st) => exists|now: Option<u64>|
                clock_read(now) && outcome == traffic_step(
                    #[trigger] st.handled_in_quic(s, m, now),
                    true,
                ),
        }
    }

    /// Whether the session can go on in this state without ever getting stuck: everything
    /// that later states rely on is there.
    pub open spec fn is_ready(self, s: SessionView<T>) -> bool {
        match self {
            ClientStateView::ExpectEncryptedExtensions(st) => {
                &&& st.hs.is_ready(s)
                &&& st.hs.key_schedule.client is Some || s.common.early_traffic
                &&& s.common.early_traffic ==> s.early_data.state == EarlyDataState::Ready
                    && st.handshake.resuming_session is Some
            },
            ClientStateView::ExpectCertificateOrCertReq(st) => certificate_due(st.hs, s),
            ClientStateView::ExpectCertificate(st) => certificate_due(st.hs, s),
            ClientStateView::ExpectCertificateVerify(st) => certificate_due(st.hs, s),
            ClientStateView::ExpectFinished(st) => st.is_ready(s),
            ClientStateView::ExpectTraffic(st) => st.is_ready(s),
            ClientStateView::ExpectQUICTraffic(st) => st.is_ready(s),
        }
    }
}

/// Whether a session that is not resumed can go on to the server's certificate.
pub open spec fn certificate_due<T: Hooks>(hs: HandshakeView, s: SessionView<T>) -> bool {
    hs.is_ready(s) && hs.key_schedule.client is Some && !s.common.early_traffic
}

/// The outcome of a message in the running session, as one of any state.
pub open spec fn traffic_step<T: Hooks>(
    outcome: (Result<ExpectTrafficView, TlsErrorView>, SessionView<T>),
    quic: bool,
) -> (Result<ClientStateView<T>, TlsErrorView>, SessionView<T>) {
    match outcome {
        (Ok(st), s) => (
            Ok(
                if quic {
                    ClientStateView::ExpectQUICTraffic(st)
                } else {
                    ClientStateView::ExpectTraffic(st)
                },
            ),
            s,
        ),
        (Err(err), s) => (Err(err), s),
    }
}

fn handshake_is_ready<T: Hooks>(
    transcript: &HandshakeHash,
    key_schedule: &KeyScheduleHandshake,
    sess: &ClientSession<T>,
) -> (r: bool)
    ensures
        r == (transcript@.alg is Some && key_schedule@.server is Some && sess@.common.suite is Some
            && sess@.common.record_layer.encrypter is Some),
{
    transcript.alg.is_some() && key_schedule.current_server_traffic_secret.is_some()
        && sess.common.suite.is_some() && sess.common.record_layer.encrypter.is_some()
}

fn certificate_is_due<T: Hooks>(
    transcript: &HandshakeHash,
    key_schedule: &KeyScheduleHandshake,
    sess: &ClientSession<T>,
) -> (r: bool)
    ensures
        r == (transcript@.alg is Some && key_schedule@.server is Some && sess@.common.suite is Some
            && sess@.common.record_layer.encrypter is Some && key_schedule@.client is Some
            && !sess@.common.early_traffic),
{
    handshake_is_ready(transcript, key_schedule, sess)
        && key_schedule.current_client_traffic_secret.is_some() && !sess.common.early_traffic
}

fn traffic_is_ready<T: Hooks>(st: &ExpectTraffic, sess: &ClientSession<T>) -> (r: bool)
    ensures
        r == st@.is_ready(sess@),
{
    st.transcript.alg.is_some() && st.key_schedule.current_client_traffic_secret.is_some()
        && st.key_schedule.current_server_traffic_secret.is_some()
        && st.key_schedule.current_exporter_secret.is_some() && sess.common.suite.is_some()
        && sess.common.record_layer.encrypter.is_some() && (!sess.common.is_quic()
        || sess.common.quic.params.is_some())
}

impl<T: Hooks> ClientState<T> {
    /// Handles a message, and says what is expected next.
    pub fn handle(self, sess: &mut ClientSession<T>, m: Message) -> (r: Result<
        ClientState<T>,
        TlsError,
    >)
        requires
            self@.can_handle(old(sess)@, m@),
        ensures
            self@.may_step(old(sess)@, m@, (step_view(r), final(sess)@)),
    {
        match self {
            ClientState::ExpectEncryptedExtensions(st) => st.handle(sess, m),
            ClientState::ExpectCertificateOrCertReq(st) => st.handle(sess, m),
            ClientState::ExpectCertificate(st) => st.handle(sess, m),
            ClientState::ExpectCertificateVerify(st) => st.handle(sess, m),
            ClientState::ExpectFinished(st) => st.handle(sess, m),
            ClientState::ExpectTraffic(st) => match st.handle(sess, m) {
                Ok(st) => Ok(ClientState::ExpectTraffic(st)),
                Err(err) => Err(err),
            },
            ClientState::ExpectQUICTraffic(st) => match st.handle(sess, m) {
                Ok(st) => Ok(ClientState::ExpectQUICTraffic(st)),
                Err(err) => Err(err),
            },
        }
    }

    /// Whether the session can go on in this state without ever getting stuck.
    pub fn is_ready(&self, sess: &ClientSession<T>) -> (r: bool)
        ensures
            r == self@.is_ready(sess@),
    {
        let early: bool = sess.common.early_traffic;
        match self {
            ClientState::ExpectEncryptedExtensions(st) => {
                handshake_is_ready(&st.transcript, &st.key_schedule, sess) && (
                st.key_schedule.current_client_traffic_secret.is_some() || early) && (!early || (
                sess.early_data.state == EarlyDataState::Ready
                    && st.handshake.resuming_session.is_some()))
            },
            ClientState::ExpectCertificateOrCertReq(st) => {
                certificate_is_due(&st.transcript, &st.key_schedule, sess)
            },
            ClientState::ExpectCertificate(st) => {
                certificate_is_due(&st.transcript, &st.key_schedule, sess)
            },
            ClientState::ExpectCertificateVerify(st) => {
                certificate_is_due(&st.transcript, &st.key_schedule, sess)
            },
            ClientState::ExpectFinished(st) => {
                handshake_is_ready(&st.transcript, &st.key_schedule, sess) && (
                st.key_schedule.current_client_traffic_secret.is_some() || early) && (!early
                    || sess.early_data.state == EarlyDataState::Accepted)
            },
            ClientState::ExpectTraffic(st) => traffic_is_ready(st, sess),
            ClientState::ExpectQUICTraffic(st) => traffic_is_ready(&st.0, sess),
        }
    }

    /// Handles a message for callers who do not know whether the session is ready: `None`,
    /// with the session unchanged, where it is not, or where the message is not coherent.
    pub fn try_handle(self, sess: &mut ClientSession<T>, m: Message) -> (r: Option<
        Result<ClientState<T>, TlsError>,
    >)
        ensures
            r is Some <==> self@.is_ready(old(sess)@) && is_coherent(m@),
            match r {
                Some(r) => self@.may_step(old(sess)@, m@, (step_view(r), final(sess)@)),
                None => final(sess)@ == old(sess)@,
            },
    {
        let opaque: bool = match &m.payload {
            MessagePayload::Opaque(_) => true,
            _ => false,
        };
        if (m.is_content_type(ContentType::ApplicationData) && !opaque) || !self.is_ready(sess) {
            return None;
        }
        Some(self.handle(sess, m))
    }

    /// Sends the key update that the server asked for, if it did. Before the session is
    /// running, and with QUIC, there is none.
    pub fn perhaps_write_key_update(&mut self, sess: &mut ClientSession<T>)
        requires
            old(self)@ matches ClientStateView::ExpectTraffic(st) ==> st.want_write_key_update
                ==> old(sess)@.common.record_layer.encrypter is Some && st.key_schedule.client
                is Some && old(sess)@.common.suite is Some,
        ensures
            match old(self)@ {
                ClientStateView::ExpectTraffic(st) => {
                    let (next, s) = st.key_update_written(old(sess)@);
                    final(self)@ == ClientStateView::<T>::ExpectTraffic(next) && final(sess)@ == s
                },
                _ => final(self)@ == old(self)@ && final(sess)@ == old(sess)@,
            },
    {
        if let ClientState::ExpectTraffic(st) = self {
            st.perhaps_write_key_update(sess);
        }
    }

    /// Fills `output` with keying material for the application; before the handshake is
    /// over, there is none.
    pub fn export_keying_material(
        &self,
        output: &mut [u8],
        label: &[u8],
        context: Option<&[u8]>,
    ) -> (r: Result<(), TlsError>)
        requires
            self@ matches ClientStateView::ExpectTraffic(st) ==> st.key_schedule.exporter is Some,
            self@ matches ClientStateView::ExpectQUICTraffic(st) ==> st.key_schedule.exporter is Some,
        ensures
            final(output)@.len() == old(output)@.len(),
            match self@ {
                ClientStateView::ExpectTraffic(st) | ClientStateView::ExpectQUICTraffic(st) => {
                    if old(output)@.len() <= max_okm_len(st.key_schedule.ks.algorithm) {
                        r is Ok && final(output)@ == st.key_schedule.exported(
                            label@,
                            match context {
                                Some(context) => Some(context@),
                                None => None,
                            },
                            old(output)@.len(),
                        )
                    } else {
                        final(output)@ == old(output)@ && r is Err && r->Err_0@
                            == TlsErrorView::General("exporting too much"@)
                    }
                },
                _ => final(output)@ == old(output)@ && r is Err && r->Err_0@
                    == TlsErrorView::HandshakeNotComplete,
            },
    {
        match self {
            ClientState::ExpectTraffic(st) => st.export_keying_material(output, label, context),
            ClientState::ExpectQUICTraffic(st) => st.export_keying_material(output, label, context),
            _ => Err(TlsError::HandshakeNotComplete),
        }
    }
}

} // verus!
