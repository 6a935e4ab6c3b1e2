//! The session once the handshake is over: application data, tickets and key updates.

use super::super::hs::{aligned_checked, check_aligned_handshake};
use super::super::{ClientSession, Hooks, SessionView, StoresClientSessions};
use crate::base::PayloadU16;
use crate::check::{check_message, checked, inappropriate, inappropriate_handshake_message};
use crate::codec::{prefixed_u16, to_vec, views, Codec};
use crate::crypto::max_okm_len;
use crate::enums::{AlertDescription, ContentType, HandshakeType, KeyUpdateRequest, ProtocolVersion};
use crate::error::{misbehaved, seen, TlsError, TlsErrorView};
use crate::handshake::{
    HandshakePayload, HandshakePayloadView, NewSessionTicketPayloadTLS13, NewSessionTicketView,
    SessionID,
};
use crate::hash_hs::{HandshakeHash, TranscriptView};
use crate::key_schedule::{
    derive_traffic_keys, traffic_keys, KeyScheduleTraffic, KeyScheduleTrafficView,
};
use crate::message::{Message, MessagePayload, MessagePayloadView, MessageView};
use crate::persist::{
    client_session_reads_back, new_client_value, session_key, ClientSessionKey, ClientSessionValue,
    ClientSessionValueView, ClientSessionValueWithResolvedCipherSuite, SessionKeyKind,
};
use crate::pki::ServerName;
use crate::session::CommonView;
use crate::suites::SupportedCipherSuite;
use crate::ticketer::{clock_read, time_view, TimeBase};
use crate::verify::{FinishedMessageVerified, HandshakeSignatureValid, ServerCertVerified};
use vstd::prelude::*;

verus! {

/// In this state tickets, key updates and application data can come.
pub struct ExpectTraffic {
    pub dns_name: ServerName,
    pub transcript: HandshakeHash,
    pub key_schedule: KeyScheduleTraffic,
    pub want_write_key_update: bool,
    pub cert_verified: ServerCertVerified,
    pub sig_verified: HandshakeSignatureValid,
    pub fin_verified: FinishedMessageVerified,
}

#[verifier::ext_equal]
pub struct ExpectTrafficView {
    pub dns_name: Seq<u8>,
    pub transcript: TranscriptView,
    pub key_schedule: KeyScheduleTrafficView,
    pub want_write_key_update: bool,
}

impl View for ExpectTraffic {
    type V = ExpectTrafficView;

    open spec fn view(&self) -> ExpectTrafficView {
        ExpectTrafficView {
            dns_name: self.dns_name@,
            transcript: self.transcript@,
            key_schedule: self.key_schedule@,
            want_write_key_update: self.want_write_key_update,
        }
    }
}

/// The handshake message in a message.
pub open spec fn handshake_payload(m: MessageView) -> Option<HandshakePayloadView> {
    match m.payload {
        MessagePayloadView::Handshake(hmp) => Some(hmp.payload),
        _ => None,
    }
}

/// The handshake message in a message.
pub fn get_handshake_payload(m: &Message) -> (r: Option<&HandshakePayload>)
    ensures
        match handshake_payload(m@) {
            Some(payload) => r is Some && r->0@ == payload,
            None => r is None,
        },
{
    match &m.payload {
        MessagePayload::Handshake(hmp) => Some(&hmp.payload),
        _ => None,
    }
}

/// Whether QUIC accepts what a ticket says of early data: none at all, or no limit.
pub open spec fn quic_accepts_size(nst: NewSessionTicketView) -> bool {
    nst.max_early_data_size() matches Some(size) ==> size == 0 || size == 0xffff_ffff
}

impl ExpectTrafficView {
    /// Whether what a message needs is there.
    pub open spec fn can_handle<T: Hooks>(self, s: SessionView<T>, m: MessageView) -> bool {
        match handshake_payload(m) {
            Some(HandshakePayloadView::NewSessionTicketTLS13(nst)) => self.can_keep_ticket(s, nst),
            Some(HandshakePayloadView::KeyUpdate(kur)) => self.can_update_keys(s, kur),
            _ => true,
        }
    }

    /// Whether what a message needs is there where QUIC carries the session.
    pub open spec fn can_handle_in_quic<T: Hooks>(self, s: SessionView<T>, m: MessageView) -> bool {
        handshake_payload(m) matches Some(HandshakePayloadView::NewSessionTicketTLS13(nst))
            ==> self.can_keep_ticket(s, nst)
    }

    /// Whether what a ticket needs is there.
    pub open spec fn can_keep_ticket<T: Hooks>(
        self,
        s: SessionView<T>,
        nst: NewSessionTicketView,
    ) -> bool {
        &&& self.transcript.alg is Some
        &&& s.common.suite is Some
        &&& s.common.is_quic() && quic_accepts_size(nst) ==> s.common.quic.params is Some
    }

    /// Whether what a key update needs is there. One that is refused needs nothing.
    pub open spec fn can_update_keys<T: Hooks>(
        self,
        s: SessionView<T>,
        kur: KeyUpdateRequest,
    ) -> bool {
        !s.common.is_quic() && s.common.is_aligned() && !(kur is Unknown)
            ==> self.key_schedule.server is Some && s.common.suite is Some
    }

    /// Whether what any message or request needs is there.
    pub open spec fn is_ready<T: Hooks>(self, s: SessionView<T>) -> bool {
        &&& self.transcript.alg is Some
        &&& self.key_schedule.complete()
        &&& s.common.suite is Some
        &&& s.common.record_layer.encrypter is Some
        &&& s.common.is_quic() ==> s.common.quic.params is Some
    }

    /// What is kept of a session of which a ticket came at some time.
    pub open spec fn ticket_value<T: Hooks>(
        self,
        s: SessionView<T>,
        nst: NewSessionTicketView,
        now: u64,
    ) -> ClientSessionValueView {
        ClientSessionValueView {
            lifetime: nst.lifetime,
            age_add: nst.age_add,
            max_early_data_size: match nst.max_early_data_size() {
                Some(size) => size,
                None => 0,
            },
            ..new_client_value(
                ProtocolVersion::TLSv1_3,
                s.common.suite->0,
                Seq::empty(),
                nst.ticket,
                self.key_schedule.ticket_psk(self.transcript.current_hash(), nst.nonce),
                s.server_cert_chain,
                now,
            )
        }
    }

    /// The bytes that are stored of it. With QUIC, the server's transport parameters follow.
    pub open spec fn ticket_bytes<T: Hooks>(
        self,
        s: SessionView<T>,
        nst: NewSessionTicketView,
        now: u64,
    ) -> Seq<u8> {
        let value = ClientSessionValue::encoding(self.ticket_value(s, nst, now));
        if s.common.is_quic() {
            value + prefixed_u16(s.common.quic.params->0)
        } else {
            value
        }
    }

    /// The outcome of receiving a ticket at some time.
    pub open spec fn new_ticket_handled<T: Hooks>(
        self,
        s: SessionView<T>,
        nst: NewSessionTicketView,
        now: u64,
    ) -> (Result<(), TlsErrorView>, SessionView<T>) {
        if s.common.is_quic() && !quic_accepts_size(nst) {
            (Err(misbehaved("invalid max_early_data_size")), s)
        } else {
            (
                Ok(()),
                s.with_put(
                    session_key(SessionKeyKind::Session, self.dns_name),
                    self.ticket_bytes(s, nst, now),
                ),
            )
        }
    }

    /// The outcome of the server's announcement that it changes its keys.
    pub open spec fn key_update_handled<T: Hooks>(
        self,
        s: SessionView<T>,
        kur: KeyUpdateRequest,
    ) -> (Result<(), TlsErrorView>, ExpectTrafficView, SessionView<T>) {
        if s.common.is_quic() {
            (
                Err(misbehaved("KeyUpdate received in QUIC connection")),
                self,
                s.alerted(AlertDescription::UnexpectedMessage),
            )
        } else {
            match aligned_checked(s) {
                (Err(err), s1) => (Err(err), self, s1),
                (Ok(()), s1) => match kur {
                    KeyUpdateRequest::Unknown(_) => (
                        Err(TlsErrorView::CorruptMessagePayload(ContentType::Handshake)),
                        self,
                        s1.alerted(AlertDescription::IllegalParameter),
                    ),
                    _ => {
                        let key_schedule = self.key_schedule.next_server();
                        (
                            Ok(()),
                            ExpectTrafficView {
                                key_schedule,
                                want_write_key_update: self.want_write_key_update || kur
                                    == KeyUpdateRequest::UpdateRequested,
                                ..self
                            },
                            s1.with_decrypter(
                                traffic_keys(s1.common.suite->0, key_schedule.server->0),
                            ),
                        )
                    },
                },
            }
        }
    }

    /// The outcome of a message, at some time where the clock can be read.
    pub open spec fn handled<T: Hooks>(
        self,
        s: SessionView<T>,
        m: MessageView,
        now: Option<u64>,
    ) -> (Result<ExpectTrafficView, TlsErrorView>, SessionView<T>) {
        if m.typ == ContentType::ApplicationData {
            (
                Ok(self),
                SessionView {
                    common: CommonView {
                        received_plaintext: s.common.received_plaintext.push(
                            m.payload->Opaque_0,
                        ),
                        ..s.common
                    },
                    ..s
                },
            )
        } else {
            match handshake_payload(m) {
                Some(HandshakePayloadView::NewSessionTicketTLS13(nst)) => match now {
                    Some(now) => match self.new_ticket_handled(s, nst, now) {
                        (Ok(()), s1) => (Ok(self), s1),
                        (Err(err), s1) => (Err(err), s1),
                    },
                    None => (Err(TlsErrorView::FailedToGetCurrentTime), s),
                },
                Some(HandshakePayloadView::KeyUpdate(kur)) => match self.key_update_handled(
                    s,
                    kur,
                ) {
                    (Ok(()), next, s1) => (Ok(next), s1),
                    (Err(err), _, s1) => (Err(err), s1),
                },
                _ => match checked(
                    m,
                    seq![ContentType::ApplicationData, ContentType::Handshake],
                    seq![HandshakeType::NewSessionTicket, HandshakeType::KeyUpdate],
                ) {
                    Ok(()) => (Ok(self), s),
                    Err(err) => (Err(err), s),
                },
            }
        }
    }

    /// The outcome of a message where QUIC carries the session: only tickets can come.
    pub open spec fn handled_in_quic<T: Hooks>(
        self,
        s: SessionView<T>,
        m: MessageView,
        now: Option<u64>,
    ) -> (Result<ExpectTrafficView, TlsErrorView>, SessionView<T>) {
        match handshake_payload(m) {
            Some(HandshakePayloadView::NewSessionTicketTLS13(nst)) => match now {
                Some(now) => match self.new_ticket_handled(s, nst, now) {
                    (Ok(()), s1) => (Ok(self), s1),
                    (Err(err), s1) => (Err(err), s1),
                },
                None => (Err(TlsErrorView::FailedToGetCurrentTime), s),
            },
            _ => (Err(inappropriate(m, HandshakeType::NewSessionTicket)), s),
        }
    }

    /// The state and the session after a key update that was asked for has been sent.
    pub open spec fn key_update_written<T: Hooks>(self, s: SessionView<T>) -> (
        ExpectTrafficView,
        SessionView<T>,
    ) {
        if self.want_write_key_update {
            let key_schedule = self.key_schedule.next_client();
            let m = MessageView::handshake(
                HandshakeType::KeyUpdate,
                HandshakePayloadView::KeyUpdate(KeyUpdateRequest::UpdateNotRequested),
            );
            (
                ExpectTrafficView { want_write_key_update: false, key_schedule, ..self },
                SessionView { common: s.common.with_record(m, true), ..s }.with_encrypter(
                    traffic_keys(s.common.suite->0, key_schedule.client->0),
                ),
            )
        } else {
            (self, s)
        }
    }
}

/// What the clock shows, if it can be read. What that is, is not known.
pub(crate) fn clock() -> (r: Option<TimeBase>)
    ensures
        clock_read(time_view(r)),
{
    match TimeBase::now() {
        Ok(now) => Some(now),
        Err(_) => None,
    }
}

/// A state or an error, by their views.
pub open spec fn traffic_view(r: Result<ExpectTraffic, TlsError>) -> Result<
    ExpectTrafficView,
    TlsErrorView,
> {
    match r {
        Ok(st) => Ok(st@),
        Err(err) => Err(err@),
    }
}

/// Whether the parts of a message go together: application data is not looked into.
pub open spec fn is_coherent(m: MessageView) -> bool {
    m.typ == ContentType::ApplicationData ==> m.payload is Opaque
}

/// A message that was read off a record is coherent.
pub proof fn read_messages_are_coherent(
    typ: ContentType,
    version: ProtocolVersion,
    bytes: Seq<u8>,
)
    ensures
        MessagePayloadView::of_bytes(typ, version, bytes) matches Some(payload) ==> is_coherent(
            MessageView { typ, version, payload },
        ),
{
}

impl ExpectTraffic {
    /// Stores a ticket that came at a given time.
    pub fn handle_new_ticket_at<T: Hooks>(
        &self,
        sess: &mut ClientSession<T>,
        nst: &NewSessionTicketPayloadTLS13,
        now: TimeBase,
    ) -> (r: Result<(), TlsError>)
        requires
            self@.can_keep_ticket(old(sess)@, nst@),
        ensures
            (seen(r), final(sess)@) == self@.new_ticket_handled(old(sess)@, nst@, now.secs),
    {
        let handshake_hash: Vec<u8> = self.transcript.get_current_hash();
        let secret: Vec<u8> = self.key_schedule.resumption_master_secret_and_derive_ticket_psk(
            handshake_hash.as_slice(),
            nst.nonce.0.as_slice(),
        );
        let mut value = ClientSessionValueWithResolvedCipherSuite::new(
            ProtocolVersion::TLSv1_3,
            sess.common.get_suite_assert(),
            &SessionID::empty(),
            to_vec(nst.ticket.0.as_slice()),
            secret,
            &sess.server_cert_chain,
            now,
        );
        value.set_times(now, nst.lifetime, nst.age_add);
        if let Some(size) = nst.get_max_early_data_size() {
            value.set_max_early_data_size(size);
            if sess.common.is_quic() {
                if size != 0 && size != 0xffff_ffff {
                    return Err(
                        TlsError::PeerMisbehavedError("invalid max_early_data_size".to_string()),
                    );
                }
            }
        }
        assert(value@.value == self@.ticket_value(sess@, nst@, now.secs));
        let key: ClientSessionKey = ClientSessionKey::session_for_server_name(&self.dns_name);
        let key_buf: Vec<u8> = key.get_encoding();
        assert(key_buf@ == session_key(SessionKeyKind::Session, self@.dns_name));
        let mut ticket: Vec<u8> = value.get_encoding();
        if sess.common.is_quic() {
            match &sess.common.quic.params {
                Some(params) => PayloadU16::encode_slice(params.as_slice(), &mut ticket),
                None => {
                    assert(false);
                },
            }
        }
        assert(ticket@ == self@.ticket_bytes(sess@, nst@, now.secs));
        let _ = sess.config.session_persistence.put(key_buf, ticket);
        Ok(())
    }

    /// Stores a ticket. The time comes from the clock; where that cannot be read, nothing is
    /// stored.
    pub fn handle_new_ticket_tls13<T: Hooks>(
        &self,
        sess: &mut ClientSession<T>,
        nst: &NewSessionTicketPayloadTLS13,
    ) -> (r: Result<(), TlsError>)
        requires
            self@.can_keep_ticket(old(sess)@, nst@),
        ensures
            (exists|now: u64|
                clock_read(Some(now)) && (seen(r), final(sess)@)
                    == #[trigger] self@.new_ticket_handled(old(sess)@, nst@, now)) || (clock_read(
                None,
            ) && seen(r) == Err::<(), TlsErrorView>(TlsErrorView::FailedToGetCurrentTime)
                && final(sess)@ == old(sess)@),
    {
        match TimeBase::now() {
            Ok(now) => self.handle_new_ticket_at(sess, nst, now),
            Err(err) => Err(err),
        }
    }

    /// Follows the server's change of keys, and takes note if it asks for one on this side.
    pub fn handle_key_update<T: Hooks>(
        &mut self,
        sess: &mut ClientSession<T>,
        kur: &KeyUpdateRequest,
    ) -> (r: Result<(), TlsError>)
        requires
            old(self)@.can_update_keys(old(sess)@, *kur),
        ensures
            (seen(r), final(self)@, final(sess)@) == old(self)@.key_update_handled(
                old(sess)@,
                *kur,
            ),
    {
        if sess.common.is_quic() {
            sess.common.send_fatal_alert(AlertDescription::UnexpectedMessage);
            return Err(
                TlsError::PeerMisbehavedError("KeyUpdate received in QUIC connection".to_string()),
            );
        }
        // Must not be interleaved with other handshake messages.
        match check_aligned_handshake(sess) {
            Ok(()) => {},
            Err(err) => {
                return Err(err);
            },
        }
        match *kur {
            KeyUpdateRequest::UpdateNotRequested => {},
            KeyUpdateRequest::UpdateRequested => {
                self.want_write_key_update = true;
            },
            KeyUpdateRequest::Unknown(_) => {
                sess.common.send_fatal_alert(AlertDescription::IllegalParameter);
                return Err(TlsError::CorruptMessagePayload(ContentType::Handshake));
            },
        }
        let new_read_key: Vec<u8> = self.key_schedule.next_server_application_traffic_secret();
        let suite: SupportedCipherSuite = sess.common.get_suite_assert();
        sess.common.record_layer.set_message_decrypter(
            derive_traffic_keys(suite, new_read_key.as_slice()),
        );
        Ok(())
    }

    /// Handles a message that came at a given time, if the clock can be read.
    pub fn handle_at<T: Hooks>(
        self,
        sess: &mut ClientSession<T>,
        m: Message,
        now: Option<TimeBase>,
    ) -> (r: Result<ExpectTraffic, TlsError>)
        requires
            self@.can_handle(old(sess)@, m@),
            is_coherent(m@),
        ensures
            (traffic_view(r), final(sess)@) == self@.handled(old(sess)@, m@, time_view(now)),
    {
        let mut st = self;
        if m.is_content_type(ContentType::ApplicationData) {
            match m.payload {
                MessagePayload::Opaque(payload) => sess.common.take_received_plaintext(payload),
                _ => {
                    assert(false);
                },
            }
            return Ok(st);
        }
        match get_handshake_payload(&m) {
            Some(HandshakePayload::NewSessionTicketTLS13(nst)) => {
                let now: TimeBase = match now {
                    Some(now) => now,
                    None => {
                        return Err(TlsError::FailedToGetCurrentTime);
                    },
                };
                match st.handle_new_ticket_at(sess, nst, now) {
                    Ok(()) => Ok(st),
                    Err(err) => Err(err),
                }
            },
            Some(HandshakePayload::KeyUpdate(kur)) => match st.handle_key_update(sess, kur) {
                Ok(()) => Ok(st),
                Err(err) => Err(err),
            },
            _ => {
                let content_types: Vec<ContentType> = vec![
                    ContentType::ApplicationData,
                    ContentType::Handshake,
                ];
                let handshake_types: Vec<HandshakeType> = vec![
                    HandshakeType::NewSessionTicket,
                    HandshakeType::KeyUpdate,
                ];
                assert(content_types@ =~= seq![
                    ContentType::ApplicationData,
                    ContentType::Handshake,
                ]);
                assert(handshake_types@ =~= seq![
                    HandshakeType::NewSessionTicket,
                    HandshakeType::KeyUpdate,
                ]);
                match check_message(&m, content_types, handshake_types) {
                    Ok(()) => Ok(st),
                    Err(err) => Err(err),
                }
            },
        }
    }

    /// Handles a message.
    pub fn handle<T: Hooks>(self, sess: &mut ClientSession<T>, m: Message) -> (r: Result<
        ExpectTraffic,
        TlsError,
    >)
        requires
            self@.can_handle(old(sess)@, m@),
            is_coherent(m@),
        ensures
            exists|now: Option<u64>|
                clock_read(now) && (traffic_view(r), final(sess)@) == #[trigger] self@.handled(
                    old(sess)@,
                    m@,
                    now,
                ),
    {
        let now: Option<TimeBase> = clock();
        self.handle_at(sess, m, now)
    }

    /// Fills `output` with keying material for the application.
    pub fn export_keying_material(
        &self,
        output: &mut [u8],
        label: &[u8],
        context: Option<&[u8]>,
    ) -> (r: Result<(), TlsError>)
        requires
            self@.key_schedule.exporter is Some,
        ensures
            final(output)@.len() == old(output)@.len(),
            old(output)@.len() <= max_okm_len(self@.key_schedule.ks.algorithm) ==> r is Ok
                && final(output)@ == self@.key_schedule.exported(
                label@,
                match context {
                    Some(context) => Some(context@),
                    None => None,
                },
                old(output)@.len(),
            ),
            old(output)@.len() > max_okm_len(self@.key_schedule.ks.algorithm) ==> final(output)@
                == old(output)@ && r is Err && r->Err_0@ == TlsErrorView::General(
                "exporting too much"@,
            ),
    {
        self.key_schedule.export_keying_material(output, label, context)
    }

    /// Sends the key update that the server asked for, if it did, and changes to the new
    /// keys.
    pub fn perhaps_write_key_update<T: Hooks>(&mut self, sess: &mut ClientSession<T>)
        requires
            old(self)@.want_write_key_update ==> old(sess)@.common.record_layer.encrypter is Some
                && old(self)@.key_schedule.client is Some && old(sess)@.common.suite is Some,
        ensures
            (final(self)@, final(sess)@) == old(self)@.key_update_written(old(sess)@),
    {
        if self.want_write_key_update {
            self.want_write_key_update = false;
            sess.common.send_msg_encrypt(Message::build_key_update_notify());
            let write_key: Vec<u8> = self.key_schedule.next_client_application_traffic_secret();
            let suite: SupportedCipherSuite = sess.common.get_suite_assert();
            sess.common.record_layer.set_message_encrypter(
                derive_traffic_keys(suite, write_key.as_slice()),
            );
        }
    }
}

/// A key update is answered once: answering again does nothing until another one comes.
pub proof fn key_update_is_answered_once<T: Hooks>(st: ExpectTrafficView, s: SessionView<T>)
    ensures
        ({
            let (st1, s1) = st.key_update_written(s);
            st1.key_update_written(s1) == (st1, s1)
        }),
{
}

/// The answer to a key update is sent under the keys that it ends, and changes neither the
/// keys of the other side nor anything that was sent before.
pub proof fn key_update_goes_out_under_the_old_keys<T: Hooks>(
    st: ExpectTrafficView,
    s: SessionView<T>,
)
    requires
        st.want_write_key_update,
    ensures
        ({
            let (_, s1) = st.key_update_written(s);
            &&& s1.common.sendable_tls.len() == s.common.sendable_tls.len() + 1
            &&& s1.common.sendable_tls.last().keys == s.common.record_layer.encrypter
            &&& s1.common.sendable_tls.drop_last() == s.common.sendable_tls
            &&& s1.common.record_layer.decrypter == s.common.record_layer.decrypter
        }),
{
    let (_, s1) = st.key_update_written(s);
    assert(s1.common.sendable_tls.drop_last() =~= s.common.sendable_tls);
}

/// A ticket that was stored is read back as the session that it resumes, if the store kept
/// it and every part of it fits its place.
pub proof fn stored_ticket_is_read_back<T: Hooks>(
    st: ExpectTrafficView,
    s: SessionView<T>,
    nst: NewSessionTicketView,
    now: u64,
)
    requires
        st.new_ticket_handled(s, nst, now).0 is Ok,
        st.ticket_value(s, nst, now).fits(),
        T::Store::stored(
            st.new_ticket_handled(s, nst, now).1.config.store,
            session_key(SessionKeyKind::Session, st.dns_name),
        ) == Some(st.ticket_bytes(s, nst, now)),
    ensures
        ({
            let bytes = T::Store::stored(
                st.new_ticket_handled(s, nst, now).1.config.store,
                session_key(SessionKeyKind::Session, st.dns_name),
            )->0;
            let value = st.ticket_value(s, nst, now);
            &&& ClientSessionValue::decoding(bytes) == Some(
                (value, ClientSessionValue::encoding(value).len()),
            )
            &&& s.common.is_quic() ==> bytes.skip(ClientSessionValue::encoding(value).len() as int)
                == prefixed_u16(s.common.quic.params->0)
        }),
{
    let value = st.ticket_value(s, nst, now);
    let bytes = ClientSessionValue::encoding(value);
    if s.common.is_quic() {
        let params = prefixed_u16(s.common.quic.params->0);
        client_session_reads_back(value, params);
        assert((bytes + params).skip(bytes.len() as int) =~= params);
    } else {
        client_session_reads_back(value, Seq::empty());
        assert(bytes + Seq::<u8>::empty() =~= bytes);
    }
}

/// The same where QUIC carries the session: only tickets can come.
pub struct ExpectQUICTraffic(pub ExpectTraffic);

impl View for ExpectQUICTraffic {
    type V = ExpectTrafficView;

    open spec fn view(&self) -> ExpectTrafficView {
        self.0@
    }
}

pub open spec fn quic_traffic_view(r: Result<ExpectQUICTraffic, TlsError>) -> Result<
    ExpectTrafficView,
    TlsErrorView,
> {
    match r {
        Ok(st) => Ok(st@),
        Err(err) => Err(err@),
    }
}

impl ExpectQUICTraffic {
    /// Handles a message that came at a given time, if the clock can be read.
    pub fn handle_at<T: Hooks>(
        self,
        sess: &mut ClientSession<T>,
        m: Message,
        now: Option<TimeBase>,
    ) -> (r: Result<ExpectQUICTraffic, TlsError>)
        requires
            self@.can_handle_in_quic(old(sess)@, m@),
        ensures
            (quic_traffic_view(r), final(sess)@) == self@.handled_in_quic(
                old(sess)@,
                m@,
                time_view(now),
            ),
    {
        match get_handshake_payload(&m) {
            Some(HandshakePayload::NewSessionTicketTLS13(nst)) => {
                let now: TimeBase = match now {
                    Some(now) => now,
                    None => {
                        return Err(TlsError::FailedToGetCurrentTime);
                    },
                };
                match self.0.handle_new_ticket_at(sess, nst, now) {
                    Ok(()) => Ok(self),
                    Err(err) => Err(err),
                }
            },
            _ => Err(inappropriate_handshake_message(&m, HandshakeType::NewSessionTicket)),
        }
    }

    /// Handles a message.
    pub fn handle<T: Hooks>(self, sess: &mut ClientSession<T>, m: Message) -> (r: Result<
        ExpectQUICTraffic,
        TlsError,
    >)
        requires
            self@.can_handle_in_quic(old(sess)@, m@),
        ensures
            exists|now: Option<u64>|
                clock_read(now) && (quic_traffic_view(r), final(sess)@)
                    == #[trigger] self@.handled_in_quic(
                    old(sess)@,
                    m@,
                    now,
                ),
    {
        let now: Option<TimeBase> = clock();
        self.handle_at(sess, m, now)
    }

    /// Fills `output` with keying material for the application.
    pub fn export_keying_material(
        &self,
        output: &mut [u8],
        label: &[u8],
        context: Option<&[u8]>,
    ) -> (r: Result<(), TlsError>)
        requires
            self@.key_schedule.exporter is Some,
        ensures
            final(output)@.len() == old(output)@.len(),
            old(output)@.len() <= max_okm_len(self@.key_schedule.ks.algorithm) ==> r is Ok
                && final(output)@ == self@.key_schedule.exported(
                label@,
                match context {
                    Some(context) => Some(context@),
                    None => None,
                },
                old(output)@.len(),
            ),
            old(output)@.len() > max_okm_len(self@.key_schedule.ks.algorithm) ==> final(output)@
                == old(output)@ && r is Err && r->Err_0@ == TlsErrorView::General(
                "exporting too much"@,
            ),
    {
        self.0.export_keying_material(output, label, context)
    }
}

} // verus!
