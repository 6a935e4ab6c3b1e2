//! The part of a session that does not depend on its role: records to send, keys in force,
//! and what QUIC takes in place of records.

use crate::base::Payload;
use crate::codec::{to_vec, views};
use crate::enums::{AlertDescription, AlertLevel, ContentType, ProtocolVersion};
use crate::hsjoiner::{HandshakeJoiner, JoinerView};
use crate::key_schedule::{secret_view, TrafficKeys, TrafficKeysView};
use crate::message::{Message, MessagePayload, MessagePayloadView, MessageView};
use crate::suites::SupportedCipherSuite;
use vstd::prelude::*;

verus! {

/// What carries the messages.
#[derive(Clone, Copy, PartialEq, Eq, Structural, Debug)]
pub enum Protocol {
    Tls13,
    Quic,
}

/// A record to send: what goes into it, and what to protect it with. A record without keys
/// goes out in the clear.
#[derive(Debug)]
pub struct Outgoing {
    pub typ: ContentType,
    pub version: ProtocolVersion,
    pub payload: Vec<u8>,
    pub keys: Option<TrafficKeys>,
}

#[verifier::ext_equal]
pub struct OutgoingView {
    pub typ: ContentType,
    pub version: ProtocolVersion,
    pub payload: Seq<u8>,
    pub keys: Option<TrafficKeysView>,
}

impl View for Outgoing {
    type V = OutgoingView;

    open spec fn view(&self) -> OutgoingView {
        OutgoingView {
            typ: self.typ,
            version: self.version,
            payload: self.payload@,
            keys: keys_view(self.keys),
        }
    }
}

pub open spec fn keys_view(keys: Option<TrafficKeys>) -> Option<TrafficKeysView> {
    match keys {
        Some(keys) => Some(keys@),
        None => None,
    }
}

fn duplicate_keys(keys: &Option<TrafficKeys>) -> (r: Option<TrafficKeys>)
    ensures
        keys_view(r) == keys_view(*keys),
{
    match keys {
        Some(keys) => Some(keys.duplicate()),
        None => None,
    }
}

/// The keys in force.
#[derive(Debug)]
pub struct RecordLayer {
    pub encrypter: Option<TrafficKeys>,
    pub decrypter: Option<TrafficKeys>,
}

#[verifier::ext_equal]
pub struct RecordLayerView {
    pub encrypter: Option<TrafficKeysView>,
    pub decrypter: Option<TrafficKeysView>,
}

impl View for RecordLayer {
    type V = RecordLayerView;

    open spec fn view(&self) -> RecordLayerView {
        RecordLayerView {
            encrypter: keys_view(self.encrypter),
            decrypter: keys_view(self.decrypter),
        }
    }
}

impl RecordLayer {
    pub fn is_encrypting(&self) -> (r: bool)
        ensures
            r == (self@.encrypter is Some),
    {
        self.encrypter.is_some()
    }

    pub fn set_message_encrypter(&mut self, keys: TrafficKeys)
        ensures
            final(self)@ == (RecordLayerView { encrypter: Some(keys@), ..old(self)@ }),
    {
        self.encrypter = Some(keys);
    }

    pub fn set_message_decrypter(&mut self, keys: TrafficKeys)
        ensures
            final(self)@ == (RecordLayerView { decrypter: Some(keys@), ..old(self)@ }),
    {
        self.decrypter = Some(keys);
    }
}

/// The secrets of both sides.
#[derive(Debug, PartialEq, Eq)]
pub struct Secrets {
    pub client: Vec<u8>,
    pub server: Vec<u8>,
}

#[verifier::ext_equal]
pub struct SecretsView {
    pub client: Seq<u8>,
    pub server: Seq<u8>,
}

impl View for Secrets {
    type V = SecretsView;

    open spec fn view(&self) -> SecretsView {
        SecretsView { client: self.client@, server: self.server@ }
    }
}

pub open spec fn secrets_view(secrets: Option<Secrets>) -> Option<SecretsView> {
    match secrets {
        Some(secrets) => Some(secrets@),
        None => None,
    }
}

/// A handshake message for QUIC to carry.
#[derive(Debug, PartialEq, Eq)]
pub struct QuicMessage {
    pub encrypted: bool,
    pub bytes: Vec<u8>,
}

#[verifier::ext_equal]
pub struct QuicMessageView {
    pub encrypted: bool,
    pub bytes: Seq<u8>,
}

impl View for QuicMessage {
    type V = QuicMessageView;

    open spec fn view(&self) -> QuicMessageView {
        QuicMessageView { encrypted: self.encrypted, bytes: self.bytes@ }
    }
}

/// What QUIC takes from a session.
#[derive(Debug)]
pub struct Quic {
    pub params: Option<Vec<u8>>,
    pub alert: Option<AlertDescription>,
    pub hs_queue: Vec<QuicMessage>,
    pub early_secret: Option<Vec<u8>>,
    pub hs_secrets: Option<Secrets>,
    pub traffic_secrets: Option<Secrets>,
}

#[verifier::ext_equal]
pub struct QuicView {
    pub params: Option<Seq<u8>>,
    pub alert: Option<AlertDescription>,
    pub hs_queue: Seq<QuicMessageView>,
    pub early_secret: Option<Seq<u8>>,
    pub hs_secrets: Option<SecretsView>,
    pub traffic_secrets: Option<SecretsView>,
}

impl View for Quic {
    type V = QuicView;

    open spec fn view(&self) -> QuicView {
        QuicView {
            params: secret_view(self.params),
            alert: self.alert,
            hs_queue: views(self.hs_queue@),
            early_secret: secret_view(self.early_secret),
            hs_secrets: secrets_view(self.hs_secrets),
            traffic_secrets: secrets_view(self.traffic_secrets),
        }
    }
}

/// The random values of the hellos, as far as secrets are logged under them.
#[derive(Debug)]
pub struct SessionRandoms {
    pub client: [u8; 32],
}

impl View for SessionRandoms {
    type V = Seq<u8>;

    open spec fn view(&self) -> Seq<u8> {
        self.client@
    }
}

/// What a session has whatever its role.
#[derive(Debug)]
pub struct SessionCommon {
    pub protocol: Protocol,
    pub record_layer: RecordLayer,
    pub suite: Option<SupportedCipherSuite>,
    pub alpn_protocol: Option<Vec<u8>>,
    pub early_traffic: bool,
    pub traffic: bool,
    pub sent_fatal_alert: bool,
    pub handshake_joiner: HandshakeJoiner,
    pub received_plaintext: Vec<Payload>,
    pub sendable_plaintext: Vec<Payload>,
    pub sendable_tls: Vec<Outgoing>,
    pub quic: Quic,
}

#[verifier::ext_equal]
pub struct CommonView {
    pub protocol: Protocol,
    pub record_layer: RecordLayerView,
    pub suite: Option<SupportedCipherSuite>,
    pub alpn_protocol: Option<Seq<u8>>,
    pub early_traffic: bool,
    pub traffic: bool,
    pub sent_fatal_alert: bool,
    pub handshake_joiner: JoinerView,
    pub received_plaintext: Seq<Seq<u8>>,
    pub sendable_plaintext: Seq<Seq<u8>>,
    pub sendable_tls: Seq<OutgoingView>,
    pub quic: QuicView,
}

impl View for SessionCommon {
    type V = CommonView;

    open spec fn view(&self) -> CommonView {
        CommonView {
            protocol: self.protocol,
            record_layer: self.record_layer@,
            suite: self.suite,
            alpn_protocol: secret_view(self.alpn_protocol),
            early_traffic: self.early_traffic,
            traffic: self.traffic,
            sent_fatal_alert: self.sent_fatal_alert,
            handshake_joiner: self.handshake_joiner@,
            received_plaintext: views(self.received_plaintext@),
            sendable_plaintext: views(self.sendable_plaintext@),
            sendable_tls: views(self.sendable_tls@),
            quic: self.quic@,
        }
    }
}

/// The record that application data goes out in.
pub open spec fn data_record(data: Seq<u8>, keys: Option<TrafficKeysView>) -> OutgoingView {
    OutgoingView {
        typ: ContentType::ApplicationData,
        version: ProtocolVersion::TLSv1_2,
        payload: data,
        keys,
    }
}

impl CommonView {
    /// A session in which nothing has happened yet.
    pub open spec fn start(protocol: Protocol) -> CommonView {
        CommonView {
            protocol,
            record_layer: RecordLayerView { encrypter: None, decrypter: None },
            suite: None,
            alpn_protocol: None,
            early_traffic: false,
            traffic: false,
            sent_fatal_alert: false,
            handshake_joiner: JoinerView {
                buf: Seq::empty(),
                version: ProtocolVersion::TLSv1_2,
            },
            received_plaintext: Seq::empty(),
            sendable_plaintext: Seq::empty(),
            sendable_tls: Seq::empty(),
            quic: QuicView {
                params: None,
                alert: None,
                hs_queue: Seq::empty(),
                early_secret: None,
                hs_secrets: None,
                traffic_secrets: None,
            },
        }
    }

    pub open spec fn is_quic(self) -> bool {
        self.protocol == Protocol::Quic
    }

    /// Whether no part of a handshake message is waiting for the rest of it.
    pub open spec fn is_aligned(self) -> bool {
        self.handshake_joiner.buf.len() == 0
    }

    /// Whether messages can go out encrypted.
    pub open spec fn can_encrypt(self) -> bool {
        self.is_quic() || self.record_layer.encrypter is Some
    }

    pub open spec fn with_encrypter(self, keys: TrafficKeysView) -> CommonView {
        CommonView {
            record_layer: RecordLayerView { encrypter: Some(keys), ..self.record_layer },
            ..self
        }
    }

    pub open spec fn with_decrypter(self, keys: TrafficKeysView) -> CommonView {
        CommonView {
            record_layer: RecordLayerView { decrypter: Some(keys), ..self.record_layer },
            ..self
        }
    }

    /// A message has gone into a record.
    pub open spec fn with_record(self, m: MessageView, encrypted: bool) -> CommonView {
        CommonView {
            sendable_tls: self.sendable_tls.push(
                OutgoingView {
                    typ: m.typ,
                    version: m.version,
                    payload: m.payload.encoding(),
                    keys: if encrypted {
                        self.record_layer.encrypter
                    } else {
                        None
                    },
                },
            ),
            ..self
        }
    }

    /// A message has been sent. QUIC is told of an alert and carries everything else itself.
    pub open spec fn with_sent(self, m: MessageView, encrypted: bool) -> CommonView {
        if self.is_quic() {
            match m.payload {
                MessagePayloadView::Alert(alert) => CommonView {
                    quic: QuicView { alert: Some(alert.description), ..self.quic },
                    ..self
                },
                _ => CommonView {
                    quic: QuicView {
                        hs_queue: self.quic.hs_queue.push(
                            QuicMessageView { encrypted, bytes: m.payload.encoding() },
                        ),
                        ..self.quic
                    },
                    ..self
                },
            }
        } else {
            self.with_record(m, encrypted)
        }
    }

    /// A fatal alert has been sent, encrypted as soon as anything is.
    pub open spec fn alerted(self, description: AlertDescription) -> CommonView {
        CommonView {
            sent_fatal_alert: true,
            ..self.with_sent(
                MessageView::alert(AlertLevel::Fatal, description),
                self.record_layer.encrypter is Some,
            )
        }
    }

    /// Application data can flow, and what was waiting for that has been sent.
    pub open spec fn with_traffic(self) -> CommonView {
        CommonView {
            traffic: true,
            sendable_plaintext: Seq::empty(),
            sendable_tls: self.sendable_tls + self.sendable_plaintext.map_values(
                |data: Seq<u8>| data_record(data, self.record_layer.encrypter),
            ),
            ..self
        }
    }
}

impl SessionCommon {
    pub fn new(protocol: Protocol) -> (r: SessionCommon)
        ensures
            r@ == CommonView::start(protocol),
    {
        let r = SessionCommon {
            protocol,
            record_layer: RecordLayer { encrypter: None, decrypter: None },
            suite: None,
            alpn_protocol: None,
            early_traffic: false,
            traffic: false,
            sent_fatal_alert: false,
            handshake_joiner: HandshakeJoiner::new(),
            received_plaintext: Vec::new(),
            sendable_plaintext: Vec::new(),
            sendable_tls: Vec::new(),
            quic: Quic {
                params: None,
                alert: None,
                hs_queue: Vec::new(),
                early_secret: None,
                hs_secrets: None,
                traffic_secrets: None,
            },
        };
        assert(r@.received_plaintext =~= Seq::<Seq<u8>>::empty());
        assert(r@.sendable_plaintext =~= Seq::<Seq<u8>>::empty());
        assert(r@.sendable_tls =~= Seq::<OutgoingView>::empty());
        assert(r@.quic.hs_queue =~= Seq::<QuicMessageView>::empty());
        r
    }

    pub fn is_quic(&self) -> (r: bool)
        ensures
            r == self@.is_quic(),
    {
        self.protocol == Protocol::Quic
    }

    /// The suite of the session, once it is known.
    pub fn get_suite_assert(&self) -> (r: SupportedCipherSuite)
        requires
            self@.suite is Some,
        ensures
            Some(r) == self@.suite,
    {
        match self.suite {
            Some(suite) => suite,
            None => {
                assert(false);
                SupportedCipherSuite::TLS13_AES_128_GCM_SHA256
            },
        }
    }

    fn queue_record(&mut self, m: Message, encrypted: bool)
        ensures
            final(self)@ == old(self)@.with_record(m@, encrypted),
    {
        let ghost before = self.sendable_tls@;
        let mut payload: Vec<u8> = Vec::new();
        m.payload.encode(&mut payload);
        assert(payload@ =~= m@.payload.encoding());
        let keys: Option<TrafficKeys> = if encrypted {
            duplicate_keys(&self.record_layer.encrypter)
        } else {
            None
        };
        let record = Outgoing { typ: m.typ, version: m.version, payload, keys };
        self.sendable_tls.push(record);
        assert(views(self.sendable_tls@) =~= views(before).push(record@));
    }

    /// Sends a message.
    pub fn send_msg(&mut self, m: Message, must_encrypt: bool)
        requires
            must_encrypt ==> old(self)@.can_encrypt(),
        ensures
            final(self)@ == old(self)@.with_sent(m@, must_encrypt),
    {
        if self.is_quic() {
            match &m.payload {
                MessagePayload::Alert(alert) => {
                    self.quic.alert = Some(alert.description);
                },
                payload => {
                    let ghost before = self.quic.hs_queue@;
                    let mut bytes: Vec<u8> = Vec::new();
                    payload.encode(&mut bytes);
                    assert(bytes@ =~= m@.payload.encoding());
                    let message = QuicMessage { encrypted: must_encrypt, bytes };
                    self.quic.hs_queue.push(message);
                    assert(views(self.quic.hs_queue@) =~= views(before).push(message@));
                },
            }
        } else {
            self.queue_record(m, must_encrypt);
        }
    }

    /// Sends a message in an encrypted record.
    pub fn send_msg_encrypt(&mut self, m: Message)
        requires
            old(self)@.record_layer.encrypter is Some,
        ensures
            final(self)@ == old(self)@.with_record(m@, true),
    {
        self.queue_record(m, true);
    }

    /// Tells the peer that the session has failed.
    pub fn send_fatal_alert(&mut self, description: AlertDescription)
        ensures
            final(self)@ == old(self)@.alerted(description),
    {
        let encrypted: bool = self.record_layer.is_encrypting();
        self.send_msg(Message::build_alert(AlertLevel::Fatal, description), encrypted);
        self.sent_fatal_alert = true;
    }

    /// Lets application data flow, and sends what was waiting for that.
    pub fn start_traffic(&mut self)
        requires
            old(self)@.record_layer.encrypter is Some,
        ensures
            final(self)@ == old(self)@.with_traffic(),
    {
        self.traffic = true;
        let ghost all = self.sendable_plaintext@;
        let ghost records = self.sendable_tls@;
        let ghost keys = self@.record_layer.encrypter;
        let ghost before = self@;
        let mut waiting: Vec<Payload> = Vec::new();
        std::mem::swap(&mut waiting, &mut self.sendable_plaintext);
        let mut i: usize = 0;
        assert(views(self.sendable_tls@) =~= views(records) + views(all).take(0).map_values(
            |data: Seq<u8>| data_record(data, keys),
        ));
        assert(self@.sendable_plaintext =~= Seq::<Seq<u8>>::empty());
        while i < waiting.len()
            invariant
                i <= waiting@.len(),
                waiting@ == all,
                self@ == (CommonView {
                    sendable_plaintext: Seq::empty(),
                    sendable_tls: views(records) + views(all).take(i as int).map_values(
                        |data: Seq<u8>| data_record(data, keys),
                    ),
                    ..before
                }),
                keys == before.record_layer.encrypter,
            decreases waiting@.len() - i,
        {
            let ghost sent = self.sendable_tls@;
            let record = Outgoing {
                typ: ContentType::ApplicationData,
                version: ProtocolVersion::TLSv1_2,
                payload: to_vec(waiting[i].0.as_slice()),
                keys: duplicate_keys(&self.record_layer.encrypter),
            };
            assert(record@ == data_record(all[i as int]@, keys));
            self.sendable_tls.push(record);
            assert(views(self.sendable_tls@) =~= views(sent).push(record@));
            assert(views(all).take(i + 1).map_values(|data: Seq<u8>| data_record(data, keys))
                =~= views(all).take(i as int).map_values(
                |data: Seq<u8>| data_record(data, keys),
            ).push(record@));
            assert(views(self.sendable_tls@) =~= views(records) + views(all).take(
                i + 1,
            ).map_values(|data: Seq<u8>| data_record(data, keys)));
            i += 1;
        }
        assert(views(all).take(i as int) =~= views(all));
    }

    /// Takes application data in.
    pub fn take_received_plaintext(&mut self, bytes: Payload)
        ensures
            final(self)@ == (CommonView {
                received_plaintext: old(self)@.received_plaintext.push(bytes@),
                ..old(self)@
            }),
    {
        let ghost before = self.received_plaintext@;
        self.received_plaintext.push(bytes);
        assert(views(self.received_plaintext@) =~= views(before).push(bytes@));
    }
}

} // verus!
