//! Records, and the messages in them.

use crate::base::Payload;
use crate::codec::{lemma_skip_skip, put_slice, read_u16, read_u8, Codec, Reader};
use crate::enums::{
    AlertDescription, AlertLevel, ContentType, HandshakeType, KeyUpdateRequest, ProtocolVersion,
};
use crate::error::{TlsError, TlsErrorView};
use crate::handshake::{
    HandshakeMessagePayload, HandshakeMessageView, HandshakePayload, HandshakePayloadView,
};
use vstd::prelude::*;

verus! {

/// An alert.
#[derive(Clone, Copy, PartialEq, Eq, Structural, Debug)]
pub struct AlertMessagePayload {
    pub level: AlertLevel,
    pub description: AlertDescription,
}

/// The signal that the following records are encrypted.
#[derive(Clone, Copy, PartialEq, Eq, Structural, Debug)]
pub struct ChangeCipherSpecPayload {}

/// What a message carries. What is not looked into is kept as bytes.
#[derive(Debug, PartialEq, Eq)]
pub enum MessagePayload {
    Alert(AlertMessagePayload),
    Handshake(HandshakeMessagePayload),
    ChangeCipherSpec(ChangeCipherSpecPayload),
    Opaque(Payload),
}

#[verifier::ext_equal]
pub enum MessagePayloadView {
    Alert(AlertMessagePayload),
    Handshake(HandshakeMessageView),
    ChangeCipherSpec,
    Opaque(Seq<u8>),
}

impl View for MessagePayload {
    type V = MessagePayloadView;

    open spec fn view(&self) -> MessagePayloadView {
        match *self {
            MessagePayload::Alert(alert) => MessagePayloadView::Alert(alert),
            MessagePayload::Handshake(hmp) => MessagePayloadView::Handshake(hmp@),
            MessagePayload::ChangeCipherSpec(_) => MessagePayloadView::ChangeCipherSpec,
            MessagePayload::Opaque(bytes) => MessagePayloadView::Opaque(bytes@),
        }
    }
}

impl MessagePayloadView {
    /// The payload on the wire.
    pub open spec fn encoding(self) -> Seq<u8> {
        match self {
            MessagePayloadView::Alert(alert) => seq![alert.level.wire(), alert.description.wire()],
            MessagePayloadView::Handshake(hmp) => hmp.encoding(),
            MessagePayloadView::ChangeCipherSpec => seq![1u8],
            MessagePayloadView::Opaque(bytes) => bytes,
        }
    }

    /// The payload that `bytes` stand for in a record of some type and version.
    pub open spec fn of_bytes(typ: ContentType, version: ProtocolVersion, bytes: Seq<u8>) -> Option<
        MessagePayloadView,
    > {
        match typ {
            ContentType::ApplicationData => Some(MessagePayloadView::Opaque(bytes)),
            ContentType::Alert => if bytes.len() == 2 {
                Some(
                    MessagePayloadView::Alert(
                        AlertMessagePayload {
                            level: AlertLevel::of_wire(bytes[0]),
                            description: AlertDescription::of_wire(bytes[1]),
                        },
                    ),
                )
            } else {
                None
            },
            ContentType::Handshake => match HandshakeMessageView::decoding(bytes, version) {
                Some((hmp, n)) => if n == bytes.len() {
                    Some(MessagePayloadView::Handshake(hmp))
                } else {
                    None
                },
                None => None,
            },
            ContentType::ChangeCipherSpec => if bytes == seq![1u8] {
                Some(MessagePayloadView::ChangeCipherSpec)
            } else {
                None
            },
            _ => None,
        }
    }
}

impl MessagePayload {
    pub fn encode(&self, bytes: &mut Vec<u8>)
        ensures
            final(bytes)@ == old(bytes)@ + self@.encoding(),
    {
        match self {
            MessagePayload::Alert(alert) => {
                bytes.push(alert.level.get_u8());
                bytes.push(alert.description.get_u8());
            },
            MessagePayload::Handshake(hmp) => hmp.encode(bytes),
            MessagePayload::ChangeCipherSpec(_) => bytes.push(1),
            MessagePayload::Opaque(payload) => put_slice(payload.0.as_slice(), bytes),
        }
        assert(bytes@ =~= old(bytes)@ + self@.encoding());
    }

    /// Looks into the payload of a record.
    pub fn new(typ: ContentType, version: ProtocolVersion, payload: Payload) -> (r: Result<
        MessagePayload,
        TlsError,
    >)
        ensures
            match MessagePayloadView::of_bytes(typ, version, payload@) {
                Some(v) => r is Ok && r->Ok_0@ == v,
                None => r is Err && r->Err_0@ == TlsErrorView::CorruptMessagePayload(typ),
            },
    {
        broadcast use lemma_skip_skip;

        let ghost bytes = payload@;
        let mut rd = Reader::init(payload.0.as_slice());
        match typ {
            ContentType::ApplicationData => {
                return Ok(MessagePayload::Opaque(payload));
            },
            ContentType::Alert => {
                if let Some(level) = AlertLevel::read(&mut rd) {
                    if let Some(description) = AlertDescription::read(&mut rd) {
                        if !rd.any_left() {
                            return Ok(
                                MessagePayload::Alert(AlertMessagePayload { level, description }),
                            );
                        }
                    }
                }
            },
            ContentType::Handshake => {
                if let Some(hmp) = HandshakeMessagePayload::read_version(&mut rd, version) {
                    if !rd.any_left() {
                        return Ok(MessagePayload::Handshake(hmp));
                    }
                }
            },
            ContentType::ChangeCipherSpec => {
                if let Some(x) = read_u8(&mut rd) {
                    if x == 1 && !rd.any_left() {
                        assert(bytes =~= seq![1u8]);
                        return Ok(MessagePayload::ChangeCipherSpec(ChangeCipherSpecPayload {  }));
                    }
                }
            },
            _ => {},
        }
        Err(TlsError::CorruptMessagePayload(typ))
    }
}

/// Why a record cannot be read.
#[derive(Clone, Copy, PartialEq, Eq, Structural, Debug)]
pub enum MessageError {
    TooShortForHeader,
    TooShortForLength,
    IllegalLength,
    IllegalContentType,
    IllegalProtocolVersion,
}

/// The first payload length that is too much for a record.
pub const MAX_PAYLOAD: u16 = 18432;

/// A record whose payload has not been looked into.
#[derive(Debug, PartialEq, Eq)]
pub struct OpaqueMessage {
    pub typ: ContentType,
    pub version: ProtocolVersion,
    pub payload: Payload,
}

#[verifier::ext_equal]
pub struct OpaqueMessageView {
    pub typ: ContentType,
    pub version: ProtocolVersion,
    pub payload: Seq<u8>,
}

impl View for OpaqueMessage {
    type V = OpaqueMessageView;

    open spec fn view(&self) -> OpaqueMessageView {
        OpaqueMessageView { typ: self.typ, version: self.version, payload: self.payload@ }
    }
}

impl OpaqueMessageView {
    /// The record at the front of `bytes` and what it takes up, or why there is none.
    pub open spec fn decoding(bytes: Seq<u8>) -> Result<(OpaqueMessageView, nat), MessageError> {
        if bytes.len() < 5 {
            Err(MessageError::TooShortForHeader)
        } else {
            let typ = ContentType::of_wire(bytes[0]);
            let version = ProtocolVersion::of_wire((bytes[1] * 256 + bytes[2]) as u16);
            let len = (bytes[3] * 256 + bytes[4]) as u16;
            if (typ != ContentType::ApplicationData && len == 0) || len >= MAX_PAYLOAD {
                Err(MessageError::IllegalLength)
            } else if typ is Unknown {
                Err(MessageError::IllegalContentType)
            } else if version is Unknown && bytes[1] != 3 {
                Err(MessageError::IllegalProtocolVersion)
            } else if bytes.len() < 5 + len {
                Err(MessageError::TooShortForLength)
            } else {
                Ok(
                    (
                        OpaqueMessageView {
                            typ,
                            version,
                            payload: bytes.subrange(5, 5 + len),
                        },
                        (5 + len) as nat,
                    ),
                )
            }
        }
    }
}

impl OpaqueMessage {
    /// Reads a record.
    pub fn read(rd: &mut Reader) -> (r: Result<OpaqueMessage, MessageError>)
        ensures
            match OpaqueMessageView::decoding(old(rd)@) {
                Ok((v, n)) => r is Ok && r->Ok_0@ == v && final(rd)@ == old(rd)@.skip(n as int),
                Err(err) => r == Err::<OpaqueMessage, _>(err),
            },
    {
        broadcast use lemma_skip_skip;

        let ghost bytes = rd@;
        let typ: ContentType = match ContentType::read(rd) {
            Some(x) => x,
            None => return Err(MessageError::TooShortForHeader),
        };
        let wire_version: u16 = match read_u16(rd) {
            Some(x) => x,
            None => return Err(MessageError::TooShortForHeader),
        };
        let version: ProtocolVersion = ProtocolVersion::from_u16(wire_version);
        let len: u16 = match read_u16(rd) {
            Some(x) => x,
            None => return Err(MessageError::TooShortForHeader),
        };
        assert(bytes.skip(1)[0] == bytes[1] && bytes.skip(1)[1] == bytes[2]);
        assert(bytes.skip(3)[0] == bytes[3] && bytes.skip(3)[1] == bytes[4]);
        if typ != ContentType::ApplicationData && len == 0 {
            return Err(MessageError::IllegalLength);
        }
        if len >= MAX_PAYLOAD {
            return Err(MessageError::IllegalLength);
        }
        if let ContentType::Unknown(_) = typ {
            return Err(MessageError::IllegalContentType);
        }
        if let ProtocolVersion::Unknown(_) = version {
            if wire_version / 256 != 3 {
                return Err(MessageError::IllegalProtocolVersion);
            }
        }
        match rd.take(len as usize) {
            Some(payload) => {
                assert(payload@ =~= bytes.subrange(5, 5 + len));
                Ok(OpaqueMessage { typ, version, payload: Payload::new(payload) })
            },
            None => Err(MessageError::TooShortForLength),
        }
    }
}

/// A message.
#[derive(Debug, PartialEq, Eq)]
pub struct Message {
    pub typ: ContentType,
    pub version: ProtocolVersion,
    pub payload: MessagePayload,
}

#[verifier::ext_equal]
pub struct MessageView {
    pub typ: ContentType,
    pub version: ProtocolVersion,
    pub payload: MessagePayloadView,
}

impl View for Message {
    type V = MessageView;

    open spec fn view(&self) -> MessageView {
        MessageView { typ: self.typ, version: self.version, payload: self.payload@ }
    }
}

impl MessageView {
    /// Whether this is a handshake message of some type.
    pub open spec fn is_handshake_type(self, hstyp: HandshakeType) -> bool {
        self.payload matches MessagePayloadView::Handshake(hmp) && hmp.typ == hstyp
    }

    /// A handshake message of TLS1.3.
    pub open spec fn handshake(typ: HandshakeType, payload: HandshakePayloadView) -> MessageView {
        MessageView {
            typ: ContentType::Handshake,
            version: ProtocolVersion::TLSv1_3,
            payload: MessagePayloadView::Handshake(HandshakeMessageView { typ, payload }),
        }
    }

    pub open spec fn alert(level: AlertLevel, description: AlertDescription) -> MessageView {
        MessageView {
            typ: ContentType::Alert,
            version: ProtocolVersion::TLSv1_2,
            payload: MessagePayloadView::Alert(AlertMessagePayload { level, description }),
        }
    }

    pub open spec fn change_cipher_spec() -> MessageView {
        MessageView {
            typ: ContentType::ChangeCipherSpec,
            version: ProtocolVersion::TLSv1_2,
            payload: MessagePayloadView::ChangeCipherSpec,
        }
    }
}

impl Message {
    /// Looks into the payload of a record.
    pub fn try_from_opaque(opaque: OpaqueMessage) -> (r: Result<Message, TlsError>)
        ensures
            match MessagePayloadView::of_bytes(opaque.typ, opaque.version, opaque.payload@) {
                Some(payload) => r is Ok && r->Ok_0@ == (MessageView {
                    typ: opaque.typ,
                    version: opaque.version,
                    payload,
                }),
                None => r is Err && r->Err_0@ == TlsErrorView::CorruptMessagePayload(opaque.typ),
            },
    {
        let typ: ContentType = opaque.typ;
        let version: ProtocolVersion = opaque.version;
        match MessagePayload::new(typ, version, opaque.payload) {
            Ok(payload) => Ok(Message { typ, version, payload }),
            Err(err) => Err(err),
        }
    }

    /// A handshake message of TLS1.3.
    pub fn build_handshake(typ: HandshakeType, payload: HandshakePayload) -> (r: Message)
        ensures
            r@ == MessageView::handshake(typ, payload@),
    {
        Message {
            typ: ContentType::Handshake,
            version: ProtocolVersion::TLSv1_3,
            payload: MessagePayload::Handshake(HandshakeMessagePayload { typ, payload }),
        }
    }

    pub fn build_alert(level: AlertLevel, description: AlertDescription) -> (r: Message)
        ensures
            r@ == MessageView::alert(level, description),
    {
        Message {
            typ: ContentType::Alert,
            version: ProtocolVersion::TLSv1_2,
            payload: MessagePayload::Alert(AlertMessagePayload { level, description }),
        }
    }

    /// The message that this side changes its keys, and does not ask the other to.
    pub fn build_key_update_notify() -> (r: Message)
        ensures
            r@ == MessageView::handshake(
                HandshakeType::KeyUpdate,
                HandshakePayloadView::KeyUpdate(KeyUpdateRequest::UpdateNotRequested),
            ),
    {
        Message::build_handshake(
            HandshakeType::KeyUpdate,
            HandshakePayload::KeyUpdate(KeyUpdateRequest::UpdateNotRequested),
        )
    }

    pub fn is_content_type(&self, typ: ContentType) -> (r: bool)
        ensures
            r == (self.typ == typ),
    {
        self.typ == typ
    }

    pub fn is_handshake_type(&self, hstyp: HandshakeType) -> (r: bool)
        ensures
            r == self@.is_handshake_type(hstyp),
    {
        match &self.payload {
            MessagePayload::Handshake(hmp) => hmp.typ == hstyp,
            _ => false,
        }
    }
}

impl vstd::std_specs::convert::TryFromSpecImpl<OpaqueMessage> for Message {
    open spec fn obeys_try_from_spec() -> bool {
        false
    }

    open spec fn try_from_spec(opaque: OpaqueMessage) -> Result<Message, TlsError> {
        Err(TlsError::CorruptMessagePayload(opaque.typ))
    }
}

impl TryFrom<OpaqueMessage> for Message {
    type Error = TlsError;

    fn try_from(opaque: OpaqueMessage) -> (r: Result<Message, TlsError>)
        ensures
            match MessagePayloadView::of_bytes(opaque.typ, opaque.version, opaque.payload@) {
                Some(payload) => r is Ok && r->Ok_0@ == (MessageView {
                    typ: opaque.typ,
                    version: opaque.version,
                    payload,
                }),
                None => r is Err && r->Err_0@ == TlsErrorView::CorruptMessagePayload(opaque.typ),
            },
    {
        Message::try_from_opaque(opaque)
    }
}

} // verus!
