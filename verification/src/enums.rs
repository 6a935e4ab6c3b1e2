//! The code points of the protocol. Each enumeration keeps the numbers that it has no
//! name for, so that whatever was received can be reported and sent on.

use crate::codec::{be16, decode_u16, decode_u8, put_u16, read_u16, read_u8, Codec, Reader};
use vstd::prelude::*;

verus! {

/// What a TLS record carries.
#[allow(non_camel_case_types)]
#[derive(Clone, Copy, PartialEq, Eq, Structural, Debug)]
pub enum ContentType {
    ChangeCipherSpec,
    Alert,
    Handshake,
    ApplicationData,
    Heartbeat,
    Unknown(u8),
}

impl ContentType {
    /// The number that stands for this value on the wire.
    pub open spec fn wire(self) -> u8 {
        match self {
            ContentType::ChangeCipherSpec => 0x14u8,
            ContentType::Alert => 0x15u8,
            ContentType::Handshake => 0x16u8,
            ContentType::ApplicationData => 0x17u8,
            ContentType::Heartbeat => 0x18u8,
            ContentType::Unknown(x) => x,
        }
    }

    /// The value that a number on the wire stands for.
    pub open spec fn of_wire(x: u8) -> ContentType {
        match x {
            0x14 => ContentType::ChangeCipherSpec,
            0x15 => ContentType::Alert,
            0x16 => ContentType::Handshake,
            0x17 => ContentType::ApplicationData,
            0x18 => ContentType::Heartbeat,
            _ => ContentType::Unknown(x),
        }
    }

    pub fn get_u8(self) -> (r: u8)
        ensures
            r == self.wire(),
    {
        match self {
            ContentType::ChangeCipherSpec => 0x14u8,
            ContentType::Alert => 0x15u8,
            ContentType::Handshake => 0x16u8,
            ContentType::ApplicationData => 0x17u8,
            ContentType::Heartbeat => 0x18u8,
            ContentType::Unknown(x) => x,
        }
    }

    pub fn from_u8(x: u8) -> (r: ContentType)
        ensures
            r == Self::of_wire(x),
    {
        match x {
            0x14 => ContentType::ChangeCipherSpec,
            0x15 => ContentType::Alert,
            0x16 => ContentType::Handshake,
            0x17 => ContentType::ApplicationData,
            0x18 => ContentType::Heartbeat,
            _ => ContentType::Unknown(x),
        }
    }

    /// A number read off the wire goes back onto it unchanged.
    pub proof fn wire_round_trip(x: u8)
        ensures
            Self::of_wire(x).wire() == x,
    {
    }
}

impl View for ContentType {
    type V = ContentType;

    open spec fn view(&self) -> ContentType {
        *self
    }
}

impl Codec for ContentType {
    open spec fn encoding(v: ContentType) -> Seq<u8> {
        seq![v.wire()]
    }

    open spec fn decoding(bytes: Seq<u8>) -> Option<(ContentType, nat)> {
        match decode_u8(bytes) {
            Some((x, n)) => Some((ContentType::of_wire(x), n)),
            None => None,
        }
    }

    proof fn decoding_progresses(bytes: Seq<u8>) {
    }

    fn encode(&self, bytes: &mut Vec<u8>) {
        bytes.push(self.get_u8());
    }

    fn read(rd: &mut Reader) -> (r: Option<ContentType>) {
        match read_u8(rd) {
            Some(x) => Some(ContentType::from_u8(x)),
            None => None,
        }
    }
}

/// The kind of a handshake message.
#[allow(non_camel_case_types)]
#[derive(Clone, Copy, PartialEq, Eq, Structural, Debug)]
pub enum HandshakeType {
    HelloRequest,
    ClientHello,
    ServerHello,
    HelloVerifyRequest,
    NewSessionTicket,
    EndOfEarlyData,
    HelloRetryRequest,
    EncryptedExtensions,
    Certificate,
    ServerKeyExchange,
    CertificateRequest,
    ServerHelloDone,
    CertificateVerify,
    ClientKeyExchange,
    Finished,
    CertificateURL,
    CertificateStatus,
    KeyUpdate,
    MessageHash,
    Unknown(u8),
}

impl HandshakeType {
    /// The number that stands for this value on the wire.
    pub open spec fn wire(self) -> u8 {
        match self {
            HandshakeType::HelloRequest => 0x00u8,
            HandshakeType::ClientHello => 0x01u8,
            HandshakeType::ServerHello => 0x02u8,
            HandshakeType::HelloVerifyRequest => 0x03u8,
            HandshakeType::NewSessionTicket => 0x04u8,
            HandshakeType::EndOfEarlyData => 0x05u8,
            HandshakeType::HelloRetryRequest => 0x06u8,
            HandshakeType::EncryptedExtensions => 0x08u8,
            HandshakeType::Certificate => 0x0bu8,
            HandshakeType::ServerKeyExchange => 0x0cu8,
            HandshakeType::CertificateRequest => 0x0du8,
            HandshakeType::ServerHelloDone => 0x0eu8,
            HandshakeType::CertificateVerify => 0x0fu8,
            HandshakeType::ClientKeyExchange => 0x10u8,
            HandshakeType::Finished => 0x14u8,
            HandshakeType::CertificateURL => 0x15u8,
            HandshakeType::CertificateStatus => 0x16u8,
            HandshakeType::KeyUpdate => 0x18u8,
            HandshakeType::MessageHash => 0xfeu8,
            HandshakeType::Unknown(x) => x,
        }
    }

    /// The value that a number on the wire stands for.
    pub open spec fn of_wire(x: u8) -> HandshakeType {
        match x {
            0x00 => HandshakeType::HelloRequest,
            0x01 => HandshakeType::ClientHello,
            0x02 => HandshakeType::ServerHello,
            0x03 => HandshakeType::HelloVerifyRequest,
            0x04 => HandshakeType::NewSessionTicket,
            0x05 => HandshakeType::EndOfEarlyData,
            0x06 => HandshakeType::HelloRetryRequest,
            0x08 => HandshakeType::EncryptedExtensions,
            0x0b => HandshakeType::Certificate,
            0x0c => HandshakeType::ServerKeyExchange,
            0x0d => HandshakeType::CertificateRequest,
            0x0e => HandshakeType::ServerHelloDone,
            0x0f => HandshakeType::CertificateVerify,
            0x10 => HandshakeType::ClientKeyExchange,
            0x14 => HandshakeType::Finished,
            0x15 => HandshakeType::CertificateURL,
            0x16 => HandshakeType::CertificateStatus,
            0x18 => HandshakeType::KeyUpdate,
            0xfe => HandshakeType::MessageHash,
            _ => HandshakeType::Unknown(x),
        }
    }

    pub fn get_u8(self) -> (r: u8)
        ensures
            r == self.wire(),
    {
        match self {
            HandshakeType::HelloRequest => 0x00u8,
            HandshakeType::ClientHello => 0x01u8,
            HandshakeType::ServerHello => 0x02u8,
            HandshakeType::HelloVerifyRequest => 0x03u8,
            HandshakeType::NewSessionTicket => 0x04u8,
            HandshakeType::EndOfEarlyData => 0x05u8,
            HandshakeType::HelloRetryRequest => 0x06u8,
            HandshakeType::EncryptedExtensions => 0x08u8,
            HandshakeType::Certificate => 0x0bu8,
            HandshakeType::ServerKeyExchange => 0x0cu8,
            HandshakeType::CertificateRequest => 0x0du8,
            HandshakeType::ServerHelloDone => 0x0eu8,
            HandshakeType::CertificateVerify => 0x0fu8,
            HandshakeType::ClientKeyExchange => 0x10u8,
            HandshakeType::Finished => 0x14u8,
            HandshakeType::CertificateURL => 0x15u8,
            HandshakeType::CertificateStatus => 0x16u8,
            HandshakeType::KeyUpdate => 0x18u8,
            HandshakeType::MessageHash => 0xfeu8,
            HandshakeType::Unknown(x) => x,
        }
    }

    pub fn from_u8(x: u8) -> (r: HandshakeType)
        ensures
            r == Self::of_wire(x),
    {
        match x {
            0x00 => HandshakeType::HelloRequest,
            0x01 => HandshakeType::ClientHello,
            0x02 => HandshakeType::ServerHello,
            0x03 => HandshakeType::HelloVerifyRequest,
            0x04 => HandshakeType::NewSessionTicket,
            0x05 => HandshakeType::EndOfEarlyData,
            0x06 => HandshakeType::HelloRetryRequest,
            0x08 => HandshakeType::EncryptedExtensions,
            0x0b => HandshakeType::Certificate,
            0x0c => HandshakeType::ServerKeyExchange,
            0x0d => HandshakeType::CertificateRequest,
            0x0e => HandshakeType::ServerHelloDone,
            0x0f => HandshakeType::CertificateVerify,
            0x10 => HandshakeType::ClientKeyExchange,
            0x14 => HandshakeType::Finished,
            0x15 => HandshakeType::CertificateURL,
            0x16 => HandshakeType::CertificateStatus,
            0x18 => HandshakeType::KeyUpdate,
            0xfe => HandshakeType::MessageHash,
            _ => HandshakeType::Unknown(x),
        }
    }

    /// A number read off the wire goes back onto it unchanged.
    pub proof fn wire_round_trip(x: u8)
        ensures
            Self::of_wire(x).wire() == x,
    {
    }
}

impl View for HandshakeType {
    type V = HandshakeType;

    open spec fn view(&self) -> HandshakeType {
        *self
    }
}

impl Codec for HandshakeType {
    open spec fn encoding(v: HandshakeType) -> Seq<u8> {
        seq![v.wire()]
    }

    open spec fn decoding(bytes: Seq<u8>) -> Option<(HandshakeType, nat)> {
        match decode_u8(bytes) {
            Some((x, n)) => Some((HandshakeType::of_wire(x), n)),
            None => None,
        }
    }

    proof fn decoding_progresses(bytes: Seq<u8>) {
    }

    fn encode(&self, bytes: &mut Vec<u8>) {
        bytes.push(self.get_u8());
    }

    fn read(rd: &mut Reader) -> (r: Option<HandshakeType>) {
        match read_u8(rd) {
            Some(x) => Some(HandshakeType::from_u8(x)),
            None => None,
        }
    }
}

/// A protocol version.
#[allow(non_camel_case_types)]
#[derive(Clone, Copy, PartialEq, Eq, Structural, Debug)]
pub enum ProtocolVersion {
    SSLv2,
    SSLv3,
    TLSv1_0,
    TLSv1_1,
    TLSv1_2,
    TLSv1_3,
    Unknown(u16),
}

impl ProtocolVersion {
    /// The number that stands for this value on the wire.
    pub open spec fn wire(self) -> u16 {
        match self {
            ProtocolVersion::SSLv2 => 0x0200u16,
            ProtocolVersion::SSLv3 => 0x0300u16,
            ProtocolVersion::TLSv1_0 => 0x0301u16,
            ProtocolVersion::TLSv1_1 => 0x0302u16,
            ProtocolVersion::TLSv1_2 => 0x0303u16,
            ProtocolVersion::TLSv1_3 => 0x0304u16,
            ProtocolVersion::Unknown(x) => x,
        }
    }

    /// The value that a number on the wire stands for.
    pub open spec fn of_wire(x: u16) -> ProtocolVersion {
        match x {
            0x0200 => ProtocolVersion::SSLv2,
            0x0300 => ProtocolVersion::SSLv3,
            0x0301 => ProtocolVersion::TLSv1_0,
            0x0302 => ProtocolVersion::TLSv1_1,
            0x0303 => ProtocolVersion::TLSv1_2,
            0x0304 => ProtocolVersion::TLSv1_3,
            _ => ProtocolVersion::Unknown(x),
        }
    }

    pub fn get_u16(self) -> (r: u16)
        ensures
            r == self.wire(),
    {
        match self {
            ProtocolVersion::SSLv2 => 0x0200u16,
            ProtocolVersion::SSLv3 => 0x0300u16,
            ProtocolVersion::TLSv1_0 => 0x0301u16,
            ProtocolVersion::TLSv1_1 => 0x0302u16,
            ProtocolVersion::TLSv1_2 => 0x0303u16,
            ProtocolVersion::TLSv1_3 => 0x0304u16,
            ProtocolVersion::Unknown(x) => x,
        }
    }

    pub fn from_u16(x: u16) -> (r: ProtocolVersion)
        ensures
            r == Self::of_wire(x),
    {
        match x {
            0x0200 => ProtocolVersion::SSLv2,
            0x0300 => ProtocolVersion::SSLv3,
            0x0301 => ProtocolVersion::TLSv1_0,
            0x0302 => ProtocolVersion::TLSv1_1,
            0x0303 => ProtocolVersion::TLSv1_2,
            0x0304 => ProtocolVersion::TLSv1_3,
            _ => ProtocolVersion::Unknown(x),
        }
    }

    /// A number read off the wire goes back onto it unchanged.
    pub proof fn wire_round_trip(x: u16)
        ensures
            Self::of_wire(x).wire() == x,
    {
    }
}

impl View for ProtocolVersion {
    type V = ProtocolVersion;

    open spec fn view(&self) -> ProtocolVersion {
        *self
    }
}

impl Codec for ProtocolVersion {
    open spec fn encoding(v: ProtocolVersion) -> Seq<u8> {
        be16(v.wire())
    }

    open spec fn decoding(bytes: Seq<u8>) -> Option<(ProtocolVersion, nat)> {
        match decode_u16(bytes) {
            Some((x, n)) => Some((ProtocolVersion::of_wire(x), n)),
            None => None,
        }
    }

    proof fn decoding_progresses(bytes: Seq<u8>) {
    }

    fn encode(&self, bytes: &mut Vec<u8>) {
        put_u16(self.get_u16(), bytes);
    }

    fn read(rd: &mut Reader) -> (r: Option<ProtocolVersion>) {
        match read_u16(rd) {
            Some(x) => Some(ProtocolVersion::from_u16(x)),
            None => None,
        }
    }
}

/// How severe an alert is.
#[allow(non_camel_case_types)]
#[derive(Clone, Copy, PartialEq, Eq, Structural, Debug)]
pub enum AlertLevel {
    Warning,
    Fatal,
    Unknown(u8),
}

impl AlertLevel {
    /// The number that stands for this value on the wire.
    pub open spec fn wire(self) -> u8 {
        match self {
            AlertLevel::Warning => 0x01u8,
            AlertLevel::Fatal => 0x02u8,
            AlertLevel::Unknown(x) => x,
        }
    }

    /// The value that a number on the wire stands for.
    pub open spec fn of_wire(x: u8) -> AlertLevel {
        match x {
            0x01 => AlertLevel::Warning,
            0x02 => AlertLevel::Fatal,
            _ => AlertLevel::Unknown(x),
        }
    }

    pub fn get_u8(self) -> (r: u8)
        ensures
            r == self.wire(),
    {
        match self {
            AlertLevel::Warning => 0x01u8,
            AlertLevel::Fatal => 0x02u8,
            AlertLevel::Unknown(x) => x,
        }
    }

    pub fn from_u8(x: u8) -> (r: AlertLevel)
        ensures
            r == Self::of_wire(x),
    {
        match x {
            0x01 => AlertLevel::Warning,
            0x02 => AlertLevel::Fatal,
            _ => AlertLevel::Unknown(x),
        }
    }

    /// A number read off the wire goes back onto it unchanged.
    pub proof fn wire_round_trip(x: u8)
        ensures
            Self::of_wire(x).wire() == x,
    {
    }
}

impl View for AlertLevel {
    type V = AlertLevel;

    open spec fn view(&self) -> AlertLevel {
        *self
    }
}

impl Codec for AlertLevel {
    open spec fn encoding(v: AlertLevel) -> Seq<u8> {
        seq![v.wire()]
    }

    open spec fn decoding(bytes: Seq<u8>) -> Option<(AlertLevel, nat)> {
        match decode_u8(bytes) {
            Some((x, n)) => Some((AlertLevel::of_wire(x), n)),
            None => None,
        }
    }

    proof fn decoding_progresses(bytes: Seq<u8>) {
    }

    fn encode(&self, bytes: &mut Vec<u8>) {
        bytes.push(self.get_u8());
    }

    fn read(rd: &mut Reader) -> (r: Option<AlertLevel>) {
        match read_u8(rd) {
            Some(x) => Some(AlertLevel::from_u8(x)),
            None => None,
        }
    }
}

/// What an alert tells the peer.
#[allow(non_camel_case_types)]
#[derive(Clone, Copy, PartialEq, Eq, Structural, Debug)]
pub enum AlertDescription {
    CloseNotify,
    UnexpectedMessage,
    BadRecordMac,
    DecryptionFailed,
    RecordOverflow,
    DecompressionFailure,
    HandshakeFailure,
    NoCertificate,
    BadCertificate,
    UnsupportedCertificate,
    CertificateRevoked,
    CertificateExpired,
    CertificateUnknown,
    IllegalParameter,
    UnknownCA,
    AccessDenied,
    DecodeError,
    DecryptError,
    ExportRestriction,
    ProtocolVersion,
    InsufficientSecurity,
    InternalError,
    InappropriateFallback,
    UserCanceled,
    NoRenegotiation,
    MissingExtension,
    UnsupportedExtension,
    CertificateUnobtainable,
    UnrecognisedName,
    BadCertificateStatusResponse,
    BadCertificateHashValue,
    UnknownPSKIdentity,
    CertificateRequired,
    NoApplicationProtocol,
    Unknown(u8),
}

impl AlertDescription {
    /// The number that stands for this value on the wire.
    pub open spec fn wire(self) -> u8 {
        match self {
            AlertDescription::CloseNotify => 0x00u8,
            AlertDescription::UnexpectedMessage => 0x0au8,
            AlertDescription::BadRecordMac => 0x14u8,
            AlertDescription::DecryptionFailed => 0x15u8,
            AlertDescription::RecordOverflow => 0x16u8,
            AlertDescription::DecompressionFailure => 0x1eu8,
            AlertDescription::HandshakeFailure => 0x28u8,
            AlertDescription::NoCertificate => 0x29u8,
            AlertDescription::BadCertificate => 0x2au8,
            AlertDescription::UnsupportedCertificate => 0x2bu8,
            AlertDescription::CertificateRevoked => 0x2cu8,
            AlertDescription::CertificateExpired => 0x2du8,
            AlertDescription::CertificateUnknown => 0x2eu8,
            AlertDescription::IllegalParameter => 0x2fu8,
            AlertDescription::UnknownCA => 0x30u8,
            AlertDescription::AccessDenied => 0x31u8,
            AlertDescription::DecodeError => 0x32u8,
            AlertDescription::DecryptError => 0x33u8,
            AlertDescription::ExportRestriction => 0x3cu8,
            AlertDescription::ProtocolVersion => 0x46u8,
            AlertDescription::InsufficientSecurity => 0x47u8,
            AlertDescription::InternalError => 0x50u8,
            AlertDescription::InappropriateFallback => 0x56u8,
            AlertDescription::UserCanceled => 0x5au8,
            AlertDescription::NoRenegotiation => 0x64u8,
            AlertDescription::MissingExtension => 0x6du8,
            AlertDescription::UnsupportedExtension => 0x6eu8,
            AlertDescription::CertificateUnobtainable => 0x6fu8,
            AlertDescription::UnrecognisedName => 0x70u8,
            AlertDescription::BadCertificateStatusResponse => 0x71u8,
            AlertDescription::BadCertificateHashValue => 0x72u8,
            AlertDescription::UnknownPSKIdentity => 0x73u8,
            AlertDescription::CertificateRequired => 0x74u8,
            AlertDescription::NoApplicationProtocol => 0x78u8,
            AlertDescription::Unknown(x) => x,
        }
    }

    /// The value that a number on the wire stands for.
    pub open spec fn of_wire(x: u8) -> AlertDescription {
        match x {
            0x00 => AlertDescription::CloseNotify,
            0x0a => AlertDescription::UnexpectedMessage,
            0x14 => AlertDescription::BadRecordMac,
            0x15 => AlertDescription::DecryptionFailed,
            0x16 => AlertDescription::RecordOverflow,
            0x1e => AlertDescription::DecompressionFailure,
            0x28 => AlertDescription::HandshakeFailure,
            0x29 => AlertDescription::NoCertificate,
            0x2a => AlertDescription::BadCertificate,
            0x2b => AlertDescription::UnsupportedCertificate,
            0x2c => AlertDescription::CertificateRevoked,
            0x2d => AlertDescription::CertificateExpired,
            0x2e => AlertDescription::CertificateUnknown,
            0x2f => AlertDescription::IllegalParameter,
            0x30 => AlertDescription::UnknownCA,
            0x31 => AlertDescription::AccessDenied,
            0x32 => AlertDescription::DecodeError,
            0x33 => AlertDescription::DecryptError,
            0x3c => AlertDescription::ExportRestriction,
            0x46 => AlertDescription::ProtocolVersion,
            0x47 => AlertDescription::InsufficientSecurity,
            0x50 => AlertDescription::InternalError,
            0x56 => AlertDescription::InappropriateFallback,
            0x5a => AlertDescription::UserCanceled,
            0x64 => AlertDescription::NoRenegotiation,
            0x6d => AlertDescription::MissingExtension,
            0x6e => AlertDescription::UnsupportedExtension,
            0x6f => AlertDescription::CertificateUnobtainable,
            0x70 => AlertDescription::UnrecognisedName,
            0x71 => AlertDescription::BadCertificateStatusResponse,
            0x72 => AlertDescription::BadCertificateHashValue,
            0x73 => AlertDescription::UnknownPSKIdentity,
            0x74 => AlertDescription::CertificateRequired,
            0x78 => AlertDescription::NoApplicationProtocol,
            _ => AlertDescription::Unknown(x),
        }
    }

    pub fn get_u8(self) -> (r: u8)
        ensures
            r == self.wire(),
    {
        match self {
            AlertDescription::CloseNotify => 0x00u8,
            AlertDescription::UnexpectedMessage => 0x0au8,
            AlertDescription::BadRecordMac => 0x14u8,
            AlertDescription::DecryptionFailed => 0x15u8,
            AlertDescription::RecordOverflow => 0x16u8,
            AlertDescription::DecompressionFailure => 0x1eu8,
            AlertDescription::HandshakeFailure => 0x28u8,
            AlertDescription::NoCertificate => 0x29u8,
            AlertDescription::BadCertificate => 0x2au8,
            AlertDescription::UnsupportedCertificate => 0x2bu8,
            AlertDescription::CertificateRevoked => 0x2cu8,
            AlertDescription::CertificateExpired => 0x2du8,
            AlertDescription::CertificateUnknown => 0x2eu8,
            AlertDescription::IllegalParameter => 0x2fu8,
            AlertDescription::UnknownCA => 0x30u8,
            AlertDescription::AccessDenied => 0x31u8,
            AlertDescription::DecodeError => 0x32u8,
            AlertDescription::DecryptError => 0x33u8,
            AlertDescription::ExportRestriction => 0x3cu8,
            AlertDescription::ProtocolVersion => 0x46u8,
            AlertDescription::InsufficientSecurity => 0x47u8,
            AlertDescription::InternalError => 0x50u8,
            AlertDescription::InappropriateFallback => 0x56u8,
            AlertDescription::UserCanceled => 0x5au8,
            AlertDescription::NoRenegotiation => 0x64u8,
            AlertDescription::MissingExtension => 0x6du8,
            AlertDescription::UnsupportedExtension => 0x6eu8,
            AlertDescription::CertificateUnobtainable => 0x6fu8,
            AlertDescription::UnrecognisedName => 0x70u8,
            AlertDescription::BadCertificateStatusResponse => 0x71u8,
            AlertDescription::BadCertificateHashValue => 0x72u8,
            AlertDescription::UnknownPSKIdentity => 0x73u8,
            AlertDescription::CertificateRequired => 0x74u8,
            AlertDescription::NoApplicationProtocol => 0x78u8,
            AlertDescription::Unknown(x) => x,
        }
    }

    pub fn from_u8(x: u8) -> (r: AlertDescription)
        ensures
            r == Self::of_wire(x),
    {
        match x {
            0x00 => AlertDescription::CloseNotify,
            0x0a => AlertDescription::UnexpectedMessage,
            0x14 => AlertDescription::BadRecordMac,
            0x15 => AlertDescription::DecryptionFailed,
            0x16 => AlertDescription::RecordOverflow,
            0x1e => AlertDescription::DecompressionFailure,
            0x28 => AlertDescription::HandshakeFailure,
            0x29 => AlertDescription::NoCertificate,
            0x2a => AlertDescription::BadCertificate,
            0x2b => AlertDescription::UnsupportedCertificate,
            0x2c => AlertDescription::CertificateRevoked,
            0x2d => AlertDescription::CertificateExpired,
            0x2e => AlertDescription::CertificateUnknown,
            0x2f => AlertDescription::IllegalParameter,
            0x30 => AlertDescription::UnknownCA,
            0x31 => AlertDescription::AccessDenied,
            0x32 => AlertDescription::DecodeError,
            0x33 => AlertDescription::DecryptError,
            0x3c => AlertDescription::ExportRestriction,
            0x46 => AlertDescription::ProtocolVersion,
            0x47 => AlertDescription::InsufficientSecurity,
            0x50 => AlertDescription::InternalError,
            0x56 => AlertDescription::InappropriateFallback,
            0x5a => AlertDescription::UserCanceled,
            0x64 => AlertDescription::NoRenegotiation,
            0x6d => AlertDescription::MissingExtension,
            0x6e => AlertDescription::UnsupportedExtension,
            0x6f => AlertDescription::CertificateUnobtainable,
            0x70 => AlertDescription::UnrecognisedName,
            0x71 => AlertDescription::BadCertificateStatusResponse,
            0x72 => AlertDescription::BadCertificateHashValue,
            0x73 => AlertDescription::UnknownPSKIdentity,
            0x74 => AlertDescription::CertificateRequired,
            0x78 => AlertDescription::NoApplicationProtocol,
            _ => AlertDescription::Unknown(x),
        }
    }

    /// A number read off the wire goes back onto it unchanged.
    pub proof fn wire_round_trip(x: u8)
        ensures
            Self::of_wire(x).wire() == x,
    {
    }
}

impl View for AlertDescription {
    type V = AlertDescription;

    open spec fn view(&self) -> AlertDescription {
        *self
    }
}

impl Codec for AlertDescription {
    open spec fn encoding(v: AlertDescription) -> Seq<u8> {
        seq![v.wire()]
    }

    open spec fn decoding(bytes: Seq<u8>) -> Option<(AlertDescription, nat)> {
        match decode_u8(bytes) {
            Some((x, n)) => Some((AlertDescription::of_wire(x), n)),
            None => None,
        }
    }

    proof fn decoding_progresses(bytes: Seq<u8>) {
    }

    fn encode(&self, bytes: &mut Vec<u8>) {
        bytes.push(self.get_u8());
    }

    fn read(rd: &mut Reader) -> (r: Option<AlertDescription>) {
        match read_u8(rd) {
            Some(x) => Some(AlertDescription::from_u8(x)),
            None => None,
        }
    }
}

/// The kind of a hello, certificate or ticket extension.
#[allow(non_camel_case_types)]
#[derive(Clone, Copy, PartialEq, Eq, Structural, Debug)]
pub enum ExtensionType {
    ServerName,
    MaxFragmentLength,
    ClientCertificateUrl,
    TrustedCAKeys,
    TruncatedHMAC,
    StatusRequest,
    UserMapping,
    ClientAuthz,
    ServerAuthz,
    CertificateType,
    EllipticCurves,
    ECPointFormats,
    SRP,
    SignatureAlgorithms,
    UseSRTP,
    Heartbeat,
    ALProtocolNegotiation,
    SCT,
    Padding,
    ExtendedMasterSecret,
    SessionTicket,
    PreSharedKey,
    EarlyData,
    SupportedVersions,
    Cookie,
    PSKKeyExchangeModes,
    TicketEarlyDataInfo,
    CertificateAuthorities,
    OIDFilters,
    PostHandshakeAuth,
    SignatureAlgorithmsCert,
    KeyShare,
    TransportParameters,
    NextProtocolNegotiation,
    ChannelId,
    RenegotiationInfo,
    Unknown(u16),
}

impl ExtensionType {
    /// The number that stands for this value on the wire.
    pub open spec fn wire(self) -> u16 {
        match self {
            ExtensionType::ServerName => 0x0000u16,
            ExtensionType::MaxFragmentLength => 0x0001u16,
            ExtensionType::ClientCertificateUrl => 0x0002u16,
            ExtensionType::TrustedCAKeys => 0x0003u16,
            ExtensionType::TruncatedHMAC => 0x0004u16,
            ExtensionType::StatusRequest => 0x0005u16,
            ExtensionType::UserMapping => 0x0006u16,
            ExtensionType::ClientAuthz => 0x0007u16,
            ExtensionType::ServerAuthz => 0x0008u16,
            ExtensionType::CertificateType => 0x0009u16,
            ExtensionType::EllipticCurves => 0x000au16,
            ExtensionType::ECPointFormats => 0x000bu16,
            ExtensionType::SRP => 0x000cu16,
            ExtensionType::SignatureAlgorithms => 0x000du16,
            ExtensionType::UseSRTP => 0x000eu16,
            ExtensionType::Heartbeat => 0x000fu16,
            ExtensionType::ALProtocolNegotiation => 0x0010u16,
            ExtensionType::SCT => 0x0012u16,
            ExtensionType::Padding => 0x0015u16,
            ExtensionType::ExtendedMasterSecret => 0x0017u16,
            ExtensionType::SessionTicket => 0x0023u16,
            ExtensionType::PreSharedKey => 0x0029u16,
            ExtensionType::EarlyData => 0x002au16,
            ExtensionType::SupportedVersions => 0x002bu16,
            ExtensionType::Cookie => 0x002cu16,
            ExtensionType::PSKKeyExchangeModes => 0x002du16,
            ExtensionType::TicketEarlyDataInfo => 0x002eu16,
            ExtensionType::CertificateAuthorities => 0x002fu16,
            ExtensionType::OIDFilters => 0x0030u16,
            ExtensionType::PostHandshakeAuth => 0x0031u16,
            ExtensionType::SignatureAlgorithmsCert => 0x0032u16,
            ExtensionType::KeyShare => 0x0033u16,
            ExtensionType::TransportParameters => 0x0039u16,
            ExtensionType::NextProtocolNegotiation => 0x3374u16,
            ExtensionType::ChannelId => 0x754fu16,
            ExtensionType::RenegotiationInfo => 0xff01u16,
            ExtensionType::Unknown(x) => x,
        }
    }

    /// The value that a number on the wire stands for.
    pub open spec fn of_wire(x: u16) -> ExtensionType {
        match x {
            0x0000 => ExtensionType::ServerName,
            0x0001 => ExtensionType::MaxFragmentLength,
            0x0002 => ExtensionType::ClientCertificateUrl,
            0x0003 => ExtensionType::TrustedCAKeys,
            0x0004 => ExtensionType::TruncatedHMAC,
            0x0005 => ExtensionType::StatusRequest,
            0x0006 => ExtensionType::UserMapping,
            0x0007 => ExtensionType::ClientAuthz,
            0x0008 => ExtensionType::ServerAuthz,
            0x0009 => ExtensionType::CertificateType,
            0x000a => ExtensionType::EllipticCurves,
            0x000b => ExtensionType::ECPointFormats,
            0x000c => ExtensionType::SRP,
            0x000d => ExtensionType::SignatureAlgorithms,
            0x000e => ExtensionType::UseSRTP,
            0x000f => ExtensionType::Heartbeat,
            0x0010 => ExtensionType::ALProtocolNegotiation,
            0x0012 => ExtensionType::SCT,
            0x0015 => ExtensionType::Padding,
            0x0017 => ExtensionType::ExtendedMasterSecret,
            0x0023 => ExtensionType::SessionTicket,
            0x0029 => ExtensionType::PreSharedKey,
            0x002a => ExtensionType::EarlyData,
            0x002b => ExtensionType::SupportedVersions,
            0x002c => ExtensionType::Cookie,
            0x002d => ExtensionType::PSKKeyExchangeModes,
            0x002e => ExtensionType::TicketEarlyDataInfo,
            0x002f => ExtensionType::CertificateAuthorities,
            0x0030 => ExtensionType::OIDFilters,
            0x0031 => ExtensionType::PostHandshakeAuth,
            0x0032 => ExtensionType::SignatureAlgorithmsCert,
            0x0033 => ExtensionType::KeyShare,
            0x0039 => ExtensionType::TransportParameters,
            0x3374 => ExtensionType::NextProtocolNegotiation,
            0x754f => ExtensionType::ChannelId,
            0xff01 => ExtensionType::RenegotiationInfo,
            _ => ExtensionType::Unknown(x),
        }
    }

    pub fn get_u16(self) -> (r: u16)
        ensures
            r == self.wire(),
    {
        match self {
            ExtensionType::ServerName => 0x0000u16,
            ExtensionType::MaxFragmentLength => 0x0001u16,
            ExtensionType::ClientCertificateUrl => 0x0002u16,
            ExtensionType::TrustedCAKeys => 0x0003u16,
            ExtensionType::TruncatedHMAC => 0x0004u16,
            ExtensionType::StatusRequest => 0x0005u16,
            ExtensionType::UserMapping => 0x0006u16,
            ExtensionType::ClientAuthz => 0x0007u16,
            ExtensionType::ServerAuthz => 0x0008u16,
            ExtensionType::CertificateType => 0x0009u16,
            ExtensionType::EllipticCurves => 0x000au16,
            ExtensionType::ECPointFormats => 0x000bu16,
            ExtensionType::SRP => 0x000cu16,
            ExtensionType::SignatureAlgorithms => 0x000du16,
            ExtensionType::UseSRTP => 0x000eu16,
            ExtensionType::Heartbeat => 0x000fu16,
            ExtensionType::ALProtocolNegotiation => 0x0010u16,
            ExtensionType::SCT => 0x0012u16,
            ExtensionType::Padding => 0x0015u16,
            ExtensionType::ExtendedMasterSecret => 0x0017u16,
            ExtensionType::SessionTicket => 0x0023u16,
            ExtensionType::PreSharedKey => 0x0029u16,
            ExtensionType::EarlyData => 0x002au16,
            ExtensionType::SupportedVersions => 0x002bu16,
            ExtensionType::Cookie => 0x002cu16,
            ExtensionType::PSKKeyExchangeModes => 0x002du16,
            ExtensionType::TicketEarlyDataInfo => 0x002eu16,
            ExtensionType::CertificateAuthorities => 0x002fu16,
            ExtensionType::OIDFilters => 0x0030u16,
            ExtensionType::PostHandshakeAuth => 0x0031u16,
            ExtensionType::SignatureAlgorithmsCert => 0x0032u16,
            ExtensionType::KeyShare => 0x0033u16,
            ExtensionType::TransportParameters => 0x0039u16,
            ExtensionType::NextProtocolNegotiation => 0x3374u16,
            ExtensionType::ChannelId => 0x754fu16,
            ExtensionType::RenegotiationInfo => 0xff01u16,
            ExtensionType::Unknown(x) => x,
        }
    }

    pub fn from_u16(x: u16) -> (r: ExtensionType)
        ensures
            r == Self::of_wire(x),
    {
        match x {
            0x0000 => ExtensionType::ServerName,
            0x0001 => ExtensionType::MaxFragmentLength,
            0x0002 => ExtensionType::ClientCertificateUrl,
            0x0003 => ExtensionType::TrustedCAKeys,
            0x0004 => ExtensionType::TruncatedHMAC,
            0x0005 => ExtensionType::StatusRequest,
            0x0006 => ExtensionType::UserMapping,
            0x0007 => ExtensionType::ClientAuthz,
            0x0008 => ExtensionType::ServerAuthz,
            0x0009 => ExtensionType::CertificateType,
            0x000a => ExtensionType::EllipticCurves,
            0x000b => ExtensionType::ECPointFormats,
            0x000c => ExtensionType::SRP,
            0x000d => ExtensionType::SignatureAlgorithms,
            0x000e => ExtensionType::UseSRTP,
            0x000f => ExtensionType::Heartbeat,
            0x0010 => ExtensionType::ALProtocolNegotiation,
            0x0012 => ExtensionType::SCT,
            0x0015 => ExtensionType::Padding,
            0x0017 => ExtensionType::ExtendedMasterSecret,
            0x0023 => ExtensionType::SessionTicket,
            0x0029 => ExtensionType::PreSharedKey,
            0x002a => ExtensionType::EarlyData,
            0x002b => ExtensionType::SupportedVersions,
            0x002c => ExtensionType::Cookie,
            0x002d => ExtensionType::PSKKeyExchangeModes,
            0x002e => ExtensionType::TicketEarlyDataInfo,
            0x002f => ExtensionType::CertificateAuthorities,
            0x0030 => ExtensionType::OIDFilters,
            0x0031 => ExtensionType::PostHandshakeAuth,
            0x0032 => ExtensionType::SignatureAlgorithmsCert,
            0x0033 => ExtensionType::KeyShare,
            0x0039 => ExtensionType::TransportParameters,
            0x3374 => ExtensionType::NextProtocolNegotiation,
            0x754f => ExtensionType::ChannelId,
            0xff01 => ExtensionType::RenegotiationInfo,
            _ => ExtensionType::Unknown(x),
        }
    }

    /// A number read off the wire goes back onto it unchanged.
    pub proof fn wire_round_trip(x: u16)
        ensures
            Self::of_wire(x).wire() == x,
    {
    }
}

impl View for ExtensionType {
    type V = ExtensionType;

    open spec fn view(&self) -> ExtensionType {
        *self
    }
}

impl Codec for ExtensionType {
    open spec fn encoding(v: ExtensionType) -> Seq<u8> {
        be16(v.wire())
    }

    open spec fn decoding(bytes: Seq<u8>) -> Option<(ExtensionType, nat)> {
        match decode_u16(bytes) {
            Some((x, n)) => Some((ExtensionType::of_wire(x), n)),
            None => None,
        }
    }

    proof fn decoding_progresses(bytes: Seq<u8>) {
    }

    fn encode(&self, bytes: &mut Vec<u8>) {
        put_u16(self.get_u16(), bytes);
    }

    fn read(rd: &mut Reader) -> (r: Option<ExtensionType>) {
        match read_u16(rd) {
            Some(x) => Some(ExtensionType::from_u16(x)),
            None => None,
        }
    }
}

/// A group for the Diffie-Hellman exchange.
#[allow(non_camel_case_types)]
#[derive(Clone, Copy, PartialEq, Eq, Structural, Debug)]
pub enum NamedGroup {
    secp256r1,
    secp384r1,
    secp521r1,
    X25519,
    X448,
    FFDHE2048,
    FFDHE3072,
    FFDHE4096,
    FFDHE6144,
    FFDHE8192,
    Unknown(u16),
}

impl NamedGroup {
    /// The number that stands for this value on the wire.
    pub open spec fn wire(self) -> u16 {
        match self {
            NamedGroup::secp256r1 => 0x0017u16,
            NamedGroup::secp384r1 => 0x0018u16,
            NamedGroup::secp521r1 => 0x0019u16,
            NamedGroup::X25519 => 0x001du16,
            NamedGroup::X448 => 0x001eu16,
            NamedGroup::FFDHE2048 => 0x0100u16,
            NamedGroup::FFDHE3072 => 0x0101u16,
            NamedGroup::FFDHE4096 => 0x0102u16,
            NamedGroup::FFDHE6144 => 0x0103u16,
            NamedGroup::FFDHE8192 => 0x0104u16,
            NamedGroup::Unknown(x) => x,
        }
    }

    /// The value that a number on the wire stands for.
    pub open spec fn of_wire(x: u16) -> NamedGroup {
        match x {
            0x0017 => NamedGroup::secp256r1,
            0x0018 => NamedGroup::secp384r1,
            0x0019 => NamedGroup::secp521r1,
            0x001d => NamedGroup::X25519,
            0x001e => NamedGroup::X448,
            0x0100 => NamedGroup::FFDHE2048,
            0x0101 => NamedGroup::FFDHE3072,
            0x0102 => NamedGroup::FFDHE4096,
            0x0103 => NamedGroup::FFDHE6144,
            0x0104 => NamedGroup::FFDHE8192,
            _ => NamedGroup::Unknown(x),
        }
    }

    pub fn get_u16(self) -> (r: u16)
        ensures
            r == self.wire(),
    {
        match self {
            NamedGroup::secp256r1 => 0x0017u16,
            NamedGroup::secp384r1 => 0x0018u16,
            NamedGroup::secp521r1 => 0x0019u16,
            NamedGroup::X25519 => 0x001du16,
            NamedGroup::X448 => 0x001eu16,
            NamedGroup::FFDHE2048 => 0x0100u16,
            NamedGroup::FFDHE3072 => 0x0101u16,
            NamedGroup::FFDHE4096 => 0x0102u16,
            NamedGroup::FFDHE6144 => 0x0103u16,
            NamedGroup::FFDHE8192 => 0x0104u16,
            NamedGroup::Unknown(x) => x,
        }
    }

    pub fn from_u16(x: u16) -> (r: NamedGroup)
        ensures
            r == Self::of_wire(x),
    {
        match x {
            0x0017 => NamedGroup::secp256r1,
            0x0018 => NamedGroup::secp384r1,
            0x0019 => NamedGroup::secp521r1,
            0x001d => NamedGroup::X25519,
            0x001e => NamedGroup::X448,
            0x0100 => NamedGroup::FFDHE2048,
            0x0101 => NamedGroup::FFDHE3072,
            0x0102 => NamedGroup::FFDHE4096,
            0x0103 => NamedGroup::FFDHE6144,
            0x0104 => NamedGroup::FFDHE8192,
            _ => NamedGroup::Unknown(x),
        }
    }

    /// A number read off the wire goes back onto it unchanged.
    pub proof fn wire_round_trip(x: u16)
        ensures
            Self::of_wire(x).wire() == x,
    {
    }
}

impl View for NamedGroup {
    type V = NamedGroup;

    open spec fn view(&self) -> NamedGroup {
        *self
    }
}

impl Codec for NamedGroup {
    open spec fn encoding(v: NamedGroup) -> Seq<u8> {
        be16(v.wire())
    }

    open spec fn decoding(bytes: Seq<u8>) -> Option<(NamedGroup, nat)> {
        match decode_u16(bytes) {
            Some((x, n)) => Some((NamedGroup::of_wire(x), n)),
            None => None,
        }
    }

    proof fn decoding_progresses(bytes: Seq<u8>) {
    }

    fn encode(&self, bytes: &mut Vec<u8>) {
        put_u16(self.get_u16(), bytes);
    }

    fn read(rd: &mut Reader) -> (r: Option<NamedGroup>) {
        match read_u16(rd) {
            Some(x) => Some(NamedGroup::from_u16(x)),
            None => None,
        }
    }
}

/// A signature algorithm, with its hash and its curve where it has one.
#[allow(non_camel_case_types)]
#[derive(Clone, Copy, PartialEq, Eq, Structural, Debug)]
pub enum SignatureScheme {
    RSA_PKCS1_SHA1,
    ECDSA_SHA1_Legacy,
    RSA_PKCS1_SHA256,
    ECDSA_NISTP256_SHA256,
    RSA_PKCS1_SHA384,
    ECDSA_NISTP384_SHA384,
    RSA_PKCS1_SHA512,
    ECDSA_NISTP521_SHA512,
    RSA_PSS_SHA256,
    RSA_PSS_SHA384,
    RSA_PSS_SHA512,
    ED25519,
    ED448,
    Unknown(u16),
}

impl SignatureScheme {
    /// The number that stands for this value on the wire.
    pub open spec fn wire(self) -> u16 {
        match self {
            SignatureScheme::RSA_PKCS1_SHA1 => 0x0201u16,
            SignatureScheme::ECDSA_SHA1_Legacy => 0x0203u16,
            SignatureScheme::RSA_PKCS1_SHA256 => 0x0401u16,
            SignatureScheme::ECDSA_NISTP256_SHA256 => 0x0403u16,
            SignatureScheme::RSA_PKCS1_SHA384 => 0x0501u16,
            SignatureScheme::ECDSA_NISTP384_SHA384 => 0x0503u16,
            SignatureScheme::RSA_PKCS1_SHA512 => 0x0601u16,
            SignatureScheme::ECDSA_NISTP521_SHA512 => 0x0603u16,
            SignatureScheme::RSA_PSS_SHA256 => 0x0804u16,
            SignatureScheme::RSA_PSS_SHA384 => 0x0805u16,
            SignatureScheme::RSA_PSS_SHA512 => 0x0806u16,
            SignatureScheme::ED25519 => 0x0807u16,
            SignatureScheme::ED448 => 0x0808u16,
            SignatureScheme::Unknown(x) => x,
        }
    }

    /// The value that a number on the wire stands for.
    pub open spec fn of_wire(x: u16) -> SignatureScheme {
        match x {
            0x0201 => SignatureScheme::RSA_PKCS1_SHA1,
            0x0203 => SignatureScheme::ECDSA_SHA1_Legacy,
            0x0401 => SignatureScheme::RSA_PKCS1_SHA256,
            0x0403 => SignatureScheme::ECDSA_NISTP256_SHA256,
            0x0501 => SignatureScheme::RSA_PKCS1_SHA384,
            0x0503 => SignatureScheme::ECDSA_NISTP384_SHA384,
            0x0601 => SignatureScheme::RSA_PKCS1_SHA512,
            0x0603 => SignatureScheme::ECDSA_NISTP521_SHA512,
            0x0804 => SignatureScheme::RSA_PSS_SHA256,
            0x0805 => SignatureScheme::RSA_PSS_SHA384,
            0x0806 => SignatureScheme::RSA_PSS_SHA512,
            0x0807 => SignatureScheme::ED25519,
            0x0808 => SignatureScheme::ED448,
            _ => SignatureScheme::Unknown(x),
        }
    }

    pub fn get_u16(self) -> (r: u16)
        ensures
            r == self.wire(),
    {
        match self {
            SignatureScheme::RSA_PKCS1_SHA1 => 0x0201u16,
            SignatureScheme::ECDSA_SHA1_Legacy => 0x0203u16,
            SignatureScheme::RSA_PKCS1_SHA256 => 0x0401u16,
            SignatureScheme::ECDSA_NISTP256_SHA256 => 0x0403u16,
            SignatureScheme::RSA_PKCS1_SHA384 => 0x0501u16,
            SignatureScheme::ECDSA_NISTP384_SHA384 => 0x0503u16,
            SignatureScheme::RSA_PKCS1_SHA512 => 0x0601u16,
            SignatureScheme::ECDSA_NISTP521_SHA512 => 0x0603u16,
            SignatureScheme::RSA_PSS_SHA256 => 0x0804u16,
            SignatureScheme::RSA_PSS_SHA384 => 0x0805u16,
            SignatureScheme::RSA_PSS_SHA512 => 0x0806u16,
            SignatureScheme::ED25519 => 0x0807u16,
            SignatureScheme::ED448 => 0x0808u16,
            SignatureScheme::Unknown(x) => x,
        }
    }

    pub fn from_u16(x: u16) -> (r: SignatureScheme)
        ensures
            r == Self::of_wire(x),
    {
        match x {
            0x0201 => SignatureScheme::RSA_PKCS1_SHA1,
            0x0203 => SignatureScheme::ECDSA_SHA1_Legacy,
            0x0401 => SignatureScheme::RSA_PKCS1_SHA256,
            0x0403 => SignatureScheme::ECDSA_NISTP256_SHA256,
            0x0501 => SignatureScheme::RSA_PKCS1_SHA384,
            0x0503 => SignatureScheme::ECDSA_NISTP384_SHA384,
            0x0601 => SignatureScheme::RSA_PKCS1_SHA512,
            0x0603 => SignatureScheme::ECDSA_NISTP521_SHA512,
            0x0804 => SignatureScheme::RSA_PSS_SHA256,
            0x0805 => SignatureScheme::RSA_PSS_SHA384,
            0x0806 => SignatureScheme::RSA_PSS_SHA512,
            0x0807 => SignatureScheme::ED25519,
            0x0808 => SignatureScheme::ED448,
            _ => SignatureScheme::Unknown(x),
        }
    }

    /// A number read off the wire goes back onto it unchanged.
    pub proof fn wire_round_trip(x: u16)
        ensures
            Self::of_wire(x).wire() == x,
    {
    }
}

impl View for SignatureScheme {
    type V = SignatureScheme;

    open spec fn view(&self) -> SignatureScheme {
        *self
    }
}

impl Codec for SignatureScheme {
    open spec fn encoding(v: SignatureScheme) -> Seq<u8> {
        be16(v.wire())
    }

    open spec fn decoding(bytes: Seq<u8>) -> Option<(SignatureScheme, nat)> {
        match decode_u16(bytes) {
            Some((x, n)) => Some((SignatureScheme::of_wire(x), n)),
            None => None,
        }
    }

    proof fn decoding_progresses(bytes: Seq<u8>) {
    }

    fn encode(&self, bytes: &mut Vec<u8>) {
        put_u16(self.get_u16(), bytes);
    }

    fn read(rd: &mut Reader) -> (r: Option<SignatureScheme>) {
        match read_u16(rd) {
            Some(x) => Some(SignatureScheme::from_u16(x)),
            None => None,
        }
    }
}

/// The number of a cipher suite.
#[allow(non_camel_case_types)]
#[derive(Clone, Copy, PartialEq, Eq, Structural, Debug)]
pub enum CipherSuite {
    TLS13_AES_128_GCM_SHA256,
    TLS13_AES_256_GCM_SHA384,
    TLS13_CHACHA20_POLY1305_SHA256,
    TLS_ECDHE_ECDSA_WITH_AES_128_GCM_SHA256,
    TLS_ECDHE_ECDSA_WITH_AES_256_GCM_SHA384,
    TLS_ECDHE_RSA_WITH_AES_128_GCM_SHA256,
    TLS_ECDHE_RSA_WITH_AES_256_GCM_SHA384,
    TLS_ECDHE_RSA_WITH_CHACHA20_POLY1305_SHA256,
    TLS_ECDHE_ECDSA_WITH_CHACHA20_POLY1305_SHA256,
    Unknown(u16),
}

impl CipherSuite {
    /// The number that stands for this value on the wire.
    pub open spec fn wire(self) -> u16 {
        match self {
            CipherSuite::TLS13_AES_128_GCM_SHA256 => 0x1301u16,
            CipherSuite::TLS13_AES_256_GCM_SHA384 => 0x1302u16,
            CipherSuite::TLS13_CHACHA20_POLY1305_SHA256 => 0x1303u16,
            CipherSuite::TLS_ECDHE_ECDSA_WITH_AES_128_GCM_SHA256 => 0xc02bu16,
            CipherSuite::TLS_ECDHE_ECDSA_WITH_AES_256_GCM_SHA384 => 0xc02cu16,
            CipherSuite::TLS_ECDHE_RSA_WITH_AES_128_GCM_SHA256 => 0xc02fu16,
            CipherSuite::TLS_ECDHE_RSA_WITH_AES_256_GCM_SHA384 => 0xc030u16,
            CipherSuite::TLS_ECDHE_RSA_WITH_CHACHA20_POLY1305_SHA256 => 0xcca8u16,
            CipherSuite::TLS_ECDHE_ECDSA_WITH_CHACHA20_POLY1305_SHA256 => 0xcca9u16,
            CipherSuite::Unknown(x) => x,
        }
    }

    /// The value that a number on the wire stands for.
    pub open spec fn of_wire(x: u16) -> CipherSuite {
        match x {
            0x1301 => CipherSuite::TLS13_AES_128_GCM_SHA256,
            0x1302 => CipherSuite::TLS13_AES_256_GCM_SHA384,
            0x1303 => CipherSuite::TLS13_CHACHA20_POLY1305_SHA256,
            0xc02b => CipherSuite::TLS_ECDHE_ECDSA_WITH_AES_128_GCM_SHA256,
            0xc02c => CipherSuite::TLS_ECDHE_ECDSA_WITH_AES_256_GCM_SHA384,
            0xc02f => CipherSuite::TLS_ECDHE_RSA_WITH_AES_128_GCM_SHA256,
            0xc030 => CipherSuite::TLS_ECDHE_RSA_WITH_AES_256_GCM_SHA384,
            0xcca8 => CipherSuite::TLS_ECDHE_RSA_WITH_CHACHA20_POLY1305_SHA256,
            0xcca9 => CipherSuite::TLS_ECDHE_ECDSA_WITH_CHACHA20_POLY1305_SHA256,
            _ => CipherSuite::Unknown(x),
        }
    }

    pub fn get_u16(self) -> (r: u16)
        ensures
            r == self.wire(),
    {
        match self {
            CipherSuite::TLS13_AES_128_GCM_SHA256 => 0x1301u16,
            CipherSuite::TLS13_AES_256_GCM_SHA384 => 0x1302u16,
            CipherSuite::TLS13_CHACHA20_POLY1305_SHA256 => 0x1303u16,
            CipherSuite::TLS_ECDHE_ECDSA_WITH_AES_128_GCM_SHA256 => 0xc02bu16,
            CipherSuite::TLS_ECDHE_ECDSA_WITH_AES_256_GCM_SHA384 => 0xc02cu16,
            CipherSuite::TLS_ECDHE_RSA_WITH_AES_128_GCM_SHA256 => 0xc02fu16,
            CipherSuite::TLS_ECDHE_RSA_WITH_AES_256_GCM_SHA384 => 0xc030u16,
            CipherSuite::TLS_ECDHE_RSA_WITH_CHACHA20_POLY1305_SHA256 => 0xcca8u16,
            CipherSuite::TLS_ECDHE_ECDSA_WITH_CHACHA20_POLY1305_SHA256 => 0xcca9u16,
            CipherSuite::Unknown(x) => x,
        }
    }

    pub fn from_u16(x: u16) -> (r: CipherSuite)
        ensures
            r == Self::of_wire(x),
    {
        match x {
            0x1301 => CipherSuite::TLS13_AES_128_GCM_SHA256,
            0x1302 => CipherSuite::TLS13_AES_256_GCM_SHA384,
            0x1303 => CipherSuite::TLS13_CHACHA20_POLY1305_SHA256,
            0xc02b => CipherSuite::TLS_ECDHE_ECDSA_WITH_AES_128_GCM_SHA256,
            0xc02c => CipherSuite::TLS_ECDHE_ECDSA_WITH_AES_256_GCM_SHA384,
            0xc02f => CipherSuite::TLS_ECDHE_RSA_WITH_AES_128_GCM_SHA256,
            0xc030 => CipherSuite::TLS_ECDHE_RSA_WITH_AES_256_GCM_SHA384,
            0xcca8 => CipherSuite::TLS_ECDHE_RSA_WITH_CHACHA20_POLY1305_SHA256,
            0xcca9 => CipherSuite::TLS_ECDHE_ECDSA_WITH_CHACHA20_POLY1305_SHA256,
            _ => CipherSuite::Unknown(x),
        }
    }

    /// A number read off the wire goes back onto it unchanged.
    pub proof fn wire_round_trip(x: u16)
        ensures
            Self::of_wire(x).wire() == x,
    {
    }
}

impl View for CipherSuite {
    type V = CipherSuite;

    open spec fn view(&self) -> CipherSuite {
        *self
    }
}

impl Codec for CipherSuite {
    open spec fn encoding(v: CipherSuite) -> Seq<u8> {
        be16(v.wire())
    }

    open spec fn decoding(bytes: Seq<u8>) -> Option<(CipherSuite, nat)> {
        match decode_u16(bytes) {
            Some((x, n)) => Some((CipherSuite::of_wire(x), n)),
            None => None,
        }
    }

    proof fn decoding_progresses(bytes: Seq<u8>) {
    }

    fn encode(&self, bytes: &mut Vec<u8>) {
        put_u16(self.get_u16(), bytes);
    }

    fn read(rd: &mut Reader) -> (r: Option<CipherSuite>) {
        match read_u16(rd) {
            Some(x) => Some(CipherSuite::from_u16(x)),
            None => None,
        }
    }
}

/// Whether the sender of a key update wants one in return.
#[allow(non_camel_case_types)]
#[derive(Clone, Copy, PartialEq, Eq, Structural, Debug)]
pub enum KeyUpdateRequest {
    UpdateNotRequested,
    UpdateRequested,
    Unknown(u8),
}

impl KeyUpdateRequest {
    /// The number that stands for this value on the wire.
    pub open spec fn wire(self) -> u8 {
        match self {
            KeyUpdateRequest::UpdateNotRequested => 0x00u8,
            KeyUpdateRequest::UpdateRequested => 0x01u8,
            KeyUpdateRequest::Unknown(x) => x,
        }
    }

    /// The value that a number on the wire stands for.
    pub open spec fn of_wire(x: u8) -> KeyUpdateRequest {
        match x {
            0x00 => KeyUpdateRequest::UpdateNotRequested,
            0x01 => KeyUpdateRequest::UpdateRequested,
            _ => KeyUpdateRequest::Unknown(x),
        }
    }

    pub fn get_u8(self) -> (r: u8)
        ensures
            r == self.wire(),
    {
        match self {
            KeyUpdateRequest::UpdateNotRequested => 0x00u8,
            KeyUpdateRequest::UpdateRequested => 0x01u8,
            KeyUpdateRequest::Unknown(x) => x,
        }
    }

    pub fn from_u8(x: u8) -> (r: KeyUpdateRequest)
        ensures
            r == Self::of_wire(x),
    {
        match x {
            0x00 => KeyUpdateRequest::UpdateNotRequested,
            0x01 => KeyUpdateRequest::UpdateRequested,
            _ => KeyUpdateRequest::Unknown(x),
        }
    }

    /// A number read off the wire goes back onto it unchanged.
    pub proof fn wire_round_trip(x: u8)
        ensures
            Self::of_wire(x).wire() == x,
    {
    }
}

impl View for KeyUpdateRequest {
    type V = KeyUpdateRequest;

    open spec fn view(&self) -> KeyUpdateRequest {
        *self
    }
}

impl Codec for KeyUpdateRequest {
    open spec fn encoding(v: KeyUpdateRequest) -> Seq<u8> {
        seq![v.wire()]
    }

    open spec fn decoding(bytes: Seq<u8>) -> Option<(KeyUpdateRequest, nat)> {
        match decode_u8(bytes) {
            Some((x, n)) => Some((KeyUpdateRequest::of_wire(x), n)),
            None => None,
        }
    }

    proof fn decoding_progresses(bytes: Seq<u8>) {
    }

    fn encode(&self, bytes: &mut Vec<u8>) {
        bytes.push(self.get_u8());
    }

    fn read(rd: &mut Reader) -> (r: Option<KeyUpdateRequest>) {
        match read_u8(rd) {
            Some(x) => Some(KeyUpdateRequest::from_u8(x)),
            None => None,
        }
    }
}

/// A compression method.
#[allow(non_camel_case_types)]
#[derive(Clone, Copy, PartialEq, Eq, Structural, Debug)]
pub enum Compression {
    Null,
    Deflate,
    LSZ,
    Unknown(u8),
}

impl Compression {
    /// The number that stands for this value on the wire.
    pub open spec fn wire(self) -> u8 {
        match self {
            Compression::Null => 0x00u8,
            Compression::Deflate => 0x01u8,
            Compression::LSZ => 0x40u8,
            Compression::Unknown(x) => x,
        }
    }

    /// The value that a number on the wire stands for.
    pub open spec fn of_wire(x: u8) -> Compression {
        match x {
            0x00 => Compression::Null,
            0x01 => Compression::Deflate,
            0x40 => Compression::LSZ,
            _ => Compression::Unknown(x),
        }
    }

    pub fn get_u8(self) -> (r: u8)
        ensures
            r == self.wire(),
    {
        match self {
            Compression::Null => 0x00u8,
            Compression::Deflate => 0x01u8,
            Compression::LSZ => 0x40u8,
            Compression::Unknown(x) => x,
        }
    }

    pub fn from_u8(x: u8) -> (r: Compression)
        ensures
            r == Self::of_wire(x),
    {
        match x {
            0x00 => Compression::Null,
            0x01 => Compression::Deflate,
            0x40 => Compression::LSZ,
            _ => Compression::Unknown(x),
        }
    }

    /// A number read off the wire goes back onto it unchanged.
    pub proof fn wire_round_trip(x: u8)
        ensures
            Self::of_wire(x).wire() == x,
    {
    }
}

impl View for Compression {
    type V = Compression;

    open spec fn view(&self) -> Compression {
        *self
    }
}

impl Codec for Compression {
    open spec fn encoding(v: Compression) -> Seq<u8> {
        seq![v.wire()]
    }

    open spec fn decoding(bytes: Seq<u8>) -> Option<(Compression, nat)> {
        match decode_u8(bytes) {
            Some((x, n)) => Some((Compression::of_wire(x), n)),
            None => None,
        }
    }

    proof fn decoding_progresses(bytes: Seq<u8>) {
    }

    fn encode(&self, bytes: &mut Vec<u8>) {
        bytes.push(self.get_u8());
    }

    fn read(rd: &mut Reader) -> (r: Option<Compression>) {
        match read_u8(rd) {
            Some(x) => Some(Compression::from_u8(x)),
            None => None,
        }
    }
}

} // verus!
