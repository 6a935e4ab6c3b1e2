//! The handshake messages of TLS1.3.

use crate::base::{Payload, PayloadU16, PayloadU8};
use crate::codec::{
    be16, be24, be32, decode_u16, decode_u32, decode_u8, lemma_skip_skip, list_encoding,
    prefixed_u16, prefixed_u24, prefixed_u8, put_prefixed_u24, put_slice, put_u32, put_vec_u16,
    put_vec_u24, put_vec_u8, read_u32, read_vec_u16, read_vec_u24, read_vec_u8, same_bytes,
    sub_prefixed_u24, to_vec, unprefixed_u16, unprefixed_u24, unprefixed_u8, vec_u16_decoding,
    vec_u16_encoding, vec_u24_decoding, vec_u24_encoding, vec_u8_decoding, vec_u8_encoding, views,
    Codec, Reader,
};
use crate::crypto::random_bytes;
use crate::enums::{
    CipherSuite, Compression, ExtensionType, HandshakeType, KeyUpdateRequest, NamedGroup,
    ProtocolVersion, SignatureScheme,
};
use crate::error::TlsError;
use crate::extensions::{
    find_extension, first_of_type, has_duplicate_extension, has_duplicates, whole, CertReqExtension,
    CertReqExtensionView, CertificateExtension, CertificateExtensionView, ClientExtension,
    ClientExtensionView, HelloRetryExtension, HelloRetryExtensionView, KeyShareEntry,
    KeyShareEntryView, NewSessionTicketExtension, NewSessionTicketExtensionView,
    PresharedKeyOfferView, ServerExtension, ServerExtensionView, TypedExtension,
};
use crate::key::Certificate;
use vstd::prelude::*;

verus! {

/// The name that a TLS1.2 session goes by; TLS1.3 only echoes it.
#[derive(Debug, PartialEq, Eq)]
pub struct SessionID {
    pub id: Vec<u8>,
}

impl View for SessionID {
    type V = Seq<u8>;

    open spec fn view(&self) -> Seq<u8> {
        self.id@
    }
}

/// The longest session ID.
pub const MAX_SESSION_ID_LEN: usize = 32;

impl SessionID {
    /// The session ID of no session.
    pub fn empty() -> (r: SessionID)
        ensures
            r@ == Seq::<u8>::empty(),
    {
        SessionID { id: Vec::new() }
    }

    /// A fresh session ID of full length, or the error that there are no random numbers.
    pub fn random() -> (r: Result<SessionID, TlsError>)
        ensures
            r matches Ok(id) ==> id@.len() == MAX_SESSION_ID_LEN,
            r matches Err(err) ==> err is FailedToGetRandomBytes,
    {
        match random_bytes(MAX_SESSION_ID_LEN) {
            Some(id) => Ok(SessionID { id }),
            None => Err(TlsError::FailedToGetRandomBytes),
        }
    }

    /// A copy of the session ID.
    pub fn duplicate(&self) -> (r: SessionID)
        ensures
            r@ == self@,
    {
        SessionID { id: to_vec(self.id.as_slice()) }
    }
}

impl Codec for SessionID {
    open spec fn encoding(v: Seq<u8>) -> Seq<u8> {
        prefixed_u8(v)
    }

    /// A longer one than there can be is malformed.
    open spec fn decoding(bytes: Seq<u8>) -> Option<(Seq<u8>, nat)> {
        match unprefixed_u8(bytes) {
            Some((id, n)) => if id.len() <= MAX_SESSION_ID_LEN {
                Some((id, n))
            } else {
                None
            },
            None => None,
        }
    }

    proof fn decoding_progresses(bytes: Seq<u8>) {
    }

    fn encode(&self, bytes: &mut Vec<u8>) {
        bytes.push(self.id.len() as u8);
        put_slice(self.id.as_slice(), bytes);
        assert(bytes@ =~= old(bytes)@ + Self::encoding(self@));
    }

    fn read(rd: &mut Reader) -> (r: Option<SessionID>) {
        match PayloadU8::read(rd) {
            Some(id) => if id.0.len() <= MAX_SESSION_ID_LEN {
                Some(SessionID { id: id.0 })
            } else {
                None
            },
            None => None,
        }
    }
}

/// The length of a hello's random value.
pub const RANDOM_LEN: usize = 32;

/// The random value of a hello.
#[derive(Debug, PartialEq, Eq)]
pub struct Random(pub Vec<u8>);

impl View for Random {
    type V = Seq<u8>;

    open spec fn view(&self) -> Seq<u8> {
        self.0@
    }
}

impl Codec for Random {
    open spec fn encoding(v: Seq<u8>) -> Seq<u8> {
        v
    }

    open spec fn decoding(bytes: Seq<u8>) -> Option<(Seq<u8>, nat)> {
        if bytes.len() >= RANDOM_LEN {
            Some((bytes.take(RANDOM_LEN as int), RANDOM_LEN as nat))
        } else {
            None
        }
    }

    proof fn decoding_progresses(bytes: Seq<u8>) {
    }

    fn encode(&self, bytes: &mut Vec<u8>) {
        put_slice(self.0.as_slice(), bytes);
    }

    fn read(rd: &mut Reader) -> (r: Option<Random>) {
        match rd.take(RANDOM_LEN) {
            Some(bytes) => Some(Random(to_vec(bytes))),
            None => None,
        }
    }
}

/// The random value that marks a ServerHello as a HelloRetryRequest.
pub open spec fn hello_retry_request_random() -> Seq<u8> {
    seq![
        0xcfu8, 0x21, 0xad, 0x74, 0xe5, 0x9a, 0x61, 0x11, 0xbe, 0x1d, 0x8c, 0x02, 0x1e, 0x65, 0xb8,
        0x91,
        0xc2, 0xa2, 0x11, 0x16, 0x7a, 0xbb, 0x8c, 0x5e, 0x07, 0x9e, 0x09, 0xe2, 0xc8, 0xa8, 0x33,
        0x9c
    ]
}

fn get_hello_retry_request_random() -> (r: Vec<u8>)
    ensures
        r@ == hello_retry_request_random(),
{
    let r: Vec<u8> = vec![
        0xcf, 0x21, 0xad, 0x74, 0xe5, 0x9a, 0x61, 0x11, 0xbe, 0x1d, 0x8c, 0x02, 0x1e, 0x65, 0xb8,
        0x91,
        0xc2, 0xa2, 0x11, 0x16, 0x7a, 0xbb, 0x8c, 0x5e, 0x07, 0x9e, 0x09, 0xe2, 0xc8, 0xa8, 0x33,
        0x9c
    ];
    assert(r@ =~= hello_retry_request_random());
    r
}

/// The client's first message.
#[derive(Debug, PartialEq, Eq)]
pub struct ClientHelloPayload {
    pub client_version: ProtocolVersion,
    pub random: Random,
    pub session_id: SessionID,
    pub cipher_suites: Vec<CipherSuite>,
    pub compression_methods: Vec<Compression>,
    pub extensions: Vec<ClientExtension>,
}

#[verifier::ext_equal]
pub struct ClientHelloView {
    pub client_version: ProtocolVersion,
    pub random: Seq<u8>,
    pub session_id: Seq<u8>,
    pub cipher_suites: Seq<CipherSuite>,
    pub compression_methods: Seq<Compression>,
    pub extensions: Seq<ClientExtensionView>,
}

impl View for ClientHelloPayload {
    type V = ClientHelloView;

    open spec fn view(&self) -> ClientHelloView {
        ClientHelloView {
            client_version: self.client_version,
            random: self.random@,
            session_id: self.session_id@,
            cipher_suites: views(self.cipher_suites@),
            compression_methods: views(self.compression_methods@),
            extensions: views(self.extensions@),
        }
    }
}

impl ClientHelloView {
    /// Everything in front of the extensions.
    pub open spec fn head(self) -> Seq<u8> {
        be16(self.client_version.wire()) + self.random + prefixed_u8(self.session_id)
            + vec_u16_encoding::<CipherSuite>(self.cipher_suites) + vec_u8_encoding::<Compression>(
            self.compression_methods,
        )
    }

    /// The binders of the ticket that is offered by the last extension.
    pub open spec fn binders(self) -> Option<Seq<Seq<u8>>> {
        if self.extensions.len() > 0 {
            match self.extensions.last() {
                ClientExtensionView::PresharedKey(offer) => Some(offer.binders),
                _ => None,
            }
        } else {
            None
        }
    }

    /// The message with other binders in its last extension.
    pub open spec fn with_binders(self, binders: Seq<Seq<u8>>) -> ClientHelloView {
        match self.extensions.last() {
            ClientExtensionView::PresharedKey(offer) => ClientHelloView {
                extensions: self.extensions.update(
                    self.extensions.len() - 1,
                    ClientExtensionView::PresharedKey(PresharedKeyOfferView { binders, ..offer }),
                ),
                ..self
            },
            _ => self,
        }
    }
}

impl Codec for ClientHelloPayload {
    open spec fn encoding(v: ClientHelloView) -> Seq<u8> {
        if v.extensions.len() == 0 {
            v.head()
        } else {
            v.head() + vec_u16_encoding::<ClientExtension>(v.extensions)
        }
    }

    open spec fn decoding(bytes: Seq<u8>) -> Option<(ClientHelloView, nat)> {
        match decode_u16(bytes) {
            Some((version, n1)) => match Random::decoding(bytes.skip(n1 as int)) {
                Some((random, n2)) => match SessionID::decoding(bytes.skip((n1 + n2) as int)) {
                    Some((session_id, n3)) => match vec_u16_decoding::<CipherSuite>(
                        bytes.skip((n1 + n2 + n3) as int),
                    ) {
                        Some((cipher_suites, n4)) => match vec_u8_decoding::<Compression>(
                            bytes.skip((n1 + n2 + n3 + n4) as int),
                        ) {
                            Some((compression_methods, n5)) => {
                                let n = n1 + n2 + n3 + n4 + n5;
                                match trailing_extensions::<ClientExtension>(bytes, n) {
                                    Some((extensions, used)) => Some(
                                        (
                                            ClientHelloView {
                                                client_version: ProtocolVersion::of_wire(version),
                                                random,
                                                session_id,
                                                cipher_suites,
                                                compression_methods,
                                                extensions,
                                            },
                                            used,
                                        ),
                                    ),
                                    None => None,
                                }
                            },
                            None => None,
                        },
                        None => None,
                    },
                    None => None,
                },
                None => None,
            },
            None => None,
        }
    }

    proof fn decoding_progresses(bytes: Seq<u8>) {
    }

    fn encode(&self, bytes: &mut Vec<u8>) {
        self.client_version.encode(bytes);
        self.random.encode(bytes);
        self.session_id.encode(bytes);
        put_vec_u16(&self.cipher_suites, bytes);
        put_vec_u8(&self.compression_methods, bytes);
        assert(bytes@ =~= old(bytes)@ + self@.head());
        if self.extensions.len() != 0 {
            put_vec_u16(&self.extensions, bytes);
        }
        assert(bytes@ =~= old(bytes)@ + Self::encoding(self@));
    }

    fn read(rd: &mut Reader) -> (r: Option<ClientHelloPayload>) {
        broadcast use lemma_skip_skip;

        let client_version: ProtocolVersion = match ProtocolVersion::read(rd) {
            Some(x) => x,
            None => return None,
        };
        let random: Random = match Random::read(rd) {
            Some(x) => x,
            None => return None,
        };
        let session_id: SessionID = match SessionID::read(rd) {
            Some(x) => x,
            None => return None,
        };
        let cipher_suites: Vec<CipherSuite> = match read_vec_u16(rd) {
            Some(x) => x,
            None => return None,
        };
        let compression_methods: Vec<Compression> = match read_vec_u8(rd) {
            Some(x) => x,
            None => return None,
        };
        let extensions: Vec<ClientExtension> = match read_trailing_extensions(rd) {
            Some(x) => x,
            None => return None,
        };
        Some(
            ClientHelloPayload {
                client_version,
                random,
                session_id,
                cipher_suites,
                compression_methods,
                extensions,
            },
        )
    }
}

/// The extensions that follow the first `n` of `bytes`, and what all of it takes up: where
/// nothing follows, there are none.
pub open spec fn trailing_extensions<E: Codec>(bytes: Seq<u8>, n: nat) -> Option<
    (Seq<E::V>, nat),
> {
    if bytes.len() <= n {
        Some((Seq::empty(), n))
    } else {
        match vec_u16_decoding::<E>(bytes.skip(n as int)) {
            Some((extensions, k)) => Some((extensions, n + k)),
            None => None,
        }
    }
}

fn read_trailing_extensions<E: Codec>(rd: &mut Reader) -> (r: Option<Vec<E>>)
    ensures
        match trailing_extensions::<E>(old(rd)@, 0) {
            Some((extensions, n)) => r is Some && views(r->0@) == extensions && final(rd)@ == old(
                rd,
            )@.skip(n as int) && final(rd).spec_used() == old(rd).spec_used() + n,
            None => r is None,
        },
{
    assert(rd@.skip(0) =~= rd@);
    if rd.any_left() {
        read_vec_u16::<E>(rd)
    } else {
        let none: Vec<E> = Vec::new();
        assert(views(none@) =~= Seq::<E::V>::empty());
        Some(none)
    }
}

impl ClientHelloPayload {
    /// Replaces the binder of the ticket that the last extension offers.
    pub fn set_psk_binder(&mut self, binder: &[u8])
        requires
            old(self)@.binders() matches Some(binders) ==> binders.len() > 0,
        ensures
            final(self)@ == match old(self)@.binders() {
                Some(binders) => old(self)@.with_binders(binders.update(0, binder@)),
                None => old(self)@,
            },
    {
        let n: usize = self.extensions.len();
        if n == 0 {
            return;
        }
        let ghost before = self@;
        match self.extensions.pop() {
            Some(ClientExtension::PresharedKey(offer)) => {
                let mut offer = offer;
                let ghost offered = offer@;
                assert(before.extensions.last() == ClientExtensionView::PresharedKey(offered));
                assert(before.binders() == Some(offered.binders));
                offer.binders.set(0, PayloadU8(to_vec(binder)));
                assert(offer@.binders =~= offered.binders.update(0, binder@));
                self.extensions.push(ClientExtension::PresharedKey(offer));
                assert(self@.extensions =~= before.with_binders(
                    offered.binders.update(0, binder@),
                ).extensions);
            },
            Some(other) => {
                self.extensions.push(other);
                assert(self@.extensions =~= before.extensions);
            },
            None => {},
        }
    }
}

/// The server's answer to a ClientHello.
#[derive(Debug, PartialEq, Eq)]
pub struct ServerHelloPayload {
    pub legacy_version: ProtocolVersion,
    pub random: Random,
    pub session_id: SessionID,
    pub cipher_suite: CipherSuite,
    pub compression_method: Compression,
    pub extensions: Vec<ServerExtension>,
}

#[verifier::ext_equal]
pub struct ServerHelloView {
    pub legacy_version: ProtocolVersion,
    pub random: Seq<u8>,
    pub session_id: Seq<u8>,
    pub cipher_suite: CipherSuite,
    pub compression_method: Compression,
    pub extensions: Seq<ServerExtensionView>,
}

impl View for ServerHelloPayload {
    type V = ServerHelloView;

    open spec fn view(&self) -> ServerHelloView {
        ServerHelloView {
            legacy_version: self.legacy_version,
            random: self.random@,
            session_id: self.session_id@,
            cipher_suite: self.cipher_suite,
            compression_method: self.compression_method,
            extensions: views(self.extensions@),
        }
    }
}

impl ServerHelloView {
    /// The server's key share.
    pub open spec fn key_share(self) -> Option<KeyShareEntryView> {
        match first_of_type::<ServerExtension>(self.extensions, ExtensionType::KeyShare) {
            Some(ServerExtensionView::KeyShare(share)) => Some(share),
            _ => None,
        }
    }

    /// Which of the offered tickets the server took.
    pub open spec fn psk_index(self) -> Option<u16> {
        match first_of_type::<ServerExtension>(self.extensions, ExtensionType::PreSharedKey) {
            Some(ServerExtensionView::PresharedKey(index)) => Some(index),
            _ => None,
        }
    }
}

impl ServerHelloPayload {
    pub fn get_key_share(&self) -> (r: Option<&KeyShareEntry>)
        ensures
            match self@.key_share() {
                Some(share) => r is Some && r->0@ == share,
                None => r is None,
            },
    {
        match find_extension(&self.extensions, ExtensionType::KeyShare) {
            Some(ServerExtension::KeyShare(share)) => Some(share),
            _ => None,
        }
    }

    pub fn get_psk_index(&self) -> (r: Option<u16>)
        ensures
            r == self@.psk_index(),
    {
        match find_extension(&self.extensions, ExtensionType::PreSharedKey) {
            Some(ServerExtension::PresharedKey(index)) => Some(*index),
            _ => None,
        }
    }
}

impl Codec for ServerHelloPayload {
    open spec fn encoding(v: ServerHelloView) -> Seq<u8> {
        be16(v.legacy_version.wire()) + v.random + prefixed_u8(v.session_id) + be16(
            v.cipher_suite.wire(),
        ) + seq![v.compression_method.wire()] + vec_u16_encoding::<ServerExtension>(v.extensions)
    }

    open spec fn decoding(bytes: Seq<u8>) -> Option<(ServerHelloView, nat)> {
        match decode_u16(bytes) {
            Some((version, n1)) => match Random::decoding(bytes.skip(n1 as int)) {
                Some((random, n2)) => match SessionID::decoding(bytes.skip((n1 + n2) as int)) {
                    Some((session_id, n3)) => match decode_u16(
                        bytes.skip((n1 + n2 + n3) as int),
                    ) {
                        Some((cipher_suite, n4)) => match decode_u8(
                            bytes.skip((n1 + n2 + n3 + n4) as int),
                        ) {
                            Some((compression_method, n5)) => {
                                let n = n1 + n2 + n3 + n4 + n5;
                                match trailing_extensions::<ServerExtension>(bytes, n) {
                                    Some((extensions, used)) => Some(
                                        (
                                            ServerHelloView {
                                                legacy_version: ProtocolVersion::of_wire(version),
                                                random,
                                                session_id,
                                                cipher_suite: CipherSuite::of_wire(cipher_suite),
                                                compression_method: Compression::of_wire(
                                                    compression_method,
                                                ),
                                                extensions,
                                            },
                                            used,
                                        ),
                                    ),
                                    None => None,
                                }
                            },
                            None => None,
                        },
                        None => None,
                    },
                    None => None,
                },
                None => None,
            },
            None => None,
        }
    }

    proof fn decoding_progresses(bytes: Seq<u8>) {
    }

    fn encode(&self, bytes: &mut Vec<u8>) {
        self.legacy_version.encode(bytes);
        self.random.encode(bytes);
        self.session_id.encode(bytes);
        self.cipher_suite.encode(bytes);
        self.compression_method.encode(bytes);
        put_vec_u16(&self.extensions, bytes);
        assert(bytes@ =~= old(bytes)@ + Self::encoding(self@));
    }

    fn read(rd: &mut Reader) -> (r: Option<ServerHelloPayload>) {
        broadcast use lemma_skip_skip;

        let legacy_version: ProtocolVersion = match ProtocolVersion::read(rd) {
            Some(x) => x,
            None => return None,
        };
        let random: Random = match Random::read(rd) {
            Some(x) => x,
            None => return None,
        };
        let session_id: SessionID = match SessionID::read(rd) {
            Some(x) => x,
            None => return None,
        };
        let cipher_suite: CipherSuite = match CipherSuite::read(rd) {
            Some(x) => x,
            None => return None,
        };
        let compression_method: Compression = match Compression::read(rd) {
            Some(x) => x,
            None => return None,
        };
        let extensions: Vec<ServerExtension> = match read_trailing_extensions(rd) {
            Some(x) => x,
            None => return None,
        };
        Some(
            ServerHelloPayload {
                legacy_version,
                random,
                session_id,
                cipher_suite,
                compression_method,
                extensions,
            },
        )
    }
}

/// The server's request for another ClientHello.
#[derive(Debug, PartialEq, Eq)]
pub struct HelloRetryRequest {
    pub legacy_version: ProtocolVersion,
    pub session_id: SessionID,
    pub cipher_suite: CipherSuite,
    pub extensions: Vec<HelloRetryExtension>,
}

#[verifier::ext_equal]
pub struct HelloRetryRequestView {
    pub legacy_version: ProtocolVersion,
    pub session_id: Seq<u8>,
    pub cipher_suite: CipherSuite,
    pub extensions: Seq<HelloRetryExtensionView>,
}

impl View for HelloRetryRequest {
    type V = HelloRetryRequestView;

    open spec fn view(&self) -> HelloRetryRequestView {
        HelloRetryRequestView {
            legacy_version: self.legacy_version,
            session_id: self.session_id@,
            cipher_suite: self.cipher_suite,
            extensions: views(self.extensions@),
        }
    }
}

impl HelloRetryRequestView {
    /// The group that the server asks a key share for.
    pub open spec fn requested_key_share_group(self) -> Option<NamedGroup> {
        match first_of_type::<HelloRetryExtension>(self.extensions, ExtensionType::KeyShare) {
            Some(HelloRetryExtensionView::KeyShare(group)) => Some(group),
            _ => None,
        }
    }
}

impl HelloRetryRequest {
    pub fn get_requested_key_share_group(&self) -> (r: Option<NamedGroup>)
        ensures
            r == self@.requested_key_share_group(),
    {
        match find_extension(&self.extensions, ExtensionType::KeyShare) {
            Some(HelloRetryExtension::KeyShare(group)) => Some(*group),
            _ => None,
        }
    }
}

impl Codec for HelloRetryRequest {
    open spec fn encoding(v: HelloRetryRequestView) -> Seq<u8> {
        be16(v.legacy_version.wire()) + hello_retry_request_random() + prefixed_u8(v.session_id)
            + be16(v.cipher_suite.wire()) + seq![Compression::Null.wire()] + vec_u16_encoding::<
            HelloRetryExtension,
        >(v.extensions)
    }

    /// The random value must be the one that marks the message, and there must be no
    /// compression.
    open spec fn decoding(bytes: Seq<u8>) -> Option<(HelloRetryRequestView, nat)> {
        match decode_u16(bytes) {
            Some((version, n1)) => match Random::decoding(bytes.skip(n1 as int)) {
                Some((random, n2)) => match SessionID::decoding(bytes.skip((n1 + n2) as int)) {
                    Some((session_id, n3)) => match decode_u16(
                        bytes.skip((n1 + n2 + n3) as int),
                    ) {
                        Some((cipher_suite, n4)) => match decode_u8(
                            bytes.skip((n1 + n2 + n3 + n4) as int),
                        ) {
                            Some((compression_method, n5)) => {
                                let n = n1 + n2 + n3 + n4 + n5;
                                match vec_u16_decoding::<HelloRetryExtension>(bytes.skip(n as int)) {
                                    Some((extensions, n6)) => if random
                                        == hello_retry_request_random() && Compression::of_wire(
                                        compression_method,
                                    ) == Compression::Null {
                                        Some(
                                            (
                                                HelloRetryRequestView {
                                                    legacy_version: ProtocolVersion::of_wire(
                                                        version,
                                                    ),
                                                    session_id,
                                                    cipher_suite: CipherSuite::of_wire(
                                                        cipher_suite,
                                                    ),
                                                    extensions,
                                                },
                                                n + n6,
                                            ),
                                        )
                                    } else {
                                        None
                                    },
                                    None => None,
                                }
                            },
                            None => None,
                        },
                        None => None,
                    },
                    None => None,
                },
                None => None,
            },
            None => None,
        }
    }

    proof fn decoding_progresses(bytes: Seq<u8>) {
    }

    fn encode(&self, bytes: &mut Vec<u8>) {
        self.legacy_version.encode(bytes);
        put_slice(get_hello_retry_request_random().as_slice(), bytes);
        self.session_id.encode(bytes);
        self.cipher_suite.encode(bytes);
        Compression::Null.encode(bytes);
        put_vec_u16(&self.extensions, bytes);
        assert(bytes@ =~= old(bytes)@ + Self::encoding(self@));
    }

    fn read(rd: &mut Reader) -> (r: Option<HelloRetryRequest>) {
        broadcast use lemma_skip_skip;

        let legacy_version: ProtocolVersion = match ProtocolVersion::read(rd) {
            Some(x) => x,
            None => return None,
        };
        let random: Random = match Random::read(rd) {
            Some(x) => x,
            None => return None,
        };
        let session_id: SessionID = match SessionID::read(rd) {
            Some(x) => x,
            None => return None,
        };
        let cipher_suite: CipherSuite = match CipherSuite::read(rd) {
            Some(x) => x,
            None => return None,
        };
        let compression_method: Compression = match Compression::read(rd) {
            Some(x) => x,
            None => return None,
        };
        let extensions: Vec<HelloRetryExtension> = match read_vec_u16(rd) {
            Some(x) => x,
            None => return None,
        };
        let marked: bool = same_bytes(
            random.0.as_slice(),
            get_hello_retry_request_random().as_slice(),
        );
        if marked && compression_method == Compression::Null {
            Some(HelloRetryRequest { legacy_version, session_id, cipher_suite, extensions })
        } else {
            None
        }
    }
}

/// The application protocol that the server chose.
pub open spec fn alpn_protocol(exts: Seq<ServerExtensionView>) -> Option<Seq<u8>> {
    match first_of_type::<ServerExtension>(exts, ExtensionType::ALProtocolNegotiation) {
        Some(ServerExtensionView::Protocols(protos)) => if protos.len() == 1 {
            Some(protos[0])
        } else {
            None
        },
        _ => None,
    }
}

/// The server's QUIC transport parameters.
pub open spec fn quic_params(exts: Seq<ServerExtensionView>) -> Option<Seq<u8>> {
    match first_of_type::<ServerExtension>(exts, ExtensionType::TransportParameters) {
        Some(ServerExtensionView::TransportParameters(params)) => Some(params),
        _ => None,
    }
}

/// Whether the server takes early data.
pub open spec fn early_data_offered(exts: Seq<ServerExtensionView>) -> bool {
    first_of_type::<ServerExtension>(exts, ExtensionType::EarlyData) is Some
}

pub fn get_alpn_protocol(exts: &Vec<ServerExtension>) -> (r: Option<&PayloadU8>)
    ensures
        match alpn_protocol(views(exts@)) {
            Some(proto) => r is Some && r->0@ == proto,
            None => r is None,
        },
{
    match find_extension(exts, ExtensionType::ALProtocolNegotiation) {
        Some(ServerExtension::Protocols(protos)) => if protos.len() == 1 {
            Some(&protos[0])
        } else {
            None
        },
        _ => None,
    }
}

pub fn get_quic_params_extension(exts: &Vec<ServerExtension>) -> (r: Option<Vec<u8>>)
    ensures
        match quic_params(views(exts@)) {
            Some(params) => r is Some && r->0@ == params,
            None => r is None,
        },
{
    match find_extension(exts, ExtensionType::TransportParameters) {
        Some(ServerExtension::TransportParameters(params)) => Some(to_vec(params.as_slice())),
        _ => None,
    }
}

pub fn early_data_extension_offered(exts: &Vec<ServerExtension>) -> (r: bool)
    ensures
        r == early_data_offered(views(exts@)),
{
    find_extension(exts, ExtensionType::EarlyData).is_some()
}

/// A certificate, with what the peer adds to it.
#[derive(Debug, PartialEq, Eq)]
pub struct CertificateEntry {
    pub cert: Certificate,
    pub exts: Vec<CertificateExtension>,
}

#[verifier::ext_equal]
pub struct CertificateEntryView {
    pub cert: Seq<u8>,
    pub exts: Seq<CertificateExtensionView>,
}

impl View for CertificateEntry {
    type V = CertificateEntryView;

    open spec fn view(&self) -> CertificateEntryView {
        CertificateEntryView { cert: self.cert@, exts: views(self.exts@) }
    }
}

impl CertificateEntryView {
    /// Whether there is an extension other than an OCSP response and a list of SCTs.
    pub open spec fn has_unknown_extension(self) -> bool {
        exists|i: int|
            0 <= i < self.exts.len() && (#[trigger] self.exts[i]).typ()
                != ExtensionType::StatusRequest && self.exts[i].typ() != ExtensionType::SCT
    }

    pub open spec fn ocsp_response(self) -> Option<Seq<u8>> {
        match first_of_type::<CertificateExtension>(self.exts, ExtensionType::StatusRequest) {
            Some(CertificateExtensionView::CertificateStatus(ocsp)) => Some(ocsp),
            _ => None,
        }
    }

    pub open spec fn scts(self) -> Option<Seq<Seq<u8>>> {
        match first_of_type::<CertificateExtension>(self.exts, ExtensionType::SCT) {
            Some(CertificateExtensionView::SignedCertificateTimestamp(scts)) => Some(scts),
            _ => None,
        }
    }
}

impl CertificateEntry {
    /// An entry with nothing added.
    pub fn new(cert: Certificate) -> (r: CertificateEntry)
        ensures
            r@ == (CertificateEntryView { cert: cert@, exts: Seq::empty() }),
    {
        let r = CertificateEntry { cert, exts: Vec::new() };
        assert(r@.exts =~= Seq::<CertificateExtensionView>::empty());
        r
    }

    pub fn has_unknown_extension(&self) -> (r: bool)
        ensures
            r == self@.has_unknown_extension(),
    {
        let mut i: usize = 0;
        while i < self.exts.len()
            invariant
                i <= self.exts@.len(),
                forall|j: int|
                    0 <= j < i ==> (#[trigger] self@.exts[j]).typ() == ExtensionType::StatusRequest
                        || self@.exts[j].typ() == ExtensionType::SCT,
            decreases self.exts@.len() - i,
        {
            let typ: ExtensionType = self.exts[i].get_type();
            assert(self@.exts[i as int] == self.exts@[i as int]@);
            if typ != ExtensionType::StatusRequest && typ != ExtensionType::SCT {
                return true;
            }
            i += 1;
        }
        false
    }

    pub fn get_ocsp_response(&self) -> (r: Option<&Vec<u8>>)
        ensures
            match self@.ocsp_response() {
                Some(ocsp) => r is Some && r->0@ == ocsp,
                None => r is None,
            },
    {
        match find_extension(&self.exts, ExtensionType::StatusRequest) {
            Some(CertificateExtension::CertificateStatus(ocsp)) => Some(ocsp),
            _ => None,
        }
    }

    pub fn get_scts(&self) -> (r: Option<&Vec<PayloadU16>>)
        ensures
            match self@.scts() {
                Some(scts) => r is Some && views(r->0@) == scts,
                None => r is None,
            },
    {
        match find_extension(&self.exts, ExtensionType::SCT) {
            Some(CertificateExtension::SignedCertificateTimestamp(scts)) => Some(scts),
            _ => None,
        }
    }
}

impl Codec for CertificateEntry {
    open spec fn encoding(v: CertificateEntryView) -> Seq<u8> {
        prefixed_u24(v.cert) + vec_u16_encoding::<CertificateExtension>(v.exts)
    }

    open spec fn decoding(bytes: Seq<u8>) -> Option<(CertificateEntryView, nat)> {
        match unprefixed_u24(bytes) {
            Some((cert, n)) => match vec_u16_decoding::<CertificateExtension>(bytes.skip(n as int)) {
                Some((exts, k)) => Some((CertificateEntryView { cert, exts }, n + k)),
                None => None,
            },
            None => None,
        }
    }

    proof fn decoding_progresses(bytes: Seq<u8>) {
    }

    fn encode(&self, bytes: &mut Vec<u8>) {
        self.cert.encode(bytes);
        put_vec_u16(&self.exts, bytes);
        assert(bytes@ =~= old(bytes)@ + Self::encoding(self@));
    }

    fn read(rd: &mut Reader) -> (r: Option<CertificateEntry>) {
        broadcast use lemma_skip_skip;

        let cert: Certificate = match Certificate::read(rd) {
            Some(x) => x,
            None => return None,
        };
        match read_vec_u16::<CertificateExtension>(rd) {
            Some(exts) => Some(CertificateEntry { cert, exts }),
            None => None,
        }
    }
}

/// A certificate chain.
#[derive(Debug, PartialEq, Eq)]
pub struct CertificatePayloadTLS13 {
    pub context: PayloadU8,
    pub entries: Vec<CertificateEntry>,
}

#[verifier::ext_equal]
pub struct CertificatePayloadView {
    pub context: Seq<u8>,
    pub entries: Seq<CertificateEntryView>,
}

impl View for CertificatePayloadTLS13 {
    type V = CertificatePayloadView;

    open spec fn view(&self) -> CertificatePayloadView {
        CertificatePayloadView { context: self.context@, entries: views(self.entries@) }
    }
}

impl CertificatePayloadView {
    pub open spec fn any_entry_has_duplicate_extension(self) -> bool {
        exists|i: int|
            0 <= i < self.entries.len() && has_duplicates::<CertificateExtension>(
                (#[trigger] self.entries[i]).exts,
            )
    }

    pub open spec fn any_entry_has_unknown_extension(self) -> bool {
        exists|i: int|
            0 <= i < self.entries.len() && (#[trigger] self.entries[i]).has_unknown_extension()
    }

    /// The certificates alone.
    pub open spec fn chain(self) -> Seq<Seq<u8>> {
        self.entries.map_values(|entry: CertificateEntryView| entry.cert)
    }

    /// The OCSP response for the end entity; empty where there is none.
    pub open spec fn end_entity_ocsp(self) -> Seq<u8> {
        if self.entries.len() == 0 {
            Seq::empty()
        } else {
            match self.entries[0].ocsp_response() {
                Some(ocsp) => ocsp,
                None => Seq::empty(),
            }
        }
    }

    pub open spec fn end_entity_scts(self) -> Option<Seq<Seq<u8>>> {
        if self.entries.len() == 0 {
            None
        } else {
            self.entries[0].scts()
        }
    }
}

impl CertificatePayloadTLS13 {
    pub fn any_entry_has_duplicate_extension(&self) -> (r: bool)
        ensures
            r == self@.any_entry_has_duplicate_extension(),
    {
        let mut i: usize = 0;
        while i < self.entries.len()
            invariant
                i <= self.entries@.len(),
                forall|j: int|
                    0 <= j < i ==> !has_duplicates::<CertificateExtension>(
                        (#[trigger] self@.entries[j]).exts,
                    ),
            decreases self.entries@.len() - i,
        {
            assert(self@.entries[i as int] == self.entries@[i as int]@);
            if has_duplicate_extension(&self.entries[i].exts) {
                return true;
            }
            i += 1;
        }
        false
    }

    pub fn any_entry_has_unknown_extension(&self) -> (r: bool)
        ensures
            r == self@.any_entry_has_unknown_extension(),
    {
        let mut i: usize = 0;
        while i < self.entries.len()
            invariant
                i <= self.entries@.len(),
                forall|j: int|
                    0 <= j < i ==> !(#[trigger] self@.entries[j]).has_unknown_extension(),
            decreases self.entries@.len() - i,
        {
            assert(self@.entries[i as int] == self.entries@[i as int]@);
            if self.entries[i].has_unknown_extension() {
                return true;
            }
            i += 1;
        }
        false
    }

    /// The certificates alone.
    pub fn convert(&self) -> (r: Vec<Certificate>)
        ensures
            views(r@) == self@.chain(),
    {
        let mut r: Vec<Certificate> = Vec::new();
        let mut i: usize = 0;
        while i < self.entries.len()
            invariant
                i <= self.entries@.len(),
                views(r@) == self@.chain().take(i as int),
            decreases self.entries@.len() - i,
        {
            let ghost before = r@;
            r.push(self.entries[i].cert.duplicate());
            assert(views(r@) =~= views(before).push(self.entries@[i as int]@.cert));
            assert(self@.chain().take(i + 1) =~= self@.chain().take(i as int).push(
                self.entries@[i as int]@.cert,
            ));
            i += 1;
        }
        assert(self@.chain().take(i as int) =~= self@.chain());
        r
    }

    pub fn get_end_entity_ocsp(&self) -> (r: Vec<u8>)
        ensures
            r@ == self@.end_entity_ocsp(),
    {
        if self.entries.len() == 0 {
            return Vec::new();
        }
        assert(self@.entries[0] == self.entries@[0]@);
        match self.entries[0].get_ocsp_response() {
            Some(ocsp) => to_vec(ocsp.as_slice()),
            None => Vec::new(),
        }
    }

    pub fn get_end_entity_scts(&self) -> (r: Option<Vec<PayloadU16>>)
        ensures
            match self@.end_entity_scts() {
                Some(scts) => r is Some && views(r->0@) == scts,
                None => r is None,
            },
    {
        if self.entries.len() == 0 {
            return None;
        }
        assert(self@.entries[0] == self.entries@[0]@);
        match self.entries[0].get_scts() {
            Some(scts) => Some(duplicate_payloads(scts)),
            None => None,
        }
    }
}

/// A copy of a list of byte strings.
pub fn duplicate_payloads(items: &Vec<PayloadU16>) -> (r: Vec<PayloadU16>)
    ensures
        views(r@) == views(items@),
{
    let mut r: Vec<PayloadU16> = Vec::new();
    let mut i: usize = 0;
    while i < items.len()
        invariant
            i <= items@.len(),
            views(r@) == views(items@).take(i as int),
        decreases items@.len() - i,
    {
        let ghost before = r@;
        r.push(PayloadU16(to_vec(items[i].0.as_slice())));
        assert(views(r@) =~= views(before).push(items@[i as int]@));
        assert(views(items@).take(i + 1) =~= views(items@).take(i as int).push(items@[i as int]@));
        i += 1;
    }
    assert(views(items@).take(i as int) =~= views(items@));
    r
}

impl Codec for CertificatePayloadTLS13 {
    open spec fn encoding(v: CertificatePayloadView) -> Seq<u8> {
        prefixed_u8(v.context) + vec_u24_encoding::<CertificateEntry>(v.entries)
    }

    open spec fn decoding(bytes: Seq<u8>) -> Option<(CertificatePayloadView, nat)> {
        match unprefixed_u8(bytes) {
            Some((context, n)) => match vec_u24_decoding::<CertificateEntry>(bytes.skip(n as int)) {
                Some((entries, k)) => Some((CertificatePayloadView { context, entries }, n + k)),
                None => None,
            },
            None => None,
        }
    }

    proof fn decoding_progresses(bytes: Seq<u8>) {
    }

    fn encode(&self, bytes: &mut Vec<u8>) {
        self.context.encode(bytes);
        put_vec_u24(&self.entries, bytes);
        assert(bytes@ =~= old(bytes)@ + Self::encoding(self@));
    }

    fn read(rd: &mut Reader) -> (r: Option<CertificatePayloadTLS13>) {
        broadcast use lemma_skip_skip;

        let context: PayloadU8 = match PayloadU8::read(rd) {
            Some(x) => x,
            None => return None,
        };
        match read_vec_u24::<CertificateEntry>(rd) {
            Some(entries) => Some(CertificatePayloadTLS13 { context, entries }),
            None => None,
        }
    }
}

/// The server's request for a client certificate.
#[derive(Debug, PartialEq, Eq)]
pub struct CertificateRequestPayloadTLS13 {
    pub context: PayloadU8,
    pub extensions: Vec<CertReqExtension>,
}

#[verifier::ext_equal]
pub struct CertificateRequestView {
    pub context: Seq<u8>,
    pub extensions: Seq<CertReqExtensionView>,
}

impl View for CertificateRequestPayloadTLS13 {
    type V = CertificateRequestView;

    open spec fn view(&self) -> CertificateRequestView {
        CertificateRequestView { context: self.context@, extensions: views(self.extensions@) }
    }
}

impl CertificateRequestView {
    pub open spec fn sigalgs(self) -> Option<Seq<SignatureScheme>> {
        match first_of_type::<CertReqExtension>(
            self.extensions,
            ExtensionType::SignatureAlgorithms,
        ) {
            Some(CertReqExtensionView::SignatureAlgorithms(schemes)) => Some(schemes),
            _ => None,
        }
    }

    pub open spec fn authorities(self) -> Option<Seq<Seq<u8>>> {
        match first_of_type::<CertReqExtension>(
            self.extensions,
            ExtensionType::CertificateAuthorities,
        ) {
            Some(CertReqExtensionView::AuthorityNames(names)) => Some(names),
            _ => None,
        }
    }
}

impl CertificateRequestPayloadTLS13 {
    pub fn get_sigalgs_extension(&self) -> (r: Option<&Vec<SignatureScheme>>)
        ensures
            match self@.sigalgs() {
                Some(schemes) => r is Some && r->0@ == schemes,
                None => r is None,
            },
    {
        match find_extension(&self.extensions, ExtensionType::SignatureAlgorithms) {
            Some(CertReqExtension::SignatureAlgorithms(schemes)) => Some(schemes),
            _ => None,
        }
    }

    pub fn get_authorities_extension(&self) -> (r: Option<&Vec<PayloadU16>>)
        ensures
            match self@.authorities() {
                Some(names) => r is Some && views(r->0@) == names,
                None => r is None,
            },
    {
        match find_extension(&self.extensions, ExtensionType::CertificateAuthorities) {
            Some(CertReqExtension::AuthorityNames(names)) => Some(names),
            _ => None,
        }
    }
}

impl Codec for CertificateRequestPayloadTLS13 {
    open spec fn encoding(v: CertificateRequestView) -> Seq<u8> {
        prefixed_u8(v.context) + vec_u16_encoding::<CertReqExtension>(v.extensions)
    }

    open spec fn decoding(bytes: Seq<u8>) -> Option<(CertificateRequestView, nat)> {
        match unprefixed_u8(bytes) {
            Some((context, n)) => match vec_u16_decoding::<CertReqExtension>(bytes.skip(n as int)) {
                Some((extensions, k)) => Some(
                    (CertificateRequestView { context, extensions }, n + k),
                ),
                None => None,
            },
            None => None,
        }
    }

    proof fn decoding_progresses(bytes: Seq<u8>) {
    }

    fn encode(&self, bytes: &mut Vec<u8>) {
        self.context.encode(bytes);
        put_vec_u16(&self.extensions, bytes);
        assert(bytes@ =~= old(bytes)@ + Self::encoding(self@));
    }

    fn read(rd: &mut Reader) -> (r: Option<CertificateRequestPayloadTLS13>) {
        broadcast use lemma_skip_skip;

        let context: PayloadU8 = match PayloadU8::read(rd) {
            Some(x) => x,
            None => return None,
        };
        match read_vec_u16::<CertReqExtension>(rd) {
            Some(extensions) => Some(CertificateRequestPayloadTLS13 { context, extensions }),
            None => None,
        }
    }
}

/// A signature, with the scheme it was made by.
#[derive(Debug, PartialEq, Eq)]
pub struct DigitallySignedStruct {
    pub scheme: SignatureScheme,
    pub sig: PayloadU16,
}

#[verifier::ext_equal]
pub struct DigitallySignedView {
    pub scheme: SignatureScheme,
    pub sig: Seq<u8>,
}

impl View for DigitallySignedStruct {
    type V = DigitallySignedView;

    open spec fn view(&self) -> DigitallySignedView {
        DigitallySignedView { scheme: self.scheme, sig: self.sig@ }
    }
}

impl DigitallySignedStruct {
    pub fn new(scheme: SignatureScheme, sig: Vec<u8>) -> (r: DigitallySignedStruct)
        ensures
            r@ == (DigitallySignedView { scheme, sig: sig@ }),
    {
        DigitallySignedStruct { scheme, sig: PayloadU16::new(sig) }
    }
}

impl Codec for DigitallySignedStruct {
    open spec fn encoding(v: DigitallySignedView) -> Seq<u8> {
        be16(v.scheme.wire()) + prefixed_u16(v.sig)
    }

    open spec fn decoding(bytes: Seq<u8>) -> Option<(DigitallySignedView, nat)> {
        match decode_u16(bytes) {
            Some((scheme, n)) => match unprefixed_u16(bytes.skip(n as int)) {
                Some((sig, k)) => Some(
                    (DigitallySignedView { scheme: SignatureScheme::of_wire(scheme), sig }, n + k),
                ),
                None => None,
            },
            None => None,
        }
    }

    proof fn decoding_progresses(bytes: Seq<u8>) {
    }

    fn encode(&self, bytes: &mut Vec<u8>) {
        self.scheme.encode(bytes);
        self.sig.encode(bytes);
        assert(bytes@ =~= old(bytes)@ + Self::encoding(self@));
    }

    fn read(rd: &mut Reader) -> (r: Option<DigitallySignedStruct>) {
        broadcast use lemma_skip_skip;

        let scheme: SignatureScheme = match SignatureScheme::read(rd) {
            Some(x) => x,
            None => return None,
        };
        match PayloadU16::read(rd) {
            Some(sig) => Some(DigitallySignedStruct { scheme, sig }),
            None => None,
        }
    }
}

/// A ticket to resume the session with.
#[derive(Debug, PartialEq, Eq)]
pub struct NewSessionTicketPayloadTLS13 {
    pub lifetime: u32,
    pub age_add: u32,
    pub nonce: PayloadU8,
    pub ticket: PayloadU16,
    pub exts: Vec<NewSessionTicketExtension>,
}

#[verifier::ext_equal]
pub struct NewSessionTicketView {
    pub lifetime: u32,
    pub age_add: u32,
    pub nonce: Seq<u8>,
    pub ticket: Seq<u8>,
    pub exts: Seq<NewSessionTicketExtensionView>,
}

impl View for NewSessionTicketPayloadTLS13 {
    type V = NewSessionTicketView;

    open spec fn view(&self) -> NewSessionTicketView {
        NewSessionTicketView {
            lifetime: self.lifetime,
            age_add: self.age_add,
            nonce: self.nonce@,
            ticket: self.ticket@,
            exts: views(self.exts@),
        }
    }
}

impl NewSessionTicketView {
    /// How much early data the server takes with this ticket, if it says so.
    pub open spec fn max_early_data_size(self) -> Option<u32> {
        match first_of_type::<NewSessionTicketExtension>(self.exts, ExtensionType::EarlyData) {
            Some(NewSessionTicketExtensionView::EarlyData(size)) => Some(size),
            _ => None,
        }
    }
}

impl NewSessionTicketPayloadTLS13 {
    pub fn get_max_early_data_size(&self) -> (r: Option<u32>)
        ensures
            r == self@.max_early_data_size(),
    {
        match find_extension(&self.exts, ExtensionType::EarlyData) {
            Some(NewSessionTicketExtension::EarlyData(size)) => Some(*size),
            _ => None,
        }
    }
}

impl Codec for NewSessionTicketPayloadTLS13 {
    open spec fn encoding(v: NewSessionTicketView) -> Seq<u8> {
        be32(v.lifetime) + be32(v.age_add) + prefixed_u8(v.nonce) + prefixed_u16(v.ticket)
            + vec_u16_encoding::<NewSessionTicketExtension>(v.exts)
    }

    open spec fn decoding(bytes: Seq<u8>) -> Option<(NewSessionTicketView, nat)> {
        match decode_u32(bytes) {
            Some((lifetime, n1)) => match decode_u32(bytes.skip(n1 as int)) {
                Some((age_add, n2)) => match unprefixed_u8(bytes.skip((n1 + n2) as int)) {
                    Some((nonce, n3)) => match unprefixed_u16(bytes.skip((n1 + n2 + n3) as int)) {
                        Some((ticket, n4)) => match vec_u16_decoding::<NewSessionTicketExtension>(
                            bytes.skip((n1 + n2 + n3 + n4) as int),
                        ) {
                            Some((exts, n5)) => Some(
                                (
                                    NewSessionTicketView { lifetime, age_add, nonce, ticket, exts },
                                    n1 + n2 + n3 + n4 + n5,
                                ),
                            ),
                            None => None,
                        },
                        None => None,
                    },
                    None => None,
                },
                None => None,
            },
            None => None,
        }
    }

    proof fn decoding_progresses(bytes: Seq<u8>) {
    }

    fn encode(&self, bytes: &mut Vec<u8>) {
        put_u32(self.lifetime, bytes);
        put_u32(self.age_add, bytes);
        self.nonce.encode(bytes);
        self.ticket.encode(bytes);
        put_vec_u16(&self.exts, bytes);
        assert(bytes@ =~= old(bytes)@ + Self::encoding(self@));
    }

    fn read(rd: &mut Reader) -> (r: Option<NewSessionTicketPayloadTLS13>) {
        broadcast use lemma_skip_skip;

        let lifetime: u32 = match read_u32(rd) {
            Some(x) => x,
            None => return None,
        };
        let age_add: u32 = match read_u32(rd) {
            Some(x) => x,
            None => return None,
        };
        let nonce: PayloadU8 = match PayloadU8::read(rd) {
            Some(x) => x,
            None => return None,
        };
        let ticket: PayloadU16 = match PayloadU16::read(rd) {
            Some(x) => x,
            None => return None,
        };
        match read_vec_u16::<NewSessionTicketExtension>(rd) {
            Some(exts) => Some(
                NewSessionTicketPayloadTLS13 { lifetime, age_add, nonce, ticket, exts },
            ),
            None => None,
        }
    }
}

/// What a handshake message carries. A message whose layout TLS1.3 does not fix is kept as
/// it came.
#[derive(Debug, PartialEq, Eq)]
pub enum HandshakePayload {
    ClientHello(ClientHelloPayload),
    ServerHello(ServerHelloPayload),
    HelloRetryRequest(HelloRetryRequest),
    EncryptedExtensions(Vec<ServerExtension>),
    CertificateTLS13(CertificatePayloadTLS13),
    CertificateRequestTLS13(CertificateRequestPayloadTLS13),
    CertificateVerify(DigitallySignedStruct),
    Finished(Payload),
    EndOfEarlyData,
    NewSessionTicketTLS13(NewSessionTicketPayloadTLS13),
    KeyUpdate(KeyUpdateRequest),
    Unknown(Payload),
}

#[verifier::ext_equal]
pub enum HandshakePayloadView {
    ClientHello(ClientHelloView),
    ServerHello(ServerHelloView),
    HelloRetryRequest(HelloRetryRequestView),
    EncryptedExtensions(Seq<ServerExtensionView>),
    CertificateTLS13(CertificatePayloadView),
    CertificateRequestTLS13(CertificateRequestView),
    CertificateVerify(DigitallySignedView),
    Finished(Seq<u8>),
    EndOfEarlyData,
    NewSessionTicketTLS13(NewSessionTicketView),
    KeyUpdate(KeyUpdateRequest),
    Unknown(Seq<u8>),
}

impl View for HandshakePayload {
    type V = HandshakePayloadView;

    open spec fn view(&self) -> HandshakePayloadView {
        match *self {
            HandshakePayload::ClientHello(x) => HandshakePayloadView::ClientHello(x@),
            HandshakePayload::ServerHello(x) => HandshakePayloadView::ServerHello(x@),
            HandshakePayload::HelloRetryRequest(x) => HandshakePayloadView::HelloRetryRequest(x@),
            HandshakePayload::EncryptedExtensions(x) => HandshakePayloadView::EncryptedExtensions(
                views(x@),
            ),
            HandshakePayload::CertificateTLS13(x) => HandshakePayloadView::CertificateTLS13(x@),
            HandshakePayload::CertificateRequestTLS13(x) =>
                HandshakePayloadView::CertificateRequestTLS13(x@),
            HandshakePayload::CertificateVerify(x) => HandshakePayloadView::CertificateVerify(x@),
            HandshakePayload::Finished(x) => HandshakePayloadView::Finished(x@),
            HandshakePayload::EndOfEarlyData => HandshakePayloadView::EndOfEarlyData,
            HandshakePayload::NewSessionTicketTLS13(x) =>
                HandshakePayloadView::NewSessionTicketTLS13(x@),
            HandshakePayload::KeyUpdate(x) => HandshakePayloadView::KeyUpdate(x),
            HandshakePayload::Unknown(x) => HandshakePayloadView::Unknown(x@),
        }
    }
}

impl HandshakePayloadView {
    /// The bytes of the message behind its type and length.
    pub open spec fn body(self) -> Seq<u8> {
        match self {
            HandshakePayloadView::ClientHello(x) => ClientHelloPayload::encoding(x),
            HandshakePayloadView::ServerHello(x) => ServerHelloPayload::encoding(x),
            HandshakePayloadView::HelloRetryRequest(x) => HelloRetryRequest::encoding(x),
            HandshakePayloadView::EncryptedExtensions(x) => vec_u16_encoding::<ServerExtension>(x),
            HandshakePayloadView::CertificateTLS13(x) => CertificatePayloadTLS13::encoding(x),
            HandshakePayloadView::CertificateRequestTLS13(x) =>
                CertificateRequestPayloadTLS13::encoding(x),
            HandshakePayloadView::CertificateVerify(x) => DigitallySignedStruct::encoding(x),
            HandshakePayloadView::Finished(x) => x,
            HandshakePayloadView::EndOfEarlyData => Seq::empty(),
            HandshakePayloadView::NewSessionTicketTLS13(x) =>
                NewSessionTicketPayloadTLS13::encoding(x),
            HandshakePayloadView::KeyUpdate(x) => seq![x.wire()],
            HandshakePayloadView::Unknown(x) => x,
        }
    }

    /// The message of a type whose body is `body`, in a version of the protocol.
    pub open spec fn of_body(typ: HandshakeType, version: ProtocolVersion, body: Seq<u8>) -> Option<
        HandshakeMessageView,
    > {
        match typ {
            HandshakeType::ClientHello => match whole(
                ClientHelloPayload::decoding(body),
                body.len(),
            ) {
                Some(x) => Some(
                    HandshakeMessageView { typ, payload: HandshakePayloadView::ClientHello(x) },
                ),
                None => None,
            },
            HandshakeType::ServerHello => if is_hello_retry_request(body) {
                match whole(HelloRetryRequest::decoding(body), body.len()) {
                    Some(x) => Some(
                        HandshakeMessageView {
                            typ: HandshakeType::HelloRetryRequest,
                            payload: HandshakePayloadView::HelloRetryRequest(x),
                        },
                    ),
                    None => None,
                }
            } else {
                match whole(ServerHelloPayload::decoding(body), body.len()) {
                    Some(x) => Some(
                        HandshakeMessageView { typ, payload: HandshakePayloadView::ServerHello(x) },
                    ),
                    None => None,
                }
            },
            HandshakeType::HelloRetryRequest => None,
            HandshakeType::MessageHash => None,
            HandshakeType::EncryptedExtensions => match whole(
                vec_u16_decoding::<ServerExtension>(body),
                body.len(),
            ) {
                Some(x) => Some(
                    HandshakeMessageView {
                        typ,
                        payload: HandshakePayloadView::EncryptedExtensions(x),
                    },
                ),
                None => None,
            },
            HandshakeType::CertificateVerify => match whole(
                DigitallySignedStruct::decoding(body),
                body.len(),
            ) {
                Some(x) => Some(
                    HandshakeMessageView {
                        typ,
                        payload: HandshakePayloadView::CertificateVerify(x),
                    },
                ),
                None => None,
            },
            HandshakeType::Finished => Some(
                HandshakeMessageView { typ, payload: HandshakePayloadView::Finished(body) },
            ),
            HandshakeType::EndOfEarlyData => if body.len() == 0 {
                Some(HandshakeMessageView { typ, payload: HandshakePayloadView::EndOfEarlyData })
            } else {
                None
            },
            HandshakeType::KeyUpdate => match whole(decode_u8(body), body.len()) {
                Some(x) => Some(
                    HandshakeMessageView {
                        typ,
                        payload: HandshakePayloadView::KeyUpdate(KeyUpdateRequest::of_wire(x)),
                    },
                ),
                None => None,
            },
            HandshakeType::Certificate => if version == ProtocolVersion::TLSv1_3 {
                match whole(CertificatePayloadTLS13::decoding(body), body.len()) {
                    Some(x) => Some(
                        HandshakeMessageView {
                            typ,
                            payload: HandshakePayloadView::CertificateTLS13(x),
                        },
                    ),
                    None => None,
                }
            } else {
                Some(HandshakeMessageView { typ, payload: HandshakePayloadView::Unknown(body) })
            },
            HandshakeType::CertificateRequest => if version == ProtocolVersion::TLSv1_3 {
                match whole(CertificateRequestPayloadTLS13::decoding(body), body.len()) {
                    Some(x) => Some(
                        HandshakeMessageView {
                            typ,
                            payload: HandshakePayloadView::CertificateRequestTLS13(x),
                        },
                    ),
                    None => None,
                }
            } else {
                Some(HandshakeMessageView { typ, payload: HandshakePayloadView::Unknown(body) })
            },
            HandshakeType::NewSessionTicket => if version == ProtocolVersion::TLSv1_3 {
                match whole(NewSessionTicketPayloadTLS13::decoding(body), body.len()) {
                    Some(x) => Some(
                        HandshakeMessageView {
                            typ,
                            payload: HandshakePayloadView::NewSessionTicketTLS13(x),
                        },
                    ),
                    None => None,
                }
            } else {
                Some(HandshakeMessageView { typ, payload: HandshakePayloadView::Unknown(body) })
            },
            _ => Some(HandshakeMessageView { typ, payload: HandshakePayloadView::Unknown(body) }),
        }
    }
}

/// Whether the body of a ServerHello is that of a HelloRetryRequest: its random value says
/// so.
pub open spec fn is_hello_retry_request(body: Seq<u8>) -> bool {
    match Random::decoding(body.skip(2)) {
        Some((random, _)) => body.len() >= 2 && random == hello_retry_request_random(),
        None => false,
    }
}

fn has_hello_retry_request_random(body: &[u8]) -> (r: bool)
    ensures
        r == is_hello_retry_request(body@),
{
    let mut rd = Reader::init(body);
    match rd.take(2) {
        Some(_) => match Random::read(&mut rd) {
            Some(random) => same_bytes(
                random.0.as_slice(),
                get_hello_retry_request_random().as_slice(),
            ),
            None => false,
        },
        None => false,
    }
}

/// A handshake message.
#[derive(Debug, PartialEq, Eq)]
pub struct HandshakeMessagePayload {
    pub typ: HandshakeType,
    pub payload: HandshakePayload,
}

#[verifier::ext_equal]
pub struct HandshakeMessageView {
    pub typ: HandshakeType,
    pub payload: HandshakePayloadView,
}

impl View for HandshakeMessagePayload {
    type V = HandshakeMessageView;

    open spec fn view(&self) -> HandshakeMessageView {
        HandshakeMessageView { typ: self.typ, payload: self.payload@ }
    }
}

/// The type that a message goes by on the wire: a HelloRetryRequest is sent as a
/// ServerHello.
pub open spec fn wire_type(typ: HandshakeType) -> HandshakeType {
    if typ == HandshakeType::HelloRetryRequest {
        HandshakeType::ServerHello
    } else {
        typ
    }
}

/// A handshake message on the wire: its type, and its body behind a length.
pub open spec fn handshake_encoding(typ: HandshakeType, body: Seq<u8>) -> Seq<u8> {
    seq![wire_type(typ).wire()] + prefixed_u24(body)
}

impl HandshakeMessageView {
    /// The message on the wire.
    pub open spec fn encoding(self) -> Seq<u8> {
        handshake_encoding(self.typ, self.payload.body())
    }

    /// The binders that the message carries.
    pub open spec fn binders(self) -> Option<Seq<Seq<u8>>> {
        match self.payload {
            HandshakePayloadView::ClientHello(ch) => ch.binders(),
            _ => None,
        }
    }

    /// What a binder is computed over: the message up to the binders and the length in
    /// front of them.
    pub open spec fn encoding_for_binder_signing(self) -> Seq<u8> {
        match self.binders() {
            Some(binders) => self.encoding().take(
                self.encoding().len() - vec_u16_encoding::<PayloadU8>(binders).len(),
            ),
            None => self.encoding(),
        }
    }

    /// The message with other binders.
    pub open spec fn with_binders(self, binders: Seq<Seq<u8>>) -> HandshakeMessageView {
        match self.payload {
            HandshakePayloadView::ClientHello(ch) => HandshakeMessageView {
                payload: HandshakePayloadView::ClientHello(ch.with_binders(binders)),
                ..self
            },
            _ => self,
        }
    }

    /// The handshake message at the front of `bytes`, in a version of the protocol, and what
    /// it takes up.
    pub open spec fn decoding(bytes: Seq<u8>, version: ProtocolVersion) -> Option<
        (HandshakeMessageView, nat),
    > {
        match decode_u8(bytes) {
            Some((typ, n)) => match unprefixed_u24(bytes.skip(n as int)) {
                Some((body, k)) => match HandshakePayloadView::of_body(
                    HandshakeType::of_wire(typ),
                    version,
                    body,
                ) {
                    Some(v) => Some((v, n + k)),
                    None => None,
                },
                None => None,
            },
            None => None,
        }
    }
}

/// A message that carries binders ends with them; what stands in front of them does not
/// depend on them but by the length that they take up together.
#[verifier::spinoff_prover]
#[verifier::rlimit(60)]
proof fn lemma_binders_come_last(m: HandshakeMessageView, binders: Seq<Seq<u8>>)
    requires
        m.binders() is Some,
        vec_u16_encoding::<PayloadU8>(binders).len() == vec_u16_encoding::<PayloadU8>(
            m.binders()->0,
        ).len(),
    ensures
        m.with_binders(binders).binders() == Some(binders),
        m.with_binders(binders).encoding().len() == m.encoding().len(),
        m.encoding().len() >= vec_u16_encoding::<PayloadU8>(binders).len(),
        m.with_binders(binders).encoding_for_binder_signing() == m.encoding_for_binder_signing(),
{
    let ch = m.payload->ClientHello_0;
    let other = ch.with_binders(binders);
    let last = ch.extensions.last();
    let offer = last->PresharedKey_0;
    let old_tail = vec_u16_encoding::<PayloadU8>(offer.binders);
    let new_tail = vec_u16_encoding::<PayloadU8>(binders);
    let ids = vec_u16_encoding::<crate::extensions::PresharedKeyIdentity>(offer.identities);
    let front = list_encoding::<ClientExtension>(ch.extensions.drop_last());
    assert(other.extensions.drop_last() =~= ch.extensions.drop_last());
    assert(other.extensions.last() == ClientExtensionView::PresharedKey(
        PresharedKeyOfferView { binders, ..offer },
    ));
    let ext_head = be16(ExtensionType::PreSharedKey.wire()) + be16(
        (ids + old_tail).len() as u16,
    ) + ids;
    assert(ClientExtension::encoding(last) =~= ext_head + old_tail);
    assert(ClientExtension::encoding(other.extensions.last()) =~= ext_head + new_tail);
    let list_head = be16((front + ext_head + old_tail).len() as u16) + front + ext_head;
    assert(front + (ext_head + old_tail) =~= front + ext_head + old_tail);
    assert(front + (ext_head + new_tail) =~= front + ext_head + new_tail);
    assert(vec_u16_encoding::<ClientExtension>(ch.extensions) =~= list_head + old_tail);
    assert(vec_u16_encoding::<ClientExtension>(other.extensions) =~= list_head + new_tail);
    let body_head = ch.head() + list_head;
    assert(ClientHelloPayload::encoding(ch) =~= body_head + old_tail);
    assert(ClientHelloPayload::encoding(other) =~= body_head + new_tail);
    let head = seq![wire_type(m.typ).wire()] + be24((body_head + old_tail).len() as u32)
        + body_head;
    assert(m.encoding() =~= head + old_tail);
    assert(m.with_binders(binders).encoding() =~= head + new_tail);
    assert(m.encoding_for_binder_signing() =~= head);
    assert(m.with_binders(binders).encoding_for_binder_signing() =~= head);
}

/// Replacing a byte string of a list by one of the same length keeps the length of the
/// list's encoding.
proof fn lemma_same_length_list(items: Seq<Seq<u8>>, i: int, item: Seq<u8>)
    requires
        0 <= i < items.len(),
        item.len() == items[i].len(),
    ensures
        list_encoding::<PayloadU8>(items.update(i, item)).len() == list_encoding::<PayloadU8>(
            items,
        ).len(),
    decreases items.len(),
{
    let other = items.update(i, item);
    if i == items.len() - 1 {
        assert(other.drop_last() =~= items.drop_last());
    } else {
        assert(other.drop_last() =~= items.drop_last().update(i, item));
        lemma_same_length_list(items.drop_last(), i, item);
    }
}

/// What a binder is computed over does not depend on the binder, as long as its length is
/// the one that was reserved for it: filling the binder in leaves it as it was.
pub proof fn binder_does_not_sign_itself(m: HandshakeMessageView, binder: Seq<u8>)
    requires
        m.binders() is Some,
        m.binders()->0.len() > 0,
        binder.len() == m.binders()->0[0].len(),
    ensures
        m.with_binders(m.binders()->0.update(0, binder)).encoding_for_binder_signing()
            == m.encoding_for_binder_signing(),
        m.with_binders(m.binders()->0.update(0, binder)).encoding().len() == m.encoding().len(),
{
    lemma_same_length_list(m.binders()->0, 0, binder);
    lemma_binders_come_last(m, m.binders()->0.update(0, binder));
}

impl HandshakeMessagePayload {
    pub fn encode(&self, bytes: &mut Vec<u8>)
        ensures
            final(bytes)@ == old(bytes)@ + self@.encoding(),
    {
        let mut body: Vec<u8> = Vec::new();
        match &self.payload {
            HandshakePayload::ClientHello(x) => x.encode(&mut body),
            HandshakePayload::ServerHello(x) => x.encode(&mut body),
            HandshakePayload::HelloRetryRequest(x) => x.encode(&mut body),
            HandshakePayload::EncryptedExtensions(x) => put_vec_u16(x, &mut body),
            HandshakePayload::CertificateTLS13(x) => x.encode(&mut body),
            HandshakePayload::CertificateRequestTLS13(x) => x.encode(&mut body),
            HandshakePayload::CertificateVerify(x) => x.encode(&mut body),
            HandshakePayload::Finished(x) => put_slice(x.0.as_slice(), &mut body),
            HandshakePayload::EndOfEarlyData => {},
            HandshakePayload::NewSessionTicketTLS13(x) => x.encode(&mut body),
            HandshakePayload::KeyUpdate(x) => x.encode(&mut body),
            HandshakePayload::Unknown(x) => put_slice(x.0.as_slice(), &mut body),
        }
        assert(body@ =~= self@.payload.body());
        let typ: HandshakeType = if self.typ == HandshakeType::HelloRetryRequest {
            HandshakeType::ServerHello
        } else {
            self.typ
        };
        bytes.push(typ.get_u8());
        put_prefixed_u24(body.as_slice(), bytes);
        assert(bytes@ =~= old(bytes)@ + self@.encoding());
    }

    pub fn get_encoding(&self) -> (r: Vec<u8>)
        ensures
            r@ == self@.encoding(),
    {
        let mut bytes: Vec<u8> = Vec::new();
        self.encode(&mut bytes);
        assert(bytes@ =~= self@.encoding());
        bytes
    }

    /// The message up to its binders, which is what a binder is computed over.
    pub fn get_encoding_for_binder_signing(&self) -> (r: Vec<u8>)
        ensures
            r@ == self@.encoding_for_binder_signing(),
    {
        let mut bytes: Vec<u8> = self.get_encoding();
        match &self.payload {
            HandshakePayload::ClientHello(ch) => {
                let n: usize = ch.extensions.len();
                if n > 0 {
                    assert(ch@.extensions.last() == ch.extensions@[n - 1]@);
                    match &ch.extensions[n - 1] {
                        ClientExtension::PresharedKey(offer) => {
                            let mut binders: Vec<u8> = Vec::new();
                            put_vec_u16(&offer.binders, &mut binders);
                            assert(binders@ =~= vec_u16_encoding::<PayloadU8>(offer@.binders));
                            proof {
                                lemma_binders_come_last(self@, offer@.binders);
                            }
                            let end: usize = bytes.len() - binders.len();
                            bytes.truncate(end);
                        },
                        _ => {},
                    }
                }
            },
            _ => {},
        }
        bytes
    }

    /// Reads a handshake message of a version of the protocol.
    pub fn read_version(rd: &mut Reader, version: ProtocolVersion) -> (r: Option<
        HandshakeMessagePayload,
    >)
        ensures
            match HandshakeMessageView::decoding(old(rd)@, version) {
                Some((v, n)) => r is Some && r->0@ == v && final(rd)@ == old(rd)@.skip(n as int)
                    && final(rd).spec_used() == old(rd).spec_used() + n,
                None => r is None,
            },
    {
        broadcast use lemma_skip_skip;

        let typ: HandshakeType = match HandshakeType::read(rd) {
            Some(x) => x,
            None => return None,
        };
        let body: &[u8] = match sub_prefixed_u24(rd) {
            Some(mut x) => x.rest(),
            None => return None,
        };
        Self::of_body(typ, version, body)
    }

    /// The message of a type whose body is `body`.
    fn of_body(typ: HandshakeType, version: ProtocolVersion, body: &[u8]) -> (r: Option<
        HandshakeMessagePayload,
    >)
        ensures
            match HandshakePayloadView::of_body(typ, version, body@) {
                Some(v) => r is Some && r->0@ == v,
                None => r is None,
            },
    {
        let mut rd = Reader::init(body);
        let mut typ = typ;
        let tls13: bool = version == ProtocolVersion::TLSv1_3;
        let payload: HandshakePayload = match typ {
            HandshakeType::ClientHello => match ClientHelloPayload::read(&mut rd) {
                Some(x) => HandshakePayload::ClientHello(x),
                None => return None,
            },
            HandshakeType::ServerHello => if has_hello_retry_request_random(body) {
                typ = HandshakeType::HelloRetryRequest;
                match HelloRetryRequest::read(&mut rd) {
                    Some(x) => HandshakePayload::HelloRetryRequest(x),
                    None => return None,
                }
            } else {
                match ServerHelloPayload::read(&mut rd) {
                    Some(x) => HandshakePayload::ServerHello(x),
                    None => return None,
                }
            },
            HandshakeType::HelloRetryRequest => return None,
            HandshakeType::MessageHash => return None,
            HandshakeType::EncryptedExtensions => match read_vec_u16::<ServerExtension>(&mut rd) {
                Some(x) => HandshakePayload::EncryptedExtensions(x),
                None => return None,
            },
            HandshakeType::CertificateVerify => match DigitallySignedStruct::read(&mut rd) {
                Some(x) => HandshakePayload::CertificateVerify(x),
                None => return None,
            },
            HandshakeType::Finished => HandshakePayload::Finished(Payload::new(rd.rest())),
            HandshakeType::EndOfEarlyData => HandshakePayload::EndOfEarlyData,
            HandshakeType::KeyUpdate => match KeyUpdateRequest::read(&mut rd) {
                Some(x) => HandshakePayload::KeyUpdate(x),
                None => return None,
            },
            HandshakeType::Certificate if tls13 => match CertificatePayloadTLS13::read(&mut rd) {
                Some(x) => HandshakePayload::CertificateTLS13(x),
                None => return None,
            },
            HandshakeType::CertificateRequest if tls13 => match CertificateRequestPayloadTLS13::read(
                &mut rd,
            ) {
                Some(x) => HandshakePayload::CertificateRequestTLS13(x),
                None => return None,
            },
            HandshakeType::NewSessionTicket if tls13 => match NewSessionTicketPayloadTLS13::read(
                &mut rd,
            ) {
                Some(x) => HandshakePayload::NewSessionTicketTLS13(x),
                None => return None,
            },
            _ => HandshakePayload::Unknown(Payload::new(rd.rest())),
        };
        if rd.any_left() {
            None
        } else {
            Some(HandshakeMessagePayload { typ, payload })
        }
    }
}

} // verus!
