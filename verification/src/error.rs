//! What can go wrong.

use crate::enums::{ContentType, HandshakeType};
use vstd::prelude::*;

verus! {

/// Why webpki refused a certificate or a signature.
#[derive(Debug, PartialEq, Eq)]
pub enum PKIError {
    /// Some DER encoding is malformed.
    BadDER,
    /// Any other reason, as webpki words it.
    Other(String),
}

#[verifier::ext_equal]
pub enum PKIErrorView {
    BadDER,
    Other(Seq<char>),
}

impl View for PKIError {
    type V = PKIErrorView;

    open spec fn view(&self) -> PKIErrorView {
        match *self {
            PKIError::BadDER => PKIErrorView::BadDER,
            PKIError::Other(why) => PKIErrorView::Other(why@),
        }
    }
}

/// What was being done when webpki refused.
#[derive(Clone, Copy, PartialEq, Eq, Structural, Debug)]
pub enum WebPKIOp {
    ParseEndEntity,
    ValidateServerCert,
    ValidateForDNSName,
    VerifySignature,
}

/// Why a session failed.
#[derive(Debug, PartialEq, Eq)]
#[allow(inconsistent_fields)]
pub enum TlsError {
    /// A message of a content type that was not due.
    InappropriateMessage { expect_types: Vec<ContentType>, got_type: ContentType },
    /// A handshake message of a type that was not due.
    InappropriateHandshakeMessage { expect_types: Vec<HandshakeType>, got_type: HandshakeType },
    /// A message whose payload cannot be read.
    CorruptMessagePayload(ContentType),
    /// The peer sent no certificates.
    NoCertificatesPresented,
    /// Something that was to be decrypted or authenticated is not what it should be.
    DecryptError,
    /// The peer does not support what is needed.
    PeerIncompatibleError(String),
    /// The peer broke the protocol.
    PeerMisbehavedError(String),
    /// The peer's certificate or signature was refused.
    WebPKIError(PKIError, WebPKIOp),
    /// Anything else.
    General(String),
    /// The clock is not to be had.
    FailedToGetCurrentTime,
    /// Random numbers are not to be had.
    FailedToGetRandomBytes,
    /// What was asked for needs a finished handshake.
    HandshakeNotComplete,
}

#[verifier::ext_equal]
#[allow(inconsistent_fields)]
pub enum TlsErrorView {
    InappropriateMessage { expect_types: Seq<ContentType>, got_type: ContentType },
    InappropriateHandshakeMessage { expect_types: Seq<HandshakeType>, got_type: HandshakeType },
    CorruptMessagePayload(ContentType),
    NoCertificatesPresented,
    DecryptError,
    PeerIncompatibleError(Seq<char>),
    PeerMisbehavedError(Seq<char>),
    WebPKIError(PKIErrorView, WebPKIOp),
    General(Seq<char>),
    FailedToGetCurrentTime,
    FailedToGetRandomBytes,
    HandshakeNotComplete,
}

impl View for TlsError {
    type V = TlsErrorView;

    open spec fn view(&self) -> TlsErrorView {
        match *self {
            TlsError::InappropriateMessage { expect_types, got_type } =>
                TlsErrorView::InappropriateMessage { expect_types: expect_types@, got_type },
            TlsError::InappropriateHandshakeMessage { expect_types, got_type } =>
                TlsErrorView::InappropriateHandshakeMessage {
                expect_types: expect_types@,
                got_type,
            },
            TlsError::CorruptMessagePayload(typ) => TlsErrorView::CorruptMessagePayload(typ),
            TlsError::NoCertificatesPresented => TlsErrorView::NoCertificatesPresented,
            TlsError::DecryptError => TlsErrorView::DecryptError,
            TlsError::PeerIncompatibleError(why) => TlsErrorView::PeerIncompatibleError(why@),
            TlsError::PeerMisbehavedError(why) => TlsErrorView::PeerMisbehavedError(why@),
            TlsError::WebPKIError(err, op) => TlsErrorView::WebPKIError(err@, op),
            TlsError::General(why) => TlsErrorView::General(why@),
            TlsError::FailedToGetCurrentTime => TlsErrorView::FailedToGetCurrentTime,
            TlsError::FailedToGetRandomBytes => TlsErrorView::FailedToGetRandomBytes,
            TlsError::HandshakeNotComplete => TlsErrorView::HandshakeNotComplete,
        }
    }
}

/// A result whose error is seen by its view.
pub open spec fn seen<A>(r: Result<A, TlsError>) -> Result<A, TlsErrorView> {
    match r {
        Ok(a) => Ok(a),
        Err(err) => Err(err@),
    }
}

/// The error for a peer that broke the protocol.
pub open spec fn misbehaved(why: &str) -> TlsErrorView {
    TlsErrorView::PeerMisbehavedError(why@)
}

} // verus!
