//! Judging the server: its certificate chain and its signature of the handshake.

use crate::codec::{put_slice, views};
use crate::error::{PKIError, PKIErrorView, TlsError, TlsErrorView, WebPKIOp};
use crate::handshake::{DigitallySignedStruct, DigitallySignedView};
use crate::base::PayloadU16;
use crate::key::Certificate;
use crate::pki::ServerName;
use crate::ticketer::{time_view, TimeBase};
use vstd::prelude::*;

verus! {

/// Evidence that the certificate chain was accepted.
#[derive(Clone, Copy, PartialEq, Eq, Structural, Debug)]
pub struct ServerCertVerified {}

impl ServerCertVerified {
    pub fn assertion() -> (r: ServerCertVerified)
        ensures
            r == (ServerCertVerified {  }),
    {
        ServerCertVerified {  }
    }
}

/// Evidence that the signature of the handshake was accepted.
#[derive(Clone, Copy, PartialEq, Eq, Structural, Debug)]
pub struct HandshakeSignatureValid {}

impl HandshakeSignatureValid {
    pub fn assertion() -> (r: HandshakeSignatureValid)
        ensures
            r == (HandshakeSignatureValid {  }),
    {
        HandshakeSignatureValid {  }
    }
}

/// Evidence that the Finished message was the right one.
#[derive(Clone, Copy, PartialEq, Eq, Structural, Debug)]
pub struct FinishedMessageVerified {}

impl FinishedMessageVerified {
    pub fn assertion() -> (r: FinishedMessageVerified)
        ensures
            r == (FinishedMessageVerified {  }),
    {
        FinishedMessageVerified {  }
    }
}

/// What judges servers. The verdicts depend on what is asked alone.
pub trait ServerCertVerifier: View + Sized {
    /// The verdict on a certificate chain that is shown for a name, at a time in seconds
    /// since the epoch, or where the clock stands before the epoch.
    spec fn cert_verdict(
        verifier: Self::V,
        end_entity: Seq<u8>,
        intermediates: Seq<Seq<u8>>,
        name: Seq<u8>,
        scts: Seq<Seq<u8>>,
        ocsp_response: Seq<u8>,
        now: Option<u64>,
    ) -> Result<(), TlsErrorView>;

    /// The verdict on a signature by the key in a certificate.
    spec fn signature_verdict(
        verifier: Self::V,
        message: Seq<u8>,
        cert: Seq<u8>,
        dss: DigitallySignedView,
    ) -> Result<(), TlsErrorView>;

    fn verify_server_cert(
        &self,
        end_entity: &Certificate,
        intermediates: &[Certificate],
        name: &ServerName,
        scts: &Vec<PayloadU16>,
        ocsp_response: &Vec<u8>,
        now: Option<TimeBase>,
    ) -> (r: Result<ServerCertVerified, TlsError>)
        ensures
            verdict_view(r) == Self::cert_verdict(
                self@,
                end_entity@,
                views(intermediates@),
                name@,
                views(scts@),
                ocsp_response@,
                time_view(now),
            ),
    ;

    fn verify_tls13_signature(
        &self,
        message: &[u8],
        cert: &Certificate,
        dss: &DigitallySignedStruct,
    ) -> (r: Result<HandshakeSignatureValid, TlsError>)
        ensures
            verdict_view(r) == Self::signature_verdict(self@, message@, cert@, dss@),
    ;
}

/// A verdict without the evidence that comes with it.
pub open spec fn verdict_view<A>(r: Result<A, TlsError>) -> Result<(), TlsErrorView> {
    match r {
        Ok(_) => Ok(()),
        Err(err) => Err(err@),
    }
}

/// What a `PresetVerifier` is to answer.
#[derive(Clone, Copy, PartialEq, Eq, Structural, Debug)]
pub enum Verdict {
    Accepted,
    /// Some DER encoding is malformed.
    Malformed,
    /// The peer broke the protocol.
    Misbehaving,
    /// Not trusted for some other reason.
    Refused,
}

impl Verdict {
    pub open spec fn outcome(self, op: WebPKIOp) -> Result<(), TlsErrorView> {
        match self {
            Verdict::Accepted => Ok(()),
            Verdict::Malformed => Err(TlsErrorView::WebPKIError(PKIErrorView::BadDER, op)),
            Verdict::Misbehaving => Err(TlsErrorView::PeerMisbehavedError("refused"@)),
            Verdict::Refused => Err(
                TlsErrorView::WebPKIError(PKIErrorView::Other("refused"@), op),
            ),
        }
    }

    fn error(self, op: WebPKIOp) -> (r: Option<TlsError>)
        ensures
            match self.outcome(op) {
                Ok(()) => r is None,
                Err(err) => r is Some && r->0@ == err,
            },
    {
        match self {
            Verdict::Accepted => None,
            Verdict::Malformed => Some(TlsError::WebPKIError(PKIError::BadDER, op)),
            Verdict::Misbehaving => Some(TlsError::PeerMisbehavedError("refused".to_string())),
            Verdict::Refused => Some(
                TlsError::WebPKIError(PKIError::Other("refused".to_string()), op),
            ),
        }
    }
}

/// A verifier for callers who judge the server themselves: it answers every question with
/// the verdict that it was made with.
#[derive(Clone, Copy, PartialEq, Eq, Structural, Debug)]
pub struct PresetVerifier {
    pub cert: Verdict,
    pub signature: Verdict,
}

impl View for PresetVerifier {
    type V = PresetVerifier;

    open spec fn view(&self) -> PresetVerifier {
        *self
    }
}

impl ServerCertVerifier for PresetVerifier {
    open spec fn cert_verdict(
        verifier: PresetVerifier,
        end_entity: Seq<u8>,
        intermediates: Seq<Seq<u8>>,
        name: Seq<u8>,
        scts: Seq<Seq<u8>>,
        ocsp_response: Seq<u8>,
        now: Option<u64>,
    ) -> Result<(), TlsErrorView> {
        verifier.cert.outcome(WebPKIOp::ValidateServerCert)
    }

    open spec fn signature_verdict(
        verifier: PresetVerifier,
        message: Seq<u8>,
        cert: Seq<u8>,
        dss: DigitallySignedView,
    ) -> Result<(), TlsErrorView> {
        verifier.signature.outcome(WebPKIOp::VerifySignature)
    }

    fn verify_server_cert(
        &self,
        end_entity: &Certificate,
        intermediates: &[Certificate],
        name: &ServerName,
        scts: &Vec<PayloadU16>,
        ocsp_response: &Vec<u8>,
        now: Option<TimeBase>,
    ) -> (r: Result<ServerCertVerified, TlsError>) {
        let r: Result<ServerCertVerified, TlsError> = match self.cert.error(
            WebPKIOp::ValidateServerCert,
        ) {
            None => Ok(ServerCertVerified::assertion()),
            Some(err) => Err(err),
        };
        assert(verdict_view(r) == self.cert.outcome(WebPKIOp::ValidateServerCert));
        assert(Self::cert_verdict(
            self@,
            end_entity@,
            views(intermediates@),
            name@,
            views(scts@),
            ocsp_response@,
            time_view(now),
        ) == verdict_view(r));
        r
    }

    fn verify_tls13_signature(
        &self,
        message: &[u8],
        cert: &Certificate,
        dss: &DigitallySignedStruct,
    ) -> (r: Result<HandshakeSignatureValid, TlsError>) {
        let r: Result<HandshakeSignatureValid, TlsError> = match self.signature.error(
            WebPKIOp::VerifySignature,
        ) {
            None => Ok(HandshakeSignatureValid::assertion()),
            Some(err) => Err(err),
        };
        assert(Self::signature_verdict(self@, message@, cert@, dss@) == verdict_view(r));
        r
    }
}

/// "TLS 1.3, server CertificateVerify" and a zero.
pub open spec fn server_context() -> Seq<u8> {
    seq![
        0x54u8, 0x4c, 0x53, 0x20, 0x31, 0x2e, 0x33, 0x2c, 0x20, 0x73, 0x65, 0x72, 0x76, 0x65,
        0x72, 0x20, 0x43, 0x65, 0x72, 0x74, 0x69, 0x66, 0x69, 0x63, 0x61, 0x74, 0x65, 0x56, 0x65,
        0x72, 0x69, 0x66, 0x79, 0x00
    ]
}

/// "TLS 1.3, client CertificateVerify" and a zero.
pub open spec fn client_context() -> Seq<u8> {
    seq![
        0x54u8, 0x4c, 0x53, 0x20, 0x31, 0x2e, 0x33, 0x2c, 0x20, 0x63, 0x6c, 0x69, 0x65, 0x6e,
        0x74, 0x20, 0x43, 0x65, 0x72, 0x74, 0x69, 0x66, 0x69, 0x63, 0x61, 0x74, 0x65, 0x56, 0x65,
        0x72, 0x69, 0x66, 0x79, 0x00
    ]
}

/// What a handshake signature is made of: 64 spaces, who signs, and the handshake hash.
pub open spec fn verify_message(context: Seq<u8>, handshake_hash: Seq<u8>) -> Seq<u8> {
    Seq::new(64, |i: int| 0x20u8) + context + handshake_hash
}

fn construct_verify_message(context: &[u8], handshake_hash: &[u8]) -> (r: Vec<u8>)
    ensures
        r@ == verify_message(context@, handshake_hash@),
{
    let mut msg: Vec<u8> = Vec::new();
    while msg.len() < 64
        invariant
            msg@.len() <= 64,
            forall|i: int| 0 <= i < msg@.len() ==> msg@[i] == 0x20,
        decreases 64 - msg@.len(),
    {
        msg.push(0x20);
    }
    assert(msg@ =~= Seq::new(64, |i: int| 0x20u8));
    put_slice(context, &mut msg);
    put_slice(handshake_hash, &mut msg);
    msg
}

pub fn construct_tls13_server_verify_message(handshake_hash: &[u8]) -> (r: Vec<u8>)
    ensures
        r@ == verify_message(server_context(), handshake_hash@),
{
    let context: Vec<u8> = vec![
        0x54, 0x4c, 0x53, 0x20, 0x31, 0x2e, 0x33, 0x2c, 0x20, 0x73, 0x65, 0x72, 0x76, 0x65, 0x72,
        0x20, 0x43, 0x65, 0x72, 0x74, 0x69, 0x66, 0x69, 0x63, 0x61, 0x74, 0x65, 0x56, 0x65, 0x72,
        0x69, 0x66, 0x79, 0x00
    ];
    assert(context@ =~= server_context());
    construct_verify_message(context.as_slice(), handshake_hash)
}

pub fn construct_tls13_client_verify_message(handshake_hash: &[u8]) -> (r: Vec<u8>)
    ensures
        r@ == verify_message(client_context(), handshake_hash@),
{
    let context: Vec<u8> = vec![
        0x54, 0x4c, 0x53, 0x20, 0x31, 0x2e, 0x33, 0x2c, 0x20, 0x63, 0x6c, 0x69, 0x65, 0x6e, 0x74,
        0x20, 0x43, 0x65, 0x72, 0x74, 0x69, 0x66, 0x69, 0x63, 0x61, 0x74, 0x65, 0x56, 0x65, 0x72,
        0x69, 0x66, 0x79, 0x00
    ];
    assert(context@ =~= client_context());
    construct_verify_message(context.as_slice(), handshake_hash)
}

/// A signature by the server is never one by the client: what they sign differs, whatever
/// the handshake.
pub proof fn sides_sign_different_messages(server_hash: Seq<u8>, client_hash: Seq<u8>)
    ensures
        verify_message(server_context(), server_hash) != verify_message(
            client_context(),
            client_hash,
        ),
{
    let a = verify_message(server_context(), server_hash);
    let b = verify_message(client_context(), client_hash);
    assert(a[73] == server_context()[9] && b[73] == client_context()[9]);
}

} // verus!
