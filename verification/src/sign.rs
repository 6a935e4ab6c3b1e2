//! Signing with the client's key.

use crate::codec::{to_vec, views};
use crate::crypto::{ed25519_accepts, ed25519_sign, ed25519_signature_of, is_ed25519_key};
use crate::enums::SignatureScheme;
use crate::error::{TlsError, TlsErrorView};
use crate::key::Certificate;
use vstd::prelude::*;

verus! {

/// The outcome of signing, by its view.
pub open spec fn signature_view(r: Result<Vec<u8>, TlsError>) -> Result<Seq<u8>, TlsErrorView> {
    match r {
        Ok(signature) => Ok(signature@),
        Err(err) => Err(err@),
    }
}

/// A private key.
pub trait SigningKey: View + Sized {
    /// The scheme that the key signs with, of those that are offered.
    spec fn chosen_scheme(key: Self::V, offered: Seq<SignatureScheme>) -> Option<SignatureScheme>;

    /// Whether signing a message may have this outcome. Some schemes leave it to chance.
    spec fn may_sign(
        key: Self::V,
        scheme: SignatureScheme,
        message: Seq<u8>,
        outcome: Result<Seq<u8>, TlsErrorView>,
    ) -> bool;

    fn choose_scheme(&self, offered: &Vec<SignatureScheme>) -> (r: Option<SignatureScheme>)
        ensures
            r == Self::chosen_scheme(self@, offered@),
    ;

    fn sign(&self, scheme: SignatureScheme, message: &[u8]) -> (r: Result<Vec<u8>, TlsError>)
        ensures
            Self::may_sign(self@, scheme, message@, signature_view(r)),
    ;
}

/// A private key together with the scheme to sign with.
#[derive(Debug)]
pub struct Signer<K> {
    pub key: K,
    pub scheme: SignatureScheme,
}

#[verifier::ext_equal]
pub struct SignerView<K: SigningKey> {
    pub key: K::V,
    pub scheme: SignatureScheme,
}

impl<K: SigningKey> View for Signer<K> {
    type V = SignerView<K>;

    open spec fn view(&self) -> SignerView<K> {
        SignerView { key: self.key@, scheme: self.scheme }
    }
}

impl<K: SigningKey> Signer<K> {
    pub fn get_scheme(&self) -> (r: SignatureScheme)
        ensures
            r == self@.scheme,
    {
        self.scheme
    }

    pub fn sign(&self, message: &[u8]) -> (r: Result<Vec<u8>, TlsError>)
        ensures
            K::may_sign(self@.key, self@.scheme, message@, signature_view(r)),
    {
        self.key.sign(self.scheme, message)
    }
}

/// A certificate chain and the private key that goes with it.
#[derive(Debug)]
pub struct CertifiedKey<K> {
    pub cert: Vec<Certificate>,
    pub key: K,
}

#[verifier::ext_equal]
pub struct CertifiedKeyView<K: SigningKey> {
    pub cert: Seq<Seq<u8>>,
    pub key: K::V,
}

impl<K: SigningKey> View for CertifiedKey<K> {
    type V = CertifiedKeyView<K>;

    open spec fn view(&self) -> CertifiedKeyView<K> {
        CertifiedKeyView { cert: views(self.cert@), key: self.key@ }
    }
}

/// The signature schemes of TLS1.3 that this side can sign with, the best first.
pub open spec fn tls13_schemes() -> Seq<SignatureScheme> {
    seq![
        SignatureScheme::ECDSA_NISTP384_SHA384,
        SignatureScheme::ECDSA_NISTP256_SHA256,
        SignatureScheme::RSA_PSS_SHA512,
        SignatureScheme::RSA_PSS_SHA384,
        SignatureScheme::RSA_PSS_SHA256,
        SignatureScheme::ED25519,
    ]
}

pub fn supported_sign_tls13() -> (r: Vec<SignatureScheme>)
    ensures
        r@ == tls13_schemes(),
{
    let r: Vec<SignatureScheme> = vec![
        SignatureScheme::ECDSA_NISTP384_SHA384,
        SignatureScheme::ECDSA_NISTP256_SHA256,
        SignatureScheme::RSA_PSS_SHA512,
        SignatureScheme::RSA_PSS_SHA384,
        SignatureScheme::RSA_PSS_SHA256,
        SignatureScheme::ED25519,
    ];
    assert(r@ =~= tls13_schemes());
    r
}

/// Whether a list of schemes holds one of them.
pub fn holds_scheme(schemes: &Vec<SignatureScheme>, scheme: SignatureScheme) -> (r: bool)
    ensures
        r == schemes@.contains(scheme),
{
    let mut i: usize = 0;
    while i < schemes.len()
        invariant
            i <= schemes@.len(),
            forall|j: int| 0 <= j < i ==> schemes@[j] != scheme,
        decreases schemes@.len() - i,
    {
        if schemes[i] == scheme {
            return true;
        }
        i += 1;
    }
    false
}

/// An Ed25519 private key in PKCS#8.
#[derive(Debug, PartialEq, Eq)]
pub struct Ed25519SigningKey {
    pub pkcs8: Vec<u8>,
}

impl View for Ed25519SigningKey {
    type V = Seq<u8>;

    open spec fn view(&self) -> Seq<u8> {
        self.pkcs8@
    }
}

impl Ed25519SigningKey {
    /// A copy of the key.
    pub fn duplicate(&self) -> (r: Ed25519SigningKey)
        ensures
            r@ == self@,
    {
        Ed25519SigningKey { pkcs8: to_vec(self.pkcs8.as_slice()) }
    }
}

impl SigningKey for Ed25519SigningKey {
    open spec fn chosen_scheme(key: Seq<u8>, offered: Seq<SignatureScheme>) -> Option<
        SignatureScheme,
    > {
        if offered.contains(SignatureScheme::ED25519) {
            Some(SignatureScheme::ED25519)
        } else {
            None
        }
    }

    open spec fn may_sign(
        key: Seq<u8>,
        scheme: SignatureScheme,
        message: Seq<u8>,
        outcome: Result<Seq<u8>, TlsErrorView>,
    ) -> bool {
        outcome == if is_ed25519_key(key) {
            Ok(ed25519_signature_of(key, message))
        } else {
            Err(TlsErrorView::General("signing failed"@))
        }
    }

    fn choose_scheme(&self, offered: &Vec<SignatureScheme>) -> (r: Option<SignatureScheme>) {
        assert(Self::chosen_scheme(self@, offered@) is Some == offered@.contains(
            SignatureScheme::ED25519,
        ));
        if holds_scheme(offered, SignatureScheme::ED25519) {
            Some(SignatureScheme::ED25519)
        } else {
            None
        }
    }

    fn sign(&self, scheme: SignatureScheme, message: &[u8]) -> (r: Result<Vec<u8>, TlsError>) {
        let r: Result<Vec<u8>, TlsError> = if ed25519_accepts(self.pkcs8.as_slice()) {
            Ok(ed25519_sign(self.pkcs8.as_slice(), message))
        } else {
            Err(TlsError::General("signing failed".to_string()))
        };
        assert(Self::may_sign(self@, scheme, message@, signature_view(r)));
        r
    }
}

} // verus!
