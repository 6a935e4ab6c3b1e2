//! The cryptographic operations that the handshake takes from *ring*.
//!
//! Nothing here is proved: each function hands its arguments to *ring* and its contract
//! names the result. Everything that the rest of the crate says about keys, hashes and
//! signatures is said in terms of these names.

use crate::enums::NamedGroup;
use vstd::prelude::*;

verus! {

/// The hash function of a cipher suite, for transcripts, HMAC and HKDF alike.
#[derive(Clone, Copy, PartialEq, Eq, Structural, Debug)]
pub enum HashAlgorithm {
    SHA256,
    SHA384,
}

impl HashAlgorithm {
    /// The length of a digest, in bytes.
    pub open spec fn spec_output_len(self) -> nat {
        match self {
            HashAlgorithm::SHA256 => 32,
            HashAlgorithm::SHA384 => 48,
        }
    }

    pub fn output_len(self) -> (r: usize)
        ensures
            r == self.spec_output_len(),
    {
        match self {
            HashAlgorithm::SHA256 => 32,
            HashAlgorithm::SHA384 => 48,
        }
    }
}

/// What `ring::digest::digest` makes of `data`.
pub uninterp spec fn digest_of(alg: HashAlgorithm, data: Seq<u8>) -> Seq<u8>;

/// `ring::digest::digest`: the digest of `data`. It is as long as the algorithm says, and
/// depends on the algorithm and the data alone.
#[verifier::external_body]
pub(crate) fn digest(alg: HashAlgorithm, data: &[u8]) -> (r: Vec<u8>)
    ensures
        r@ == digest_of(alg, data@),
        r@.len() == alg.spec_output_len(),
{
    let alg = match alg {
        HashAlgorithm::SHA256 => &ring::digest::SHA256,
        HashAlgorithm::SHA384 => &ring::digest::SHA384,
    };
    ring::digest::digest(alg, data).as_ref().to_vec()
}

/// What `ring::hmac::sign` makes of `data` under `key`.
pub uninterp spec fn hmac_of(alg: HashAlgorithm, key: Seq<u8>, data: Seq<u8>) -> Seq<u8>;

/// `ring::hmac::sign`: the HMAC tag of `data`. It is as long as a digest, and depends on
/// the algorithm, the key and the data alone.
#[verifier::external_body]
pub(crate) fn hmac_sign(alg: HashAlgorithm, key: &[u8], data: &[u8]) -> (r: Vec<u8>)
    ensures
        r@ == hmac_of(alg, key@, data@),
        r@.len() == alg.spec_output_len(),
{
    let alg = match alg {
        HashAlgorithm::SHA256 => ring::hmac::HMAC_SHA256,
        HashAlgorithm::SHA384 => ring::hmac::HMAC_SHA384,
    };
    ring::hmac::sign(&ring::hmac::Key::new(alg, key), data).as_ref().to_vec()
}

/// The length of the keying material to derive, in the form that HKDF takes it in.
pub struct OkmLen(pub usize);

impl ring::hkdf::KeyType for OkmLen {
    fn len(&self) -> (r: usize)
        ensures
            r == self.0,
    {
        self.0
    }
}

/// The longest keying material that HKDF can derive.
pub open spec fn max_okm_len(alg: HashAlgorithm) -> nat {
    255 * alg.spec_output_len()
}

/// What `ring::hkdf::Prk::expand` derives from the pseudorandom key `prk`.
pub uninterp spec fn hkdf_expand_of(
    alg: HashAlgorithm,
    prk: Seq<u8>,
    info: Seq<u8>,
    len: nat,
) -> Seq<u8>;

/// `ring::hkdf::Prk::expand`, on a key made by `Prk::new_less_safe`: `len` bytes of keying
/// material, which depend on the arguments alone, or `None` if and only if HKDF cannot
/// derive that many.
#[verifier::external_body]
pub(crate) fn hkdf_expand(alg: HashAlgorithm, prk: &[u8], info: &[u8], len: usize) -> (r: Option<
    Vec<u8>,
>)
    ensures
        r is Some <==> len <= max_okm_len(alg),
        r matches Some(okm) ==> okm@ == hkdf_expand_of(alg, prk@, info@, len as nat) && okm@.len()
            == len,
{
    let alg = match alg {
        HashAlgorithm::SHA256 => ring::hkdf::HKDF_SHA256,
        HashAlgorithm::SHA384 => ring::hkdf::HKDF_SHA384,
    };
    let prk = ring::hkdf::Prk::new_less_safe(alg, prk);
    let info = [info];
    let derived = prk.expand(&info, OkmLen(len)).ok()?;
    let mut okm = vec![0u8; len];
    derived.fill(&mut okm).ok()?;
    Some(okm)
}

/// `ring::hkdf::Salt::extract` and then `ring::hkdf::Prk::expand` on what it makes: `len`
/// bytes of keying material, or `None` if and only if HKDF cannot derive that many. The key
/// in between is the HMAC of `secret` under `salt`; *ring* does not hand it out.
#[verifier::external_body]
pub(crate) fn hkdf_extract_expand(
    alg: HashAlgorithm,
    salt: &[u8],
    secret: &[u8],
    info: &[u8],
    len: usize,
) -> (r: Option<Vec<u8>>)
    ensures
        r is Some <==> len <= max_okm_len(alg),
        r matches Some(okm) ==> okm@ == hkdf_expand_of(
            alg,
            hmac_of(alg, salt@, secret@),
            info@,
            len as nat,
        ) && okm@.len() == len,
{
    let alg = match alg {
        HashAlgorithm::SHA256 => ring::hkdf::HKDF_SHA256,
        HashAlgorithm::SHA384 => ring::hkdf::HKDF_SHA384,
    };
    let prk = ring::hkdf::Salt::new(alg, salt).extract(secret);
    let info = [info];
    let derived = prk.expand(&info, OkmLen(len)).ok()?;
    let mut okm = vec![0u8; len];
    derived.fill(&mut okm).ok()?;
    Some(okm)
}

/// `ring::constant_time::verify_slices_are_equal`: whether the two byte strings are the
/// same, found out in a time that does not depend on what they hold.
#[verifier::external_body]
pub(crate) fn verify_slices_are_equal(a: &[u8], b: &[u8]) -> (r: bool)
    ensures
        r == (a@ == b@),
{
    ring::constant_time::verify_slices_are_equal(a, b).is_ok()
}

/// `ring::rand::SecureRandom::fill` of the system's generator: `len` random bytes, or
/// `None` where the system has none to give.
#[verifier::external_body]
pub(crate) fn random_bytes(len: usize) -> (r: Option<Vec<u8>>)
    ensures
        r matches Some(bytes) ==> bytes@.len() == len,
{
    let mut bytes = vec![0u8; len];
    ring::rand::SecureRandom::fill(&ring::rand::SystemRandom::new(), &mut bytes).ok()?;
    Some(bytes)
}

/// A private key of the Diffie-Hellman exchange, good for one agreement.
#[verifier::external_type_specification]
#[verifier::external_body]
pub struct ExEphemeralPrivateKey(ring::agreement::EphemeralPrivateKey);

/// The groups that the exchange can be run in.
#[derive(Clone, Copy, PartialEq, Eq, Structural, Debug)]
pub enum SupportedKxGroup {
    X25519,
    SECP256R1,
    SECP384R1,
}

impl SupportedKxGroup {
    /// The group's code point.
    pub open spec fn spec_name(self) -> NamedGroup {
        match self {
            SupportedKxGroup::X25519 => NamedGroup::X25519,
            SupportedKxGroup::SECP256R1 => NamedGroup::secp256r1,
            SupportedKxGroup::SECP384R1 => NamedGroup::secp384r1,
        }
    }

    pub fn name(self) -> (r: NamedGroup)
        ensures
            r == self.spec_name(),
    {
        match self {
            SupportedKxGroup::X25519 => NamedGroup::X25519,
            SupportedKxGroup::SECP256R1 => NamedGroup::secp256r1,
            SupportedKxGroup::SECP384R1 => NamedGroup::secp384r1,
        }
    }
}

/// The group of a private key: what `ring::agreement::EphemeralPrivateKey::algorithm` says
/// of it.
pub uninterp spec fn group_of(key: ring::agreement::EphemeralPrivateKey) -> SupportedKxGroup;

/// `ring::agreement::EphemeralPrivateKey::generate` with the system's random numbers: a
/// fresh private key of the group, or `None` where the system has no random numbers to give.
/// Which key of the group it is, is left to chance.
#[verifier::external_body]
pub(crate) fn generate_private_key(group: SupportedKxGroup) -> (r: Option<
    ring::agreement::EphemeralPrivateKey,
>)
    ensures
        r matches Some(key) ==> group_of(key) == group,
{
    let alg = match group {
        SupportedKxGroup::X25519 => &ring::agreement::X25519,
        SupportedKxGroup::SECP256R1 => &ring::agreement::ECDH_P256,
        SupportedKxGroup::SECP384R1 => &ring::agreement::ECDH_P384,
    };
    let rng = ring::rand::SystemRandom::new();
    ring::agreement::EphemeralPrivateKey::generate(alg, &rng).ok()
}

/// Whether an attempt to generate a private key of a group came to this: it is what a call of
/// the generator returned. Nothing else is known to be.
pub closed spec fn generated_in(
    group: SupportedKxGroup,
    outcome: Option<ring::agreement::EphemeralPrivateKey>,
) -> bool {
    call_ensures(generate_private_key, (group,), outcome)
}

/// Generates a private key of a group. There is none only where the attempt came to none.
pub(crate) fn fresh_private_key(group: SupportedKxGroup) -> (r: Option<
    ring::agreement::EphemeralPrivateKey,
>)
    ensures
        generated_in(group, r),
        r matches Some(key) ==> group_of(key) == group,
{
    let generate = generate_private_key;
    generate(group)
}

/// What `EphemeralPrivateKey::compute_public_key` makes of a private key.
pub uninterp spec fn public_key_of(key: ring::agreement::EphemeralPrivateKey) -> Option<Seq<u8>>;

/// `ring::agreement::EphemeralPrivateKey::compute_public_key`: the public key to send to
/// the peer, which depends on the private key alone.
#[verifier::external_body]
pub(crate) fn compute_public_key(key: &ring::agreement::EphemeralPrivateKey) -> (r: Option<Vec<u8>>)
    ensures
        public_key_of(*key) == (match r {
            Some(public) => Some(public@),
            None => None,
        }),
{
    key.compute_public_key().ok().map(|public| public.as_ref().to_vec())
}

/// What `ring::agreement::agree_ephemeral` makes of a private key and a peer's public key.
pub uninterp spec fn agreement_of(
    key: ring::agreement::EphemeralPrivateKey,
    group: SupportedKxGroup,
    peer: Seq<u8>,
) -> Option<Seq<u8>>;

/// `ring::agreement::agree_ephemeral`: the secret shared with the holder of the public key
/// `peer` in `group`, or `None` where that key is not a valid one of the private key's
/// group. The outcome depends on the arguments alone.
#[verifier::external_body]
pub(crate) fn agree(
    key: ring::agreement::EphemeralPrivateKey,
    group: SupportedKxGroup,
    peer: &[u8],
) -> (r: Option<Vec<u8>>)
    ensures
        agreement_of(key, group, peer@) == (match r {
            Some(secret) => Some(secret@),
            None => None,
        }),
{
    let alg = match group {
        SupportedKxGroup::X25519 => &ring::agreement::X25519,
        SupportedKxGroup::SECP256R1 => &ring::agreement::ECDH_P256,
        SupportedKxGroup::SECP384R1 => &ring::agreement::ECDH_P384,
    };
    let peer = ring::agreement::UnparsedPublicKey::new(alg, peer);
    ring::agreement::agree_ephemeral(key, &peer, (), |secret| Ok(secret.to_vec())).ok()
}

/// Whether `ring::signature::Ed25519KeyPair::from_pkcs8` takes a PKCS#8 document for a key.
pub uninterp spec fn is_ed25519_key(pkcs8: Seq<u8>) -> bool;

/// `ring::signature::Ed25519KeyPair::from_pkcs8`: whether it takes a PKCS#8 document for a
/// key, which depends on the document alone.
#[verifier::external_body]
pub(crate) fn ed25519_accepts(pkcs8: &[u8]) -> (r: bool)
    ensures
        r == is_ed25519_key(pkcs8@),
{
    ring::signature::Ed25519KeyPair::from_pkcs8(pkcs8).is_ok()
}

/// What `ring::signature::Ed25519KeyPair::sign` makes of a message under a PKCS#8 key.
pub uninterp spec fn ed25519_signature_of(pkcs8: Seq<u8>, message: Seq<u8>) -> Seq<u8>;

/// `ring::signature::Ed25519KeyPair::sign`, by a key that `from_pkcs8` takes: the signature
/// of a message, which depends on the key and the message alone.
#[verifier::external_body]
pub(crate) fn ed25519_sign(pkcs8: &[u8], message: &[u8]) -> (r: Vec<u8>)
    requires
        is_ed25519_key(pkcs8@),
    ensures
        r@ == ed25519_signature_of(pkcs8@, message@),
{
    let key = ring::signature::Ed25519KeyPair::from_pkcs8(pkcs8).unwrap();
    key.sign(message).as_ref().to_vec()
}

} // verus!
