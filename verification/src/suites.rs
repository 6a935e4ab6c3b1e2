//! The cipher suites that are implemented.

use crate::crypto::HashAlgorithm;
use crate::enums::{CipherSuite, ProtocolVersion};
use vstd::prelude::*;

verus! {

/// A cipher suite that is implemented.
#[allow(non_camel_case_types)]
#[derive(Clone, Copy, PartialEq, Eq, Structural, Debug)]
pub enum SupportedCipherSuite {
    TLS13_CHACHA20_POLY1305_SHA256,
    TLS13_AES_256_GCM_SHA384,
    TLS13_AES_128_GCM_SHA256,
    TLS_ECDHE_ECDSA_WITH_CHACHA20_POLY1305_SHA256,
    TLS_ECDHE_RSA_WITH_CHACHA20_POLY1305_SHA256,
    TLS_ECDHE_ECDSA_WITH_AES_256_GCM_SHA384,
    TLS_ECDHE_ECDSA_WITH_AES_128_GCM_SHA256,
    TLS_ECDHE_RSA_WITH_AES_256_GCM_SHA384,
    TLS_ECDHE_RSA_WITH_AES_128_GCM_SHA256,
}

pub const TLS13_CHACHA20_POLY1305_SHA256: SupportedCipherSuite =
    SupportedCipherSuite::TLS13_CHACHA20_POLY1305_SHA256;

pub const TLS13_AES_256_GCM_SHA384: SupportedCipherSuite =
    SupportedCipherSuite::TLS13_AES_256_GCM_SHA384;

pub const TLS13_AES_128_GCM_SHA256: SupportedCipherSuite =
    SupportedCipherSuite::TLS13_AES_128_GCM_SHA256;

impl SupportedCipherSuite {
    /// The suite's code point.
    pub open spec fn spec_suite(self) -> CipherSuite {
        match self {
            SupportedCipherSuite::TLS13_CHACHA20_POLY1305_SHA256 =>
                CipherSuite::TLS13_CHACHA20_POLY1305_SHA256,
            SupportedCipherSuite::TLS13_AES_256_GCM_SHA384 => CipherSuite::TLS13_AES_256_GCM_SHA384,
            SupportedCipherSuite::TLS13_AES_128_GCM_SHA256 => CipherSuite::TLS13_AES_128_GCM_SHA256,
            SupportedCipherSuite::TLS_ECDHE_ECDSA_WITH_CHACHA20_POLY1305_SHA256 =>
                CipherSuite::TLS_ECDHE_ECDSA_WITH_CHACHA20_POLY1305_SHA256,
            SupportedCipherSuite::TLS_ECDHE_RSA_WITH_CHACHA20_POLY1305_SHA256 =>
                CipherSuite::TLS_ECDHE_RSA_WITH_CHACHA20_POLY1305_SHA256,
            SupportedCipherSuite::TLS_ECDHE_ECDSA_WITH_AES_256_GCM_SHA384 =>
                CipherSuite::TLS_ECDHE_ECDSA_WITH_AES_256_GCM_SHA384,
            SupportedCipherSuite::TLS_ECDHE_ECDSA_WITH_AES_128_GCM_SHA256 =>
                CipherSuite::TLS_ECDHE_ECDSA_WITH_AES_128_GCM_SHA256,
            SupportedCipherSuite::TLS_ECDHE_RSA_WITH_AES_256_GCM_SHA384 =>
                CipherSuite::TLS_ECDHE_RSA_WITH_AES_256_GCM_SHA384,
            SupportedCipherSuite::TLS_ECDHE_RSA_WITH_AES_128_GCM_SHA256 =>
                CipherSuite::TLS_ECDHE_RSA_WITH_AES_128_GCM_SHA256,
        }
    }

    pub fn suite(self) -> (r: CipherSuite)
        ensures
            r == self.spec_suite(),
    {
        match self {
            SupportedCipherSuite::TLS13_CHACHA20_POLY1305_SHA256 =>
                CipherSuite::TLS13_CHACHA20_POLY1305_SHA256,
            SupportedCipherSuite::TLS13_AES_256_GCM_SHA384 => CipherSuite::TLS13_AES_256_GCM_SHA384,
            SupportedCipherSuite::TLS13_AES_128_GCM_SHA256 => CipherSuite::TLS13_AES_128_GCM_SHA256,
            SupportedCipherSuite::TLS_ECDHE_ECDSA_WITH_CHACHA20_POLY1305_SHA256 =>
                CipherSuite::TLS_ECDHE_ECDSA_WITH_CHACHA20_POLY1305_SHA256,
            SupportedCipherSuite::TLS_ECDHE_RSA_WITH_CHACHA20_POLY1305_SHA256 =>
                CipherSuite::TLS_ECDHE_RSA_WITH_CHACHA20_POLY1305_SHA256,
            SupportedCipherSuite::TLS_ECDHE_ECDSA_WITH_AES_256_GCM_SHA384 =>
                CipherSuite::TLS_ECDHE_ECDSA_WITH_AES_256_GCM_SHA384,
            SupportedCipherSuite::TLS_ECDHE_ECDSA_WITH_AES_128_GCM_SHA256 =>
                CipherSuite::TLS_ECDHE_ECDSA_WITH_AES_128_GCM_SHA256,
            SupportedCipherSuite::TLS_ECDHE_RSA_WITH_AES_256_GCM_SHA384 =>
                CipherSuite::TLS_ECDHE_RSA_WITH_AES_256_GCM_SHA384,
            SupportedCipherSuite::TLS_ECDHE_RSA_WITH_AES_128_GCM_SHA256 =>
                CipherSuite::TLS_ECDHE_RSA_WITH_AES_128_GCM_SHA256,
        }
    }

    /// The suite's hash function, which its key schedule uses too.
    pub open spec fn spec_hash(self) -> HashAlgorithm {
        match self {
            SupportedCipherSuite::TLS13_AES_256_GCM_SHA384
            | SupportedCipherSuite::TLS_ECDHE_ECDSA_WITH_AES_256_GCM_SHA384
            | SupportedCipherSuite::TLS_ECDHE_RSA_WITH_AES_256_GCM_SHA384 => HashAlgorithm::SHA384,
            _ => HashAlgorithm::SHA256,
        }
    }

    pub fn get_hash(self) -> (r: HashAlgorithm)
        ensures
            r == self.spec_hash(),
    {
        match self {
            SupportedCipherSuite::TLS13_AES_256_GCM_SHA384
            | SupportedCipherSuite::TLS_ECDHE_ECDSA_WITH_AES_256_GCM_SHA384
            | SupportedCipherSuite::TLS_ECDHE_RSA_WITH_AES_256_GCM_SHA384 => HashAlgorithm::SHA384,
            _ => HashAlgorithm::SHA256,
        }
    }

    /// The length of a key of the suite's cipher, in bytes.
    pub open spec fn spec_key_len(self) -> nat {
        match self {
            SupportedCipherSuite::TLS13_AES_128_GCM_SHA256
            | SupportedCipherSuite::TLS_ECDHE_ECDSA_WITH_AES_128_GCM_SHA256
            | SupportedCipherSuite::TLS_ECDHE_RSA_WITH_AES_128_GCM_SHA256 => 16,
            _ => 32,
        }
    }

    pub fn key_len(self) -> (r: usize)
        ensures
            r == self.spec_key_len(),
    {
        match self {
            SupportedCipherSuite::TLS13_AES_128_GCM_SHA256
            | SupportedCipherSuite::TLS_ECDHE_ECDSA_WITH_AES_128_GCM_SHA256
            | SupportedCipherSuite::TLS_ECDHE_RSA_WITH_AES_128_GCM_SHA256 => 16,
            _ => 32,
        }
    }

    /// Whether the suite belongs to TLS1.3; the others belong to TLS1.2.
    pub open spec fn is_tls13(self) -> bool {
        match self {
            SupportedCipherSuite::TLS13_CHACHA20_POLY1305_SHA256
            | SupportedCipherSuite::TLS13_AES_256_GCM_SHA384
            | SupportedCipherSuite::TLS13_AES_128_GCM_SHA256 => true,
            _ => false,
        }
    }

    /// Whether the suite can be used in a version of the protocol.
    pub fn usable_for_version(self, version: ProtocolVersion) -> (r: bool)
        ensures
            r == if self.is_tls13() {
                version == ProtocolVersion::TLSv1_3
            } else {
                version == ProtocolVersion::TLSv1_2
            },
    {
        match self {
            SupportedCipherSuite::TLS13_CHACHA20_POLY1305_SHA256
            | SupportedCipherSuite::TLS13_AES_256_GCM_SHA384
            | SupportedCipherSuite::TLS13_AES_128_GCM_SHA256 => version == ProtocolVersion::TLSv1_3,
            _ => version == ProtocolVersion::TLSv1_2,
        }
    }

    /// Whether a session under this suite can be resumed under `new_suite`: in TLS1.3 the
    /// hash must be the same, in TLS1.2 the suite itself, and the versions never mix.
    pub open spec fn spec_can_resume_to(self, new_suite: SupportedCipherSuite) -> bool {
        if self.is_tls13() && new_suite.is_tls13() {
            self.spec_hash() == new_suite.spec_hash()
        } else {
            self == new_suite
        }
    }

    pub fn can_resume_to(self, new_suite: SupportedCipherSuite) -> (r: bool)
        ensures
            r == self.spec_can_resume_to(new_suite),
    {
        if self.usable_for_version(ProtocolVersion::TLSv1_3) && new_suite.usable_for_version(
            ProtocolVersion::TLSv1_3,
        ) {
            self.get_hash() == new_suite.get_hash()
        } else if self.usable_for_version(ProtocolVersion::TLSv1_2)
            && new_suite.usable_for_version(ProtocolVersion::TLSv1_2) {
            self == new_suite
        } else {
            false
        }
    }
}

} // verus!
