//! The hash over the messages of a handshake.

use crate::codec::{put_slice, to_vec};
use crate::crypto::{digest, digest_of, HashAlgorithm};
use crate::message::{Message, MessagePayload, MessagePayloadView, MessageView};
use vstd::prelude::*;

verus! {

/// The messages so far, and the hash function once it is known.
#[derive(Debug)]
pub struct HandshakeHash {
    pub alg: Option<HashAlgorithm>,
    pub bytes: Vec<u8>,
}

#[verifier::ext_equal]
pub struct TranscriptView {
    pub alg: Option<HashAlgorithm>,
    pub bytes: Seq<u8>,
}

impl View for HandshakeHash {
    type V = TranscriptView;

    open spec fn view(&self) -> TranscriptView {
        TranscriptView { alg: self.alg, bytes: self.bytes@ }
    }
}

impl TranscriptView {
    /// The transcript with some more bytes.
    pub open spec fn with_bytes(self, more: Seq<u8>) -> TranscriptView {
        TranscriptView { bytes: self.bytes + more, ..self }
    }

    /// The transcript with a message; only handshake messages count.
    pub open spec fn with_message(self, m: MessageView) -> TranscriptView {
        match m.payload {
            MessagePayloadView::Handshake(hmp) => self.with_bytes(hmp.encoding()),
            _ => self,
        }
    }

    /// The hash of the messages so far.
    pub open spec fn current_hash(self) -> Seq<u8> {
        digest_of(self.alg->0, self.bytes)
    }

    /// The hash of the messages so far and `extra`; `alg` stands in for a hash function that
    /// is not known yet.
    pub open spec fn hash_given(self, alg: HashAlgorithm, extra: Seq<u8>) -> Seq<u8> {
        digest_of(
            match self.alg {
                Some(own) => own,
                None => alg,
            },
            self.bytes + extra,
        )
    }
}

impl HandshakeHash {
    pub fn new() -> (r: HandshakeHash)
        ensures
            r@ == (TranscriptView { alg: None, bytes: Seq::empty() }),
    {
        HandshakeHash { alg: None, bytes: Vec::new() }
    }

    /// Settles the hash function. It cannot change afterwards.
    pub fn start_hash(&mut self, alg: HashAlgorithm) -> (r: bool)
        ensures
            r == (old(self)@.alg matches Some(own) ==> own == alg),
            final(self)@ == (TranscriptView {
                alg: Some(
                    match old(self)@.alg {
                        Some(own) => own,
                        None => alg,
                    },
                ),
                ..old(self)@
            }),
    {
        match self.alg {
            Some(own) => own == alg,
            None => {
                self.alg = Some(alg);
                true
            },
        }
    }

    pub fn update_raw(&mut self, bytes: &[u8])
        ensures
            final(self)@ == old(self)@.with_bytes(bytes@),
    {
        put_slice(bytes, &mut self.bytes);
    }

    pub fn add_message(&mut self, m: &Message)
        ensures
            final(self)@ == old(self)@.with_message(m@),
    {
        if let MessagePayload::Handshake(hmp) = &m.payload {
            let bytes: Vec<u8> = hmp.get_encoding();
            self.update_raw(bytes.as_slice());
        }
    }

    pub fn get_hash_given(&self, alg: HashAlgorithm, extra: &[u8]) -> (r: Vec<u8>)
        ensures
            r@ == self@.hash_given(alg, extra@),
    {
        let mut bytes: Vec<u8> = to_vec(self.bytes.as_slice());
        put_slice(extra, &mut bytes);
        let alg: HashAlgorithm = match self.alg {
            Some(own) => own,
            None => alg,
        };
        digest(alg, bytes.as_slice())
    }

    pub fn get_current_hash(&self) -> (r: Vec<u8>)
        requires
            self@.alg is Some,
        ensures
            r@ == self@.current_hash(),
    {
        match self.alg {
            Some(alg) => digest(alg, self.bytes.as_slice()),
            None => {
                assert(false);
                Vec::new()
            },
        }
    }
}

} // verus!
