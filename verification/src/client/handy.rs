//! Ready-made stores and resolvers.

use super::{Hooks, ResolvesClientCert, StoresClientSessions};
use crate::base::PayloadU16;
use crate::codec::{same_bytes, to_vec, views};
use crate::enums::SignatureScheme;
use crate::key::{duplicate_chain, Certificate};
use crate::sign::{CertifiedKey, CertifiedKeyView, Ed25519SigningKey, SigningKey};
use crate::verify::PresetVerifier;
use vstd::prelude::*;

verus! {

/// A store that keeps nothing.
#[derive(Clone, Copy, PartialEq, Eq, Structural, Debug)]
pub struct NoClientSessionStorage {}

impl View for NoClientSessionStorage {
    type V = NoClientSessionStorage;

    open spec fn view(&self) -> NoClientSessionStorage {
        *self
    }
}

impl StoresClientSessions for NoClientSessionStorage {
    open spec fn stored(store: NoClientSessionStorage, key: Seq<u8>) -> Option<Seq<u8>> {
        None
    }

    open spec fn after_put(store: NoClientSessionStorage, key: Seq<u8>, value: Seq<u8>) -> (
        NoClientSessionStorage,
        bool,
    ) {
        (store, false)
    }

    fn put(&mut self, key: Vec<u8>, value: Vec<u8>) -> (r: bool) {
        assert(Self::after_put(*self, key@, value@) == (*self, false));
        false
    }

    fn get(&self, key: &[u8]) -> (r: Option<Vec<u8>>) {
        assert(Self::stored(self@, key@) is None);
        None
    }
}

/// A value in memory.
#[derive(Debug, PartialEq, Eq)]
pub struct StoredValue {
    pub key: Vec<u8>,
    pub value: Vec<u8>,
}

#[verifier::ext_equal]
pub struct StoredValueView {
    pub key: Seq<u8>,
    pub value: Seq<u8>,
}

impl View for StoredValue {
    type V = StoredValueView;

    open spec fn view(&self) -> StoredValueView {
        StoredValueView { key: self.key@, value: self.value@ }
    }
}

/// A store in memory. What was stored last comes last.
#[derive(Debug)]
pub struct ClientSessionMemoryCache {
    pub values: Vec<StoredValue>,
}

impl View for ClientSessionMemoryCache {
    type V = Seq<StoredValueView>;

    open spec fn view(&self) -> Seq<StoredValueView> {
        views(self.values@)
    }
}

/// What was stored last under a key.
pub open spec fn last_stored(values: Seq<StoredValueView>, key: Seq<u8>) -> Option<Seq<u8>>
    decreases values.len(),
{
    if values.len() == 0 {
        None
    } else if values.last().key == key {
        Some(values.last().value)
    } else {
        last_stored(values.drop_last(), key)
    }
}

impl ClientSessionMemoryCache {
    pub fn new() -> (r: ClientSessionMemoryCache)
        ensures
            r@ == Seq::<StoredValueView>::empty(),
    {
        let r = ClientSessionMemoryCache { values: Vec::new() };
        assert(r@ =~= Seq::<StoredValueView>::empty());
        r
    }
}

impl StoresClientSessions for ClientSessionMemoryCache {
    open spec fn stored(store: Seq<StoredValueView>, key: Seq<u8>) -> Option<Seq<u8>> {
        last_stored(store, key)
    }

    open spec fn after_put(store: Seq<StoredValueView>, key: Seq<u8>, value: Seq<u8>) -> (
        Seq<StoredValueView>,
        bool,
    ) {
        (store.push(StoredValueView { key, value }), true)
    }

    fn put(&mut self, key: Vec<u8>, value: Vec<u8>) -> (r: bool) {
        let ghost before = self.values@;
        let ghost pair = StoredValueView { key: key@, value: value@ };
        self.values.push(StoredValue { key, value });
        assert(self@ =~= views(before).push(pair));
        assert(Self::after_put(views(before), pair.key, pair.value) == (self@, true));
        true
    }

    fn get(&self, key: &[u8]) -> (r: Option<Vec<u8>>) {
        let mut n: usize = self.values.len();
        assert(Self::stored(self@, key@) == last_stored(self@, key@));
        assert(self@.take(n as int) =~= self@);
        while n > 0
            invariant
                n <= self.values@.len(),
                Self::stored(self@, key@) == last_stored(self@.take(n as int), key@),
            decreases n,
        {
            assert(self@.take(n as int).last() == self.values@[n - 1]@);
            assert(self@.take(n as int).drop_last() =~= self@.take(n - 1));
            if same_bytes(self.values[n - 1].key.as_slice(), key) {
                return Some(to_vec(self.values[n - 1].value.as_slice()));
            }
            n -= 1;
        }
        None
    }
}

/// What is stored in memory is what is read back under its key, and nothing else is
/// touched.
pub proof fn memory_cache_keeps_values(
    store: Seq<StoredValueView>,
    key: Seq<u8>,
    value: Seq<u8>,
    other: Seq<u8>,
)
    ensures
        ({
            let (after, kept) = ClientSessionMemoryCache::after_put(store, key, value);
            &&& kept
            &&& ClientSessionMemoryCache::stored(after, key) == Some(value)
            &&& other != key ==> ClientSessionMemoryCache::stored(after, other)
                == ClientSessionMemoryCache::stored(store, other)
        }),
{
    let after = store.push(StoredValueView { key, value });
    assert(after.drop_last() =~= store);
}

/// A client without a certificate.
#[derive(Clone, Copy, PartialEq, Eq, Structural, Debug)]
pub struct FailResolveClientCert {}

impl View for FailResolveClientCert {
    type V = FailResolveClientCert;

    open spec fn view(&self) -> FailResolveClientCert {
        *self
    }
}

impl<K: SigningKey> ResolvesClientCert<K> for FailResolveClientCert {
    open spec fn resolved(
        resolver: FailResolveClientCert,
        authorities: Seq<Seq<u8>>,
        schemes: Seq<SignatureScheme>,
    ) -> Option<CertifiedKeyView<K>> {
        None
    }

    fn resolve(&self, authorities: &Vec<PayloadU16>, schemes: &Vec<SignatureScheme>) -> (r: Option<
        CertifiedKey<K>,
    >) {
        assert(<Self as ResolvesClientCert<K>>::resolved(self@, views(authorities@), schemes@)
            is None);
        None
    }
}

/// A client with one certificate, whose key is an Ed25519 key.
#[derive(Debug)]
pub struct AlwaysResolvesClientCert {
    pub cert: Vec<Certificate>,
    pub key: Ed25519SigningKey,
}

impl View for AlwaysResolvesClientCert {
    type V = CertifiedKeyView<Ed25519SigningKey>;

    open spec fn view(&self) -> CertifiedKeyView<Ed25519SigningKey> {
        CertifiedKeyView { cert: views(self.cert@), key: self.key@ }
    }
}

impl ResolvesClientCert<Ed25519SigningKey> for AlwaysResolvesClientCert {
    open spec fn resolved(
        resolver: CertifiedKeyView<Ed25519SigningKey>,
        authorities: Seq<Seq<u8>>,
        schemes: Seq<SignatureScheme>,
    ) -> Option<CertifiedKeyView<Ed25519SigningKey>> {
        Some(resolver)
    }

    fn resolve(&self, authorities: &Vec<PayloadU16>, schemes: &Vec<SignatureScheme>) -> (r: Option<
        CertifiedKey<Ed25519SigningKey>,
    >) {
        assert(Self::resolved(self@, views(authorities@), schemes@) == Some(self@));
        Some(
            CertifiedKey { cert: duplicate_chain(&self.cert), key: self.key.duplicate() },
        )
    }
}

/// A client without a certificate, that keeps its sessions in memory.
#[derive(Debug)]
pub struct AnonymousClient {}

impl Hooks for AnonymousClient {
    type Store = ClientSessionMemoryCache;

    type Key = Ed25519SigningKey;

    type Resolver = FailResolveClientCert;

    type Verifier = PresetVerifier;
}

/// A client with an Ed25519 certificate, that keeps nothing of its sessions.
#[derive(Debug)]
pub struct AuthenticatedClient {}

impl Hooks for AuthenticatedClient {
    type Store = NoClientSessionStorage;

    type Key = Ed25519SigningKey;

    type Resolver = AlwaysResolvesClientCert;

    type Verifier = PresetVerifier;
}

} // verus!
