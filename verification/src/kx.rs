//! The Diffie-Hellman key exchange.

use crate::crypto::{
    agree, agreement_of, compute_public_key, fresh_private_key, generated_in, group_of, public_key_of,
    SupportedKxGroup,
};
use crate::enums::NamedGroup;
use vstd::prelude::*;

verus! {

/// A key exchange that this side has started.
pub struct KeyExchange {
    pub group: SupportedKxGroup,
    pub privkey: ring::agreement::EphemeralPrivateKey,
    pub pubkey: Vec<u8>,
}

#[verifier::ext_equal]
pub struct KeyExchangeView {
    pub group: SupportedKxGroup,
    pub privkey: ring::agreement::EphemeralPrivateKey,
    pub pubkey: Seq<u8>,
}

impl View for KeyExchange {
    type V = KeyExchangeView;

    open spec fn view(&self) -> KeyExchangeView {
        KeyExchangeView { group: self.group, privkey: self.privkey, pubkey: self.pubkey@ }
    }
}

/// What a key exchange ends in.
#[derive(Debug)]
pub struct KeyExchangeResult {
    pub shared_secret: Vec<u8>,
}

/// The first of the groups that goes by a code point.
pub open spec fn group_named(groups: Seq<SupportedKxGroup>, name: NamedGroup) -> Option<
    SupportedKxGroup,
>
    decreases groups.len(),
{
    if groups.len() == 0 {
        None
    } else if groups[0].spec_name() == name {
        Some(groups[0])
    } else {
        group_named(groups.drop_first(), name)
    }
}

/// The key exchange that a private key in a group starts: none without a private key, or
/// without the public key that goes with it.
pub open spec fn started_with(
    group: SupportedKxGroup,
    privkey: Option<ring::agreement::EphemeralPrivateKey>,
) -> Option<KeyExchangeView> {
    match privkey {
        Some(privkey) => match public_key_of(privkey) {
            Some(pubkey) => Some(KeyExchangeView { group, privkey, pubkey }),
            None => None,
        },
        None => None,
    }
}

pub open spec fn exchange_view(kx: Option<KeyExchange>) -> Option<KeyExchangeView> {
    match kx {
        Some(kx) => Some(kx@),
        None => None,
    }
}

impl KeyExchangeView {
    /// The secret shared with the holder of a public key.
    pub open spec fn agreed(self, peer: Seq<u8>) -> Option<Seq<u8>> {
        agreement_of(self.privkey, self.group, peer)
    }
}

impl KeyExchange {
    /// The first of the groups that goes by a code point.
    pub fn find_group(name: NamedGroup, groups: &Vec<SupportedKxGroup>) -> (r: Option<
        SupportedKxGroup,
    >)
        ensures
            r == group_named(groups@, name),
    {
        let mut i: usize = 0;
        assert(groups@.skip(0) =~= groups@);
        while i < groups.len()
            invariant
                i <= groups@.len(),
                group_named(groups@.skip(i as int), name) == group_named(groups@, name),
            decreases groups@.len() - i,
        {
            if groups[i].name() == name {
                return Some(groups[i]);
            }
            assert(groups@.skip(i as int).drop_first() =~= groups@.skip(i + 1));
            i += 1;
        }
        None
    }

    /// Starts a key exchange in a group; `None` only where no key could be generated for it.
    /// Which keys of the group it uses is left to chance.
    pub fn start(group: SupportedKxGroup) -> (r: Option<KeyExchange>)
        ensures
            exists|privkey: Option<ring::agreement::EphemeralPrivateKey>| #[trigger]
                generated_in(group, privkey) && (privkey matches Some(key) ==> group_of(key)
                    == group) && exchange_view(r) == started_with(group, privkey),
            r matches Some(kx) ==> kx@.group == group && group_of(kx@.privkey) == group
                && public_key_of(kx@.privkey) == Some(kx@.pubkey),
    {
        let privkey: Option<ring::agreement::EphemeralPrivateKey> = fresh_private_key(group);
        assert(generated_in(group, privkey));
        Self::start_given(group, privkey)
    }

    /// Starts a key exchange in a group, given the private key that was generated for it, if
    /// there is one.
    pub fn start_given(
        group: SupportedKxGroup,
        privkey: Option<ring::agreement::EphemeralPrivateKey>,
    ) -> (r: Option<KeyExchange>)
        ensures
            exchange_view(r) == started_with(group, privkey),
            match privkey {
                Some(privkey) => match public_key_of(privkey) {
                    Some(pubkey) => r is Some && r->0@ == (KeyExchangeView {
                        group,
                        privkey,
                        pubkey,
                    }),
                    None => r is None,
                },
                None => r is None,
            },
    {
        let privkey: ring::agreement::EphemeralPrivateKey = match privkey {
            Some(key) => key,
            None => return None,
        };
        match compute_public_key(&privkey) {
            Some(pubkey) => Some(KeyExchange { group, privkey, pubkey }),
            None => None,
        }
    }

    /// Finishes the key exchange with the peer's public key; `None` where that key is
    /// refused.
    pub fn complete(self, peer: &[u8]) -> (r: Option<KeyExchangeResult>)
        ensures
            match self@.agreed(peer@) {
                Some(secret) => r is Some && r->0.shared_secret@ == secret,
                None => r is None,
            },
    {
        match agree(self.privkey, self.group, peer) {
            Some(shared_secret) => Some(KeyExchangeResult { shared_secret }),
            None => None,
        }
    }
}

} // verus!
