//! The client's side of a session.

pub mod common;
pub mod handy;
pub mod hs;
pub mod tls13;

use crate::base::{PayloadU16, PayloadU8};
use crate::codec::views;
use crate::crypto::SupportedKxGroup;
use crate::enums::{AlertDescription, SignatureScheme};
use crate::key::Certificate;
use crate::key_log::{KeyLog, KeyLogLabel, KeyLogView};
use crate::key_schedule::TrafficKeysView;
use crate::message::MessageView;
use crate::session::{CommonView, Protocol, SessionCommon};
use crate::sign::{CertifiedKey, CertifiedKeyView, SigningKey};
use crate::suites::SupportedCipherSuite;
use crate::verify::ServerCertVerifier;
use vstd::prelude::*;

verus! {

/// Where a client keeps what it may need in later sessions.
pub trait StoresClientSessions: View + Sized {
    /// What is stored under a key.
    spec fn stored(store: Self::V, key: Seq<u8>) -> Option<Seq<u8>>;

    /// The store after it was asked to keep a value, and whether it did.
    spec fn after_put(store: Self::V, key: Seq<u8>, value: Seq<u8>) -> (Self::V, bool);

    fn put(&mut self, key: Vec<u8>, value: Vec<u8>) -> (r: bool)
        ensures
            (final(self)@, r) == Self::after_put(old(self)@, key@, value@),
    ;

    fn get(&self, key: &[u8]) -> (r: Option<Vec<u8>>)
        ensures
            match Self::stored(self@, key@) {
                Some(value) => r is Some && r->0@ == value,
                None => r is None,
            },
    ;
}

/// What picks a certificate for the client to show.
pub trait ResolvesClientCert<K: SigningKey>: View + Sized {
    /// The certificate and key for a server that names these authorities and schemes.
    spec fn resolved(
        resolver: Self::V,
        authorities: Seq<Seq<u8>>,
        schemes: Seq<SignatureScheme>,
    ) -> Option<CertifiedKeyView<K>>;

    fn resolve(&self, authorities: &Vec<PayloadU16>, schemes: &Vec<SignatureScheme>) -> (r: Option<
        CertifiedKey<K>,
    >)
        ensures
            match Self::resolved(self@, views(authorities@), schemes@) {
                Some(certkey) => r is Some && r->0@ == certkey,
                None => r is None,
            },
    ;
}

/// What an application brings to its sessions.
pub trait Hooks: Sized {
    type Store: StoresClientSessions;

    type Key: SigningKey;

    type Resolver: ResolvesClientCert<Self::Key>;

    type Verifier: ServerCertVerifier;
}

/// What sessions are set up with.
pub struct ClientConfig<T: Hooks> {
    pub kx_groups: Vec<SupportedKxGroup>,
    pub alpn_protocols: Vec<PayloadU8>,
    pub enable_early_data: bool,
    pub session_persistence: T::Store,
    pub client_auth_cert_resolver: T::Resolver,
    pub verifier: T::Verifier,
    pub key_log: KeyLog,
}

#[verifier::ext_equal]
pub struct ConfigView<T: Hooks> {
    pub kx_groups: Seq<SupportedKxGroup>,
    pub alpn_protocols: Seq<Seq<u8>>,
    pub enable_early_data: bool,
    pub store: <T::Store as View>::V,
    pub resolver: <T::Resolver as View>::V,
    pub verifier: <T::Verifier as View>::V,
    pub key_log: KeyLogView,
}

impl<T: Hooks> View for ClientConfig<T> {
    type V = ConfigView<T>;

    open spec fn view(&self) -> ConfigView<T> {
        ConfigView {
            kx_groups: self.kx_groups@,
            alpn_protocols: views(self.alpn_protocols@),
            enable_early_data: self.enable_early_data,
            store: self.session_persistence@,
            resolver: self.client_auth_cert_resolver@,
            verifier: self.verifier@,
            key_log: self.key_log@,
        }
    }
}

/// What has become of early data.
#[derive(Clone, Copy, PartialEq, Eq, Structural, Debug)]
pub enum EarlyDataState {
    Disabled,
    Ready,
    Accepted,
    AcceptedFinished,
    Rejected,
}

/// Data that is sent along with the first message.
#[derive(Clone, Copy, PartialEq, Eq, Structural, Debug)]
pub struct EarlyData {
    pub state: EarlyDataState,
    pub left: usize,
}

impl EarlyData {
    pub fn new() -> (r: EarlyData)
        ensures
            r == (EarlyData { state: EarlyDataState::Disabled, left: 0 }),
    {
        EarlyData { state: EarlyDataState::Disabled, left: 0 }
    }

    pub open spec fn spec_is_enabled(self) -> bool {
        self.state == EarlyDataState::Ready || self.state == EarlyDataState::Accepted
    }

    pub open spec fn with_state(self, state: EarlyDataState) -> EarlyData {
        EarlyData { state, ..self }
    }

    pub fn is_enabled(&self) -> (r: bool)
        ensures
            r == self.spec_is_enabled(),
    {
        self.state == EarlyDataState::Ready || self.state == EarlyDataState::Accepted
    }

    /// Allows that much early data.
    pub fn enable(&mut self, max_data: usize)
        requires
            old(self).state == EarlyDataState::Disabled,
        ensures
            *final(self) == (EarlyData { state: EarlyDataState::Ready, left: max_data }),
    {
        self.state = EarlyDataState::Ready;
        self.left = max_data;
    }

    pub fn rejected(&mut self)
        ensures
            *final(self) == old(self).with_state(EarlyDataState::Rejected),
    {
        self.state = EarlyDataState::Rejected;
    }

    pub fn accepted(&mut self)
        requires
            old(self).state == EarlyDataState::Ready,
        ensures
            *final(self) == old(self).with_state(EarlyDataState::Accepted),
    {
        self.state = EarlyDataState::Accepted;
    }

    pub fn finished(&mut self)
        requires
            old(self).state == EarlyDataState::Accepted,
        ensures
            *final(self) == old(self).with_state(EarlyDataState::AcceptedFinished),
    {
        self.state = EarlyDataState::AcceptedFinished;
    }
}

/// A client's session.
pub struct ClientSession<T: Hooks> {
    pub config: ClientConfig<T>,
    pub common: SessionCommon,
    pub server_cert_chain: Vec<Certificate>,
    pub resumption_ciphersuite: Option<SupportedCipherSuite>,
    pub early_data: EarlyData,
}

#[verifier::ext_equal]
pub struct SessionView<T: Hooks> {
    pub config: ConfigView<T>,
    pub common: CommonView,
    pub server_cert_chain: Seq<Seq<u8>>,
    pub resumption_ciphersuite: Option<SupportedCipherSuite>,
    pub early_data: EarlyData,
}

impl<T: Hooks> View for ClientSession<T> {
    type V = SessionView<T>;

    open spec fn view(&self) -> SessionView<T> {
        SessionView {
            config: self.config@,
            common: self.common@,
            server_cert_chain: views(self.server_cert_chain@),
            resumption_ciphersuite: self.resumption_ciphersuite,
            early_data: self.early_data,
        }
    }
}

impl<T: Hooks> SessionView<T> {
    /// A fatal alert has been sent.
    pub open spec fn alerted(self, description: AlertDescription) -> SessionView<T> {
        SessionView { common: self.common.alerted(description), ..self }
    }

    /// A message has been sent.
    pub open spec fn with_sent(self, m: MessageView, encrypted: bool) -> SessionView<T> {
        SessionView { common: self.common.with_sent(m, encrypted), ..self }
    }

    /// What is sent from now on is protected with these keys.
    pub open spec fn with_encrypter(self, keys: TrafficKeysView) -> SessionView<T> {
        SessionView { common: self.common.with_encrypter(keys), ..self }
    }

    /// What is received from now on is protected with these keys.
    pub open spec fn with_decrypter(self, keys: TrafficKeysView) -> SessionView<T> {
        SessionView { common: self.common.with_decrypter(keys), ..self }
    }

    /// A secret has been logged.
    pub open spec fn logged(
        self,
        label: KeyLogLabel,
        client_random: Seq<u8>,
        secret: Seq<u8>,
    ) -> SessionView<T> {
        SessionView {
            config: ConfigView {
                key_log: self.config.key_log.logged(label, client_random, secret),
                ..self.config
            },
            ..self
        }
    }

    /// Whether early data is being sent.
    pub open spec fn with_early_traffic(self, early_traffic: bool) -> SessionView<T> {
        SessionView { common: CommonView { early_traffic, ..self.common }, ..self }
    }

    /// What has become of early data.
    pub open spec fn with_early_data(self, state: EarlyDataState) -> SessionView<T> {
        SessionView { early_data: self.early_data.with_state(state), ..self }
    }

    /// Something has been given to the store to keep.
    pub open spec fn with_put(self, key: Seq<u8>, value: Seq<u8>) -> SessionView<T> {
        SessionView {
            config: ConfigView {
                store: T::Store::after_put(self.config.store, key, value).0,
                ..self.config
            },
            ..self
        }
    }
}

impl<T: Hooks> ClientSession<T> {
    pub fn new(config: ClientConfig<T>, protocol: Protocol) -> (r: ClientSession<T>)
        ensures
            r@ == (SessionView {
                config: config@,
                common: CommonView::start(protocol),
                server_cert_chain: Seq::empty(),
                resumption_ciphersuite: None,
                early_data: EarlyData { state: EarlyDataState::Disabled, left: 0 },
            }),
    {
        let r = ClientSession {
            config,
            common: SessionCommon::new(protocol),
            server_cert_chain: Vec::new(),
            resumption_ciphersuite: None,
            early_data: EarlyData::new(),
        };
        assert(r@.server_cert_chain =~= Seq::<Seq<u8>>::empty());
        r
    }
}

} // verus!
