//! The key schedule of TLS1.3: the chain of secrets from which all keys of a session come.

use crate::codec::{be16, put_slice, put_u16, to_vec};
use crate::crypto::{
    digest, digest_of, hkdf_expand, hkdf_expand_of, hkdf_extract_expand, hmac_of, hmac_sign,
    max_okm_len, HashAlgorithm,
};
use crate::error::{TlsError, TlsErrorView};
use crate::key_log::{KeyLog, KeyLogLabel};
use crate::suites::SupportedCipherSuite;
use vstd::prelude::*;

verus! {

/// What a secret is for.
#[derive(Clone, Copy, PartialEq, Eq, Structural, Debug)]
pub enum Label {
    /// For the key that binds a ticket to a message.
    Binder,
    /// For early data.
    ClientEarlyTraffic,
    /// For the client's handshake messages.
    ClientHandshakeTraffic,
    /// For the server's handshake messages.
    ServerHandshakeTraffic,
    /// For the client's data.
    ClientApplicationTraffic,
    /// For the server's data.
    ServerApplicationTraffic,
    /// For secrets for the application.
    ExporterMaster,
    /// For the secret that tickets come from.
    ResumptionMaster,
    /// For the salt of the next stage.
    Derived,
    /// For the key that a handshake is signed with.
    Finished,
    /// For the next traffic secret.
    TrafficUpdate,
    /// For the secret of one ticket.
    Resumption,
    /// For what the application is given.
    Exporter,
    /// For a record key.
    Key,
    /// For a record nonce.
    Iv,
}

impl Label {
    /// The label's text.
    pub open spec fn spec_text(self) -> Seq<u8> {
        match self {
            // "res binder"
            Label::Binder => seq![0x72u8, 0x65, 0x73, 0x20, 0x62, 0x69, 0x6e, 0x64, 0x65, 0x72],
            // "c e traffic"
            Label::ClientEarlyTraffic => seq![
                0x63u8, 0x20, 0x65, 0x20, 0x74, 0x72, 0x61, 0x66, 0x66, 0x69, 0x63
            ],
            // "c hs traffic"
            Label::ClientHandshakeTraffic => seq![
                0x63u8, 0x20, 0x68, 0x73, 0x20, 0x74, 0x72, 0x61, 0x66, 0x66, 0x69, 0x63
            ],
            // "s hs traffic"
            Label::ServerHandshakeTraffic => seq![
                0x73u8, 0x20, 0x68, 0x73, 0x20, 0x74, 0x72, 0x61, 0x66, 0x66, 0x69, 0x63
            ],
            // "c ap traffic"
            Label::ClientApplicationTraffic => seq![
                0x63u8, 0x20, 0x61, 0x70, 0x20, 0x74, 0x72, 0x61, 0x66, 0x66, 0x69, 0x63
            ],
            // "s ap traffic"
            Label::ServerApplicationTraffic => seq![
                0x73u8, 0x20, 0x61, 0x70, 0x20, 0x74, 0x72, 0x61, 0x66, 0x66, 0x69, 0x63
            ],
            // "exp master"
            Label::ExporterMaster => seq![
                0x65u8, 0x78, 0x70, 0x20, 0x6d, 0x61, 0x73, 0x74, 0x65, 0x72
            ],
            // "res master"
            Label::ResumptionMaster => seq![
                0x72u8, 0x65, 0x73, 0x20, 0x6d, 0x61, 0x73, 0x74, 0x65, 0x72
            ],
            // "derived"
            Label::Derived => seq![0x64u8, 0x65, 0x72, 0x69, 0x76, 0x65, 0x64],
            // "finished"
            Label::Finished => seq![0x66u8, 0x69, 0x6e, 0x69, 0x73, 0x68, 0x65, 0x64],
            // "traffic upd"
            Label::TrafficUpdate => seq![
                0x74u8, 0x72, 0x61, 0x66, 0x66, 0x69, 0x63, 0x20, 0x75, 0x70, 0x64
            ],
            // "resumption"
            Label::Resumption => seq![0x72u8, 0x65, 0x73, 0x75, 0x6d, 0x70, 0x74, 0x69, 0x6f, 0x6e],
            // "exporter"
            Label::Exporter => seq![0x65u8, 0x78, 0x70, 0x6f, 0x72, 0x74, 0x65, 0x72],
            // "key"
            Label::Key => seq![0x6bu8, 0x65, 0x79],
            // "iv"
            Label::Iv => seq![0x69u8, 0x76],
        }
    }

    pub fn text(self) -> (r: Vec<u8>)
        ensures
            r@ == self.spec_text(),
    {
        let r: Vec<u8> = match self {
            Label::Binder => vec![0x72u8, 0x65, 0x73, 0x20, 0x62, 0x69, 0x6e, 0x64, 0x65, 0x72],
            Label::ClientEarlyTraffic => vec![
                0x63u8, 0x20, 0x65, 0x20, 0x74, 0x72, 0x61, 0x66, 0x66, 0x69, 0x63
            ],
            Label::ClientHandshakeTraffic => vec![
                0x63u8, 0x20, 0x68, 0x73, 0x20, 0x74, 0x72, 0x61, 0x66, 0x66, 0x69, 0x63
            ],
            Label::ServerHandshakeTraffic => vec![
                0x73u8, 0x20, 0x68, 0x73, 0x20, 0x74, 0x72, 0x61, 0x66, 0x66, 0x69, 0x63
            ],
            Label::ClientApplicationTraffic => vec![
                0x63u8, 0x20, 0x61, 0x70, 0x20, 0x74, 0x72, 0x61, 0x66, 0x66, 0x69, 0x63
            ],
            Label::ServerApplicationTraffic => vec![
                0x73u8, 0x20, 0x61, 0x70, 0x20, 0x74, 0x72, 0x61, 0x66, 0x66, 0x69, 0x63
            ],
            Label::ExporterMaster => vec![
                0x65u8, 0x78, 0x70, 0x20, 0x6d, 0x61, 0x73, 0x74, 0x65, 0x72
            ],
            Label::ResumptionMaster => vec![
                0x72u8, 0x65, 0x73, 0x20, 0x6d, 0x61, 0x73, 0x74, 0x65, 0x72
            ],
            Label::Derived => vec![0x64u8, 0x65, 0x72, 0x69, 0x76, 0x65, 0x64],
            Label::Finished => vec![0x66u8, 0x69, 0x6e, 0x69, 0x73, 0x68, 0x65, 0x64],
            Label::TrafficUpdate => vec![
                0x74u8, 0x72, 0x61, 0x66, 0x66, 0x69, 0x63, 0x20, 0x75, 0x70, 0x64
            ],
            Label::Resumption => vec![0x72u8, 0x65, 0x73, 0x75, 0x6d, 0x70, 0x74, 0x69, 0x6f, 0x6e],
            Label::Exporter => vec![0x65u8, 0x78, 0x70, 0x6f, 0x72, 0x74, 0x65, 0x72],
            Label::Key => vec![0x6bu8, 0x65, 0x79],
            Label::Iv => vec![0x69u8, 0x76],
        };
        assert(r@ =~= self.spec_text());
        r
    }
}

/// The text in front of every label: "tls13 ".
pub open spec fn label_prefix() -> Seq<u8> {
    seq![0x74u8, 0x6c, 0x73, 0x31, 0x33, 0x20]
}

/// What HKDF is told about the `len` bytes that it is to derive: their number, the label
/// and the context, the latter two behind their lengths, of which one byte is kept.
pub open spec fn hkdf_info(label: Seq<u8>, context: Seq<u8>, len: nat) -> Seq<u8> {
    be16(len as u16) + seq![((label.len() % 256 + 6) % 256) as u8] + label_prefix() + label
        + seq![context.len() as u8] + context
}

fn build_hkdf_info(label: &[u8], context: &[u8], len: usize) -> (r: Vec<u8>)
    ensures
        r@ == hkdf_info(label@, context@, len as nat),
{
    let mut info: Vec<u8> = Vec::new();
    put_u16(len as u16, &mut info);
    info.push(((label.len() % 256 + 6) % 256) as u8);
    let prefix: [u8; 6] = [0x74, 0x6c, 0x73, 0x31, 0x33, 0x20];
    assert(prefix@ =~= label_prefix());
    put_slice(&prefix, &mut info);
    put_slice(label, &mut info);
    info.push(context.len() as u8);
    put_slice(context, &mut info);
    assert(info@ =~= hkdf_info(label@, context@, len as nat));
    info
}

/// `len` bytes derived from a secret.
pub open spec fn expand_label(
    alg: HashAlgorithm,
    secret: Seq<u8>,
    label: Seq<u8>,
    context: Seq<u8>,
    len: nat,
) -> Seq<u8> {
    hkdf_expand_of(alg, secret, hkdf_info(label, context, len), len)
}

/// Derives `len` bytes from a secret, where HKDF can derive that many.
fn hkdf_expand_label(
    alg: HashAlgorithm,
    secret: &[u8],
    label: &[u8],
    context: &[u8],
    len: usize,
) -> (r: Option<Vec<u8>>)
    ensures
        r is Some <==> len <= max_okm_len(alg),
        r matches Some(okm) ==> okm@ == expand_label(alg, secret@, label@, context@, len as nat)
            && okm@.len() == len,
{
    let info: Vec<u8> = build_hkdf_info(label, context, len);
    hkdf_expand(alg, secret, info.as_slice(), len)
}

/// Derives a few bytes from a secret.
fn expand_few(
    alg: HashAlgorithm,
    secret: &[u8],
    label: Label,
    context: &[u8],
    len: usize,
) -> (r: Vec<u8>)
    requires
        len <= 48,
    ensures
        r@ == expand_label(alg, secret@, label.spec_text(), context@, len as nat),
        r@.len() == len,
{
    match hkdf_expand_label(alg, secret, label.text().as_slice(), context, len) {
        Some(okm) => okm,
        None => {
            assert(false);
            Vec::new()
        },
    }
}

/// The length of a record nonce.
pub const NONCE_LEN: usize = 12;

/// What records are protected with.
#[derive(Debug, PartialEq, Eq)]
pub struct TrafficKeys {
    pub suite: SupportedCipherSuite,
    pub key: Vec<u8>,
    pub iv: Vec<u8>,
}

#[verifier::ext_equal]
pub struct TrafficKeysView {
    pub suite: SupportedCipherSuite,
    pub key: Seq<u8>,
    pub iv: Seq<u8>,
}

impl View for TrafficKeys {
    type V = TrafficKeysView;

    open spec fn view(&self) -> TrafficKeysView {
        TrafficKeysView { suite: self.suite, key: self.key@, iv: self.iv@ }
    }
}

/// The record protection that comes of a traffic secret.
pub open spec fn traffic_keys(suite: SupportedCipherSuite, secret: Seq<u8>) -> TrafficKeysView {
    TrafficKeysView {
        suite,
        key: expand_label(
            suite.spec_hash(),
            secret,
            Label::Key.spec_text(),
            Seq::empty(),
            suite.spec_key_len(),
        ),
        iv: expand_label(
            suite.spec_hash(),
            secret,
            Label::Iv.spec_text(),
            Seq::empty(),
            NONCE_LEN as nat,
        ),
    }
}

/// The record protection that comes of a traffic secret, on the reading and the writing side
/// alike.
pub fn derive_traffic_keys(suite: SupportedCipherSuite, secret: &[u8]) -> (r: TrafficKeys)
    ensures
        r@ == traffic_keys(suite, secret@),
        r.key@.len() == suite.spec_key_len(),
        r.iv@.len() == NONCE_LEN,
{
    let none: [u8; 0] = [];
    assert(none@ =~= Seq::<u8>::empty());
    let alg: HashAlgorithm = suite.get_hash();
    TrafficKeys {
        suite,
        key: expand_few(alg, secret, Label::Key, &none, suite.key_len()),
        iv: expand_few(alg, secret, Label::Iv, &none, NONCE_LEN),
    }
}

impl TrafficKeys {
    /// A copy of the keys.
    pub fn duplicate(&self) -> (r: TrafficKeys)
        ensures
            r@ == self@,
    {
        TrafficKeys {
            suite: self.suite,
            key: to_vec(self.key.as_slice()),
            iv: to_vec(self.iv.as_slice()),
        }
    }
}

/// As many zeroes as a digest is long.
pub open spec fn zeroes(alg: HashAlgorithm) -> Seq<u8> {
    Seq::new(alg.spec_output_len(), |i: int| 0u8)
}

pub fn zero_bytes(len: usize) -> (r: Vec<u8>)
    ensures
        r@ == Seq::new(len as nat, |i: int| 0u8),
{
    let mut r: Vec<u8> = Vec::new();
    while r.len() < len
        invariant
            r@.len() <= len,
            forall|i: int| 0 <= i < r@.len() ==> r@[i] == 0,
        decreases len - r@.len(),
    {
        r.push(0);
    }
    assert(r@ =~= Seq::new(len as nat, |i: int| 0u8));
    r
}

/// One stage of the schedule: the salt and the secret that its pseudorandom key is extracted
/// from.
#[derive(Debug)]
pub struct KeySchedule {
    pub algorithm: HashAlgorithm,
    pub salt: Vec<u8>,
    pub secret: Vec<u8>,
}

#[verifier::ext_equal]
pub struct KeyScheduleView {
    pub algorithm: HashAlgorithm,
    pub salt: Seq<u8>,
    pub secret: Seq<u8>,
}

impl View for KeySchedule {
    type V = KeyScheduleView;

    open spec fn view(&self) -> KeyScheduleView {
        KeyScheduleView { algorithm: self.algorithm, salt: self.salt@, secret: self.secret@ }
    }
}

/// The signature of a handshake hash with a key that comes of a traffic or binder secret.
pub open spec fn verify_data(
    alg: HashAlgorithm,
    base_key: Seq<u8>,
    hs_hash: Seq<u8>,
) -> Seq<u8> {
    hmac_of(
        alg,
        expand_label(
            alg,
            base_key,
            Label::Finished.spec_text(),
            Seq::empty(),
            alg.spec_output_len(),
        ),
        hs_hash,
    )
}

/// The traffic secret that follows another one.
pub open spec fn next_traffic_secret(alg: HashAlgorithm, secret: Seq<u8>) -> Seq<u8> {
    expand_label(
        alg,
        secret,
        Label::TrafficUpdate.spec_text(),
        Seq::empty(),
        alg.spec_output_len(),
    )
}

impl KeyScheduleView {
    /// The first stage, from a secret that both sides share already.
    pub open spec fn start(alg: HashAlgorithm, secret: Seq<u8>) -> KeyScheduleView {
        KeyScheduleView { algorithm: alg, salt: zeroes(alg), secret }
    }

    /// A secret of this stage.
    pub open spec fn derived(self, label: Label, context: Seq<u8>) -> Seq<u8> {
        let len = self.algorithm.spec_output_len();
        hkdf_expand_of(
            self.algorithm,
            hmac_of(self.algorithm, self.salt, self.secret),
            hkdf_info(label.spec_text(), context, len),
            len,
        )
    }

    /// A secret of this stage that depends on no messages.
    pub open spec fn derived_for_empty_hash(self, label: Label) -> Seq<u8> {
        self.derived(label, digest_of(self.algorithm, Seq::empty()))
    }

    /// The next stage, into which another secret goes.
    pub open spec fn with_secret(self, secret: Seq<u8>) -> KeyScheduleView {
        KeyScheduleView { salt: self.derived_for_empty_hash(Label::Derived), secret, ..self }
    }

    /// The next stage, into which no other secret goes.
    pub open spec fn with_no_secret(self) -> KeyScheduleView {
        self.with_secret(zeroes(self.algorithm))
    }
}

impl KeySchedule {
    fn new(algorithm: HashAlgorithm, secret: &[u8]) -> (r: KeySchedule)
        ensures
            r@ == KeyScheduleView::start(algorithm, secret@),
    {
        KeySchedule {
            algorithm,
            salt: zero_bytes(algorithm.output_len()),
            secret: to_vec(secret),
        }
    }

    fn derive(&self, label: Label, context: &[u8]) -> (r: Vec<u8>)
        ensures
            r@ == self@.derived(label, context@),
            r@.len() == self@.algorithm.spec_output_len(),
    {
        let len: usize = self.algorithm.output_len();
        let info: Vec<u8> = build_hkdf_info(label.text().as_slice(), context, len);
        match hkdf_extract_expand(
            self.algorithm,
            self.salt.as_slice(),
            self.secret.as_slice(),
            info.as_slice(),
            len,
        ) {
            Some(secret) => secret,
            None => {
                assert(false);
                Vec::new()
            },
        }
    }

    fn derive_for_empty_hash(&self, label: Label) -> (r: Vec<u8>)
        ensures
            r@ == self@.derived_for_empty_hash(label),
            r@.len() == self@.algorithm.spec_output_len(),
    {
        let none: [u8; 0] = [];
        assert(none@ =~= Seq::<u8>::empty());
        self.derive(label, digest(self.algorithm, &none).as_slice())
    }

    fn input_secret(&mut self, secret: &[u8])
        ensures
            final(self)@ == old(self)@.with_secret(secret@),
    {
        let salt: Vec<u8> = self.derive_for_empty_hash(Label::Derived);
        self.salt = salt;
        self.secret = to_vec(secret);
    }

    fn input_empty(&mut self)
        ensures
            final(self)@ == old(self)@.with_no_secret(),
    {
        let secret: Vec<u8> = zero_bytes(self.algorithm.output_len());
        self.input_secret(secret.as_slice());
    }

    /// Derives a secret and logs it.
    fn derive_logged(
        &self,
        label: Label,
        context: &[u8],
        log_label: KeyLogLabel,
        key_log: &mut KeyLog,
        client_random: &[u8],
    ) -> (r: Vec<u8>)
        ensures
            r@ == self@.derived(label, context@),
            r@.len() == self@.algorithm.spec_output_len(),
            final(key_log)@ == old(key_log)@.logged(log_label, client_random@, r@),
    {
        let secret: Vec<u8> = self.derive(label, context);
        key_log.log(log_label, client_random, secret.as_slice());
        secret
    }
}

fn sign_verify_data(alg: HashAlgorithm, base_key: &[u8], hs_hash: &[u8]) -> (r: Vec<u8>)
    ensures
        r@ == verify_data(alg, base_key@, hs_hash@),
        r@.len() == alg.spec_output_len(),
{
    let none: [u8; 0] = [];
    assert(none@ =~= Seq::<u8>::empty());
    let key: Vec<u8> = expand_few(alg, base_key, Label::Finished, &none, alg.output_len());
    hmac_sign(alg, key.as_slice(), hs_hash)
}

fn derive_next(alg: HashAlgorithm, secret: &[u8]) -> (r: Vec<u8>)
    ensures
        r@ == next_traffic_secret(alg, secret@),
{
    let none: [u8; 0] = [];
    assert(none@ =~= Seq::<u8>::empty());
    expand_few(alg, secret, Label::TrafficUpdate, &none, alg.output_len())
}

/// The schedule as long as only the secret of an earlier session is in it.
#[derive(Debug)]
pub struct KeyScheduleEarly {
    pub ks: KeySchedule,
}

impl View for KeyScheduleEarly {
    type V = KeyScheduleView;

    open spec fn view(&self) -> KeyScheduleView {
        self.ks@
    }
}

impl KeyScheduleView {
    /// The binder of a ticket for a message with this hash.
    pub open spec fn binder(self, hs_hash: Seq<u8>) -> Seq<u8> {
        verify_data(self.algorithm, self.derived_for_empty_hash(Label::Binder), hs_hash)
    }
}

impl KeyScheduleEarly {
    pub fn new(algorithm: HashAlgorithm, secret: &[u8]) -> (r: KeyScheduleEarly)
        ensures
            r@ == KeyScheduleView::start(algorithm, secret@),
    {
        KeyScheduleEarly { ks: KeySchedule::new(algorithm, secret) }
    }

    pub fn client_early_traffic_secret(
        &self,
        hs_hash: &[u8],
        key_log: &mut KeyLog,
        client_random: &[u8],
    ) -> (r: Vec<u8>)
        ensures
            r@ == self@.derived(Label::ClientEarlyTraffic, hs_hash@),
            final(key_log)@ == old(key_log)@.logged(
                KeyLogLabel::ClientEarlyTrafficSecret,
                client_random@,
                r@,
            ),
    {
        self.ks.derive_logged(
            Label::ClientEarlyTraffic,
            hs_hash,
            KeyLogLabel::ClientEarlyTrafficSecret,
            key_log,
            client_random,
        )
    }

    pub fn resumption_psk_binder_key_and_sign_verify_data(&self, hs_hash: &[u8]) -> (r: Vec<u8>)
        ensures
            r@ == self@.binder(hs_hash@),
            r@.len() == self@.algorithm.spec_output_len(),
    {
        let key: Vec<u8> = self.ks.derive_for_empty_hash(Label::Binder);
        sign_verify_data(self.ks.algorithm, key.as_slice(), hs_hash)
    }

    pub fn into_handshake(self, secret: &[u8]) -> (r: KeyScheduleHandshake)
        ensures
            r@ == KeyScheduleHandshakeView::start(self@.with_secret(secret@)),
    {
        let mut ks = self.ks;
        ks.input_secret(secret);
        KeyScheduleHandshake {
            ks,
            current_client_traffic_secret: None,
            current_server_traffic_secret: None,
        }
    }
}

/// The schedule of a session that resumes none.
#[derive(Debug)]
pub struct KeyScheduleNonSecret {
    pub ks: KeySchedule,
}

impl View for KeyScheduleNonSecret {
    type V = KeyScheduleView;

    open spec fn view(&self) -> KeyScheduleView {
        self.ks@
    }
}

impl KeyScheduleNonSecret {
    pub fn new(algorithm: HashAlgorithm) -> (r: KeyScheduleNonSecret)
        ensures
            r@ == KeyScheduleView::start(algorithm, zeroes(algorithm)),
    {
        let secret: Vec<u8> = zero_bytes(algorithm.output_len());
        KeyScheduleNonSecret { ks: KeySchedule::new(algorithm, secret.as_slice()) }
    }

    pub fn into_handshake(self, secret: &[u8]) -> (r: KeyScheduleHandshake)
        ensures
            r@ == KeyScheduleHandshakeView::start(self@.with_secret(secret@)),
    {
        let mut ks = self.ks;
        ks.input_secret(secret);
        KeyScheduleHandshake {
            ks,
            current_client_traffic_secret: None,
            current_server_traffic_secret: None,
        }
    }
}

/// A secret that may not be known yet.
pub open spec fn secret_view(secret: Option<Vec<u8>>) -> Option<Seq<u8>> {
    match secret {
        Some(secret) => Some(secret@),
        None => None,
    }
}

/// The schedule once the key exchange is done.
#[derive(Debug)]
pub struct KeyScheduleHandshake {
    pub ks: KeySchedule,
    pub current_client_traffic_secret: Option<Vec<u8>>,
    pub current_server_traffic_secret: Option<Vec<u8>>,
}

#[verifier::ext_equal]
pub struct KeyScheduleHandshakeView {
    pub ks: KeyScheduleView,
    pub client: Option<Seq<u8>>,
    pub server: Option<Seq<u8>>,
}

impl View for KeyScheduleHandshake {
    type V = KeyScheduleHandshakeView;

    open spec fn view(&self) -> KeyScheduleHandshakeView {
        KeyScheduleHandshakeView {
            ks: self.ks@,
            client: secret_view(self.current_client_traffic_secret),
            server: secret_view(self.current_server_traffic_secret),
        }
    }
}

impl KeyScheduleHandshakeView {
    pub open spec fn start(ks: KeyScheduleView) -> KeyScheduleHandshakeView {
        KeyScheduleHandshakeView { ks, client: None, server: None }
    }

    pub open spec fn client_secret(self, hs_hash: Seq<u8>) -> Seq<u8> {
        self.ks.derived(Label::ClientHandshakeTraffic, hs_hash)
    }

    pub open spec fn server_secret(self, hs_hash: Seq<u8>) -> Seq<u8> {
        self.ks.derived(Label::ServerHandshakeTraffic, hs_hash)
    }

    pub open spec fn with_client(self, hs_hash: Seq<u8>) -> KeyScheduleHandshakeView {
        KeyScheduleHandshakeView { client: Some(self.client_secret(hs_hash)), ..self }
    }

    pub open spec fn with_server(self, hs_hash: Seq<u8>) -> KeyScheduleHandshakeView {
        KeyScheduleHandshakeView { server: Some(self.server_secret(hs_hash)), ..self }
    }

    /// What the server has to send to finish the handshake.
    pub open spec fn server_finish(self, hs_hash: Seq<u8>) -> Seq<u8> {
        verify_data(self.ks.algorithm, self.server->0, hs_hash)
    }

    pub open spec fn finish(self) -> KeySchedulePendingView {
        KeySchedulePendingView {
            handshake_client: self.client->0,
            traffic: KeyScheduleTrafficView {
                ks: self.ks.with_no_secret(),
                client: None,
                server: None,
                exporter: None,
            },
        }
    }
}

impl KeyScheduleHandshake {
    pub fn client_handshake_traffic_secret(
        &mut self,
        hs_hash: &[u8],
        key_log: &mut KeyLog,
        client_random: &[u8],
    ) -> (r: Vec<u8>)
        ensures
            r@ == old(self)@.client_secret(hs_hash@),
            final(self)@ == old(self)@.with_client(hs_hash@),
            final(key_log)@ == old(key_log)@.logged(
                KeyLogLabel::ClientHandshakeTrafficSecret,
                client_random@,
                r@,
            ),
    {
        let secret: Vec<u8> = self.ks.derive_logged(
            Label::ClientHandshakeTraffic,
            hs_hash,
            KeyLogLabel::ClientHandshakeTrafficSecret,
            key_log,
            client_random,
        );
        self.current_client_traffic_secret = Some(to_vec(secret.as_slice()));
        secret
    }

    pub fn server_handshake_traffic_secret(
        &mut self,
        hs_hash: &[u8],
        key_log: &mut KeyLog,
        client_random: &[u8],
    ) -> (r: Vec<u8>)
        ensures
            r@ == old(self)@.server_secret(hs_hash@),
            final(self)@ == old(self)@.with_server(hs_hash@),
            final(key_log)@ == old(key_log)@.logged(
                KeyLogLabel::ServerHandshakeTrafficSecret,
                client_random@,
                r@,
            ),
    {
        let secret: Vec<u8> = self.ks.derive_logged(
            Label::ServerHandshakeTraffic,
            hs_hash,
            KeyLogLabel::ServerHandshakeTrafficSecret,
            key_log,
            client_random,
        );
        self.current_server_traffic_secret = Some(to_vec(secret.as_slice()));
        secret
    }

    /// What the server has to send to finish the handshake.
    pub fn sign_server_finish(&self, hs_hash: &[u8]) -> (r: Vec<u8>)
        requires
            self@.server is Some,
        ensures
            r@ == self@.server_finish(hs_hash@),
    {
        match &self.current_server_traffic_secret {
            Some(secret) => sign_verify_data(self.ks.algorithm, secret.as_slice(), hs_hash),
            None => {
                assert(false);
                Vec::new()
            },
        }
    }

    pub fn into_traffic_with_client_finished_pending(self) -> (r:
        KeyScheduleTrafficWithClientFinishedPending)
        requires
            self@.client is Some,
        ensures
            r@ == self@.finish(),
    {
        let mut ks = self.ks;
        ks.input_empty();
        let secret: Vec<u8> = match self.current_client_traffic_secret {
            Some(secret) => secret,
            None => {
                assert(false);
                Vec::new()
            },
        };
        KeyScheduleTrafficWithClientFinishedPending {
            handshake_client_traffic_secret: secret,
            traffic: KeyScheduleTraffic {
                ks,
                current_client_traffic_secret: None,
                current_server_traffic_secret: None,
                current_exporter_secret: None,
            },
        }
    }
}

/// The schedule while this client's Finished message is due.
#[derive(Debug)]
pub struct KeyScheduleTrafficWithClientFinishedPending {
    pub handshake_client_traffic_secret: Vec<u8>,
    pub traffic: KeyScheduleTraffic,
}

#[verifier::ext_equal]
pub struct KeySchedulePendingView {
    pub handshake_client: Seq<u8>,
    pub traffic: KeyScheduleTrafficView,
}

impl View for KeyScheduleTrafficWithClientFinishedPending {
    type V = KeySchedulePendingView;

    open spec fn view(&self) -> KeySchedulePendingView {
        KeySchedulePendingView {
            handshake_client: self.handshake_client_traffic_secret@,
            traffic: self.traffic@,
        }
    }
}

impl KeySchedulePendingView {
    /// What this client has to send to finish the handshake.
    pub open spec fn client_finish(self, hs_hash: Seq<u8>) -> Seq<u8> {
        verify_data(self.traffic.ks.algorithm, self.handshake_client, hs_hash)
    }
}

impl KeyScheduleTrafficWithClientFinishedPending {
    /// What this client has to send to finish the handshake.
    pub fn sign_client_finish(&self, hs_hash: &[u8]) -> (r: Vec<u8>)
        ensures
            r@ == self@.client_finish(hs_hash@),
    {
        sign_verify_data(
            self.traffic.ks.algorithm,
            self.handshake_client_traffic_secret.as_slice(),
            hs_hash,
        )
    }

    pub fn client_application_traffic_secret(
        &mut self,
        hs_hash: &[u8],
        key_log: &mut KeyLog,
        client_random: &[u8],
    ) -> (r: Vec<u8>)
        ensures
            r@ == old(self)@.traffic.ks.derived(Label::ClientApplicationTraffic, hs_hash@),
            final(self)@ == (KeySchedulePendingView {
                traffic: KeyScheduleTrafficView { client: Some(r@), ..old(self)@.traffic },
                ..old(self)@
            }),
            final(key_log)@ == old(key_log)@.logged(
                KeyLogLabel::ClientTrafficSecret0,
                client_random@,
                r@,
            ),
    {
        let secret: Vec<u8> = self.traffic.ks.derive_logged(
            Label::ClientApplicationTraffic,
            hs_hash,
            KeyLogLabel::ClientTrafficSecret0,
            key_log,
            client_random,
        );
        self.traffic.current_client_traffic_secret = Some(to_vec(secret.as_slice()));
        secret
    }

    pub fn server_application_traffic_secret(
        &mut self,
        hs_hash: &[u8],
        key_log: &mut KeyLog,
        client_random: &[u8],
    ) -> (r: Vec<u8>)
        ensures
            r@ == old(self)@.traffic.ks.derived(Label::ServerApplicationTraffic, hs_hash@),
            final(self)@ == (KeySchedulePendingView {
                traffic: KeyScheduleTrafficView { server: Some(r@), ..old(self)@.traffic },
                ..old(self)@
            }),
            final(key_log)@ == old(key_log)@.logged(
                KeyLogLabel::ServerTrafficSecret0,
                client_random@,
                r@,
            ),
    {
        let secret: Vec<u8> = self.traffic.ks.derive_logged(
            Label::ServerApplicationTraffic,
            hs_hash,
            KeyLogLabel::ServerTrafficSecret0,
            key_log,
            client_random,
        );
        self.traffic.current_server_traffic_secret = Some(to_vec(secret.as_slice()));
        secret
    }

    pub fn exporter_master_secret(
        &mut self,
        hs_hash: &[u8],
        key_log: &mut KeyLog,
        client_random: &[u8],
    )
        ensures
            ({
                let secret = old(self)@.traffic.ks.derived(Label::ExporterMaster, hs_hash@);
                &&& final(self)@ == (KeySchedulePendingView {
                    traffic: KeyScheduleTrafficView {
                        exporter: Some(secret),
                        ..old(self)@.traffic
                    },
                    ..old(self)@
                })
                &&& final(key_log)@ == old(key_log)@.logged(
                    KeyLogLabel::ExporterSecret,
                    client_random@,
                    secret,
                )
            }),
    {
        let secret: Vec<u8> = self.traffic.ks.derive_logged(
            Label::ExporterMaster,
            hs_hash,
            KeyLogLabel::ExporterSecret,
            key_log,
            client_random,
        );
        self.traffic.current_exporter_secret = Some(secret);
    }

    pub fn into_traffic(self) -> (r: KeyScheduleTraffic)
        ensures
            r@ == self@.traffic,
    {
        self.traffic
    }
}

/// The schedule once the handshake is over.
#[derive(Debug)]
pub struct KeyScheduleTraffic {
    pub ks: KeySchedule,
    pub current_client_traffic_secret: Option<Vec<u8>>,
    pub current_server_traffic_secret: Option<Vec<u8>>,
    pub current_exporter_secret: Option<Vec<u8>>,
}

#[verifier::ext_equal]
pub struct KeyScheduleTrafficView {
    pub ks: KeyScheduleView,
    pub client: Option<Seq<u8>>,
    pub server: Option<Seq<u8>>,
    pub exporter: Option<Seq<u8>>,
}

impl View for KeyScheduleTraffic {
    type V = KeyScheduleTrafficView;

    open spec fn view(&self) -> KeyScheduleTrafficView {
        KeyScheduleTrafficView {
            ks: self.ks@,
            client: secret_view(self.current_client_traffic_secret),
            server: secret_view(self.current_server_traffic_secret),
            exporter: secret_view(self.current_exporter_secret),
        }
    }
}

impl KeyScheduleTrafficView {
    /// Whether all the secrets of the running session are known.
    pub open spec fn complete(self) -> bool {
        self.client is Some && self.server is Some && self.exporter is Some
    }

    pub open spec fn next_client(self) -> KeyScheduleTrafficView {
        KeyScheduleTrafficView {
            client: Some(next_traffic_secret(self.ks.algorithm, self.client->0)),
            ..self
        }
    }

    pub open spec fn next_server(self) -> KeyScheduleTrafficView {
        KeyScheduleTrafficView {
            server: Some(next_traffic_secret(self.ks.algorithm, self.server->0)),
            ..self
        }
    }

    /// The secret of the ticket with this nonce.
    pub open spec fn ticket_psk(self, hs_hash: Seq<u8>, nonce: Seq<u8>) -> Seq<u8> {
        expand_label(
            self.ks.algorithm,
            self.ks.derived(Label::ResumptionMaster, hs_hash),
            Label::Resumption.spec_text(),
            nonce,
            self.ks.algorithm.spec_output_len(),
        )
    }

    /// Keying material for the application. No context is the same as an empty one.
    pub open spec fn exported(self, label: Seq<u8>, context: Option<Seq<u8>>, len: nat) -> Seq<u8> {
        let alg = self.ks.algorithm;
        let secret = expand_label(
            alg,
            self.exporter->0,
            label,
            digest_of(alg, Seq::empty()),
            alg.spec_output_len(),
        );
        let context = match context {
            Some(context) => context,
            None => Seq::empty(),
        };
        expand_label(alg, secret, Label::Exporter.spec_text(), digest_of(alg, context), len)
    }
}

impl KeyScheduleTraffic {
    pub fn next_server_application_traffic_secret(&mut self) -> (r: Vec<u8>)
        requires
            old(self)@.server is Some,
        ensures
            final(self)@ == old(self)@.next_server(),
            final(self)@.server == Some(r@),
    {
        let secret: Vec<u8> = match &self.current_server_traffic_secret {
            Some(secret) => derive_next(self.ks.algorithm, secret.as_slice()),
            None => {
                assert(false);
                Vec::new()
            },
        };
        self.current_server_traffic_secret = Some(to_vec(secret.as_slice()));
        secret
    }

    pub fn next_client_application_traffic_secret(&mut self) -> (r: Vec<u8>)
        requires
            old(self)@.client is Some,
        ensures
            final(self)@ == old(self)@.next_client(),
            final(self)@.client == Some(r@),
    {
        let secret: Vec<u8> = match &self.current_client_traffic_secret {
            Some(secret) => derive_next(self.ks.algorithm, secret.as_slice()),
            None => {
                assert(false);
                Vec::new()
            },
        };
        self.current_client_traffic_secret = Some(to_vec(secret.as_slice()));
        secret
    }

    /// The secret of the ticket with this nonce.
    pub fn resumption_master_secret_and_derive_ticket_psk(
        &self,
        hs_hash: &[u8],
        nonce: &[u8],
    ) -> (r: Vec<u8>)
        ensures
            r@ == self@.ticket_psk(hs_hash@, nonce@),
            r@.len() == self@.ks.algorithm.spec_output_len(),
    {
        let rms: Vec<u8> = self.ks.derive(Label::ResumptionMaster, hs_hash);
        expand_few(
            self.ks.algorithm,
            rms.as_slice(),
            Label::Resumption,
            nonce,
            self.ks.algorithm.output_len(),
        )
    }

    /// Fills `output` with keying material for the application, or returns the error that
    /// this is too much to ask for.
    pub fn export_keying_material(
        &self,
        output: &mut [u8],
        label: &[u8],
        context: Option<&[u8]>,
    ) -> (r: Result<(), TlsError>)
        requires
            self@.exporter is Some,
        ensures
            final(output)@.len() == old(output)@.len(),
            old(output)@.len() <= max_okm_len(self@.ks.algorithm) ==> r is Ok && final(output)@
                == self@.exported(
                label@,
                match context {
                    Some(context) => Some(context@),
                    None => None,
                },
                old(output)@.len(),
            ),
            old(output)@.len() > max_okm_len(self@.ks.algorithm) ==> final(output)@ == old(output)@
                && r is Err && r->Err_0@ == TlsErrorView::General("exporting too much"@),
    {
        let alg: HashAlgorithm = self.ks.algorithm;
        let none: [u8; 0] = [];
        assert(none@ =~= Seq::<u8>::empty());
        let h_empty: Vec<u8> = digest(alg, &none);
        let h_context: Vec<u8> = match context {
            Some(context) => digest(alg, context),
            None => digest(alg, &none),
        };
        let secret: Vec<u8> = match &self.current_exporter_secret {
            Some(exporter) => match hkdf_expand_label(
                alg,
                exporter.as_slice(),
                label,
                h_empty.as_slice(),
                alg.output_len(),
            ) {
                Some(secret) => secret,
                None => {
                    assert(false);
                    Vec::new()
                },
            },
            None => {
                assert(false);
                Vec::new()
            },
        };
        let len: usize = output.len();
        match hkdf_expand_label(
            alg,
            secret.as_slice(),
            Label::Exporter.text().as_slice(),
            h_context.as_slice(),
            len,
        ) {
            Some(okm) => {
                fill(output, okm.as_slice());
                Ok(())
            },
            None => Err(TlsError::General("exporting too much".to_string())),
        }
    }
}

/// Overwrites `output`.
fn fill(output: &mut [u8], bytes: &[u8])
    requires
        bytes@.len() == old(output)@.len(),
    ensures
        final(output)@ == bytes@,
{
    let mut i: usize = 0;
    while i < bytes.len()
        invariant
            i <= bytes@.len(),
            output@.len() == bytes@.len(),
            forall|j: int| 0 <= j < i ==> output@[j] == bytes@[j],
        decreases bytes@.len() - i,
    {
        output[i] = bytes[i];
        i += 1;
    }
    assert(output@ =~= bytes@);
}

} // verus!
