//! What is kept of a session, to resume it by.

use crate::base::{PayloadU16, PayloadU8};
use crate::codec::{
    be16, be32, be64, decode_u16, decode_u32, decode_u64, decode_u8, lemma_concat_assoc,
    lemma_skip_front, lemma_skip_skip, list_behind_length_round_trip, list_encoding, prefixed_u16,
    prefixed_u16_round_trip, prefixed_u24_round_trip, prefixed_u8, prefixed_u8_round_trip,
    put_prefixed_u8, put_slice, put_u32, put_u64, put_vec_u24, read_u32, read_u64, read_u8,
    read_vec_u24, reads_back, to_vec, u16_round_trip, u32_round_trip, u64_round_trip,
    unprefixed_u16, unprefixed_u8, vec_u24_decoding, vec_u24_encoding, views, Codec, Reader,
};
use crate::enums::{CipherSuite, ProtocolVersion};
use crate::handshake::{MAX_SESSION_ID_LEN, SessionID};
use crate::key::{duplicate_chain, Certificate};
use crate::pki::{is_dns_name, is_owned_dns_name, lowercase, DnsName, ServerName};
use crate::suites::SupportedCipherSuite;
use crate::ticketer::TimeBase;
use vstd::prelude::*;

verus! {

/// What a client keeps of a server.
#[derive(Clone, Copy, PartialEq, Eq, Structural, Debug)]
pub enum SessionKeyKind {
    /// The session to resume.
    Session,
    /// The group that the server likes.
    KxHint,
}

impl SessionKeyKind {
    /// The text that a key of the kind starts with.
    pub open spec fn spec_tag(self) -> Seq<u8> {
        match self {
            // "session"
            SessionKeyKind::Session => seq![0x73u8, 0x65, 0x73, 0x73, 0x69, 0x6f, 0x6e],
            // "kx-hint"
            SessionKeyKind::KxHint => seq![0x6bu8, 0x78, 0x2d, 0x68, 0x69, 0x6e, 0x74],
        }
    }

    fn tag(self) -> (r: Vec<u8>)
        ensures
            r@ == self.spec_tag(),
    {
        let r: Vec<u8> = match self {
            SessionKeyKind::Session => vec![0x73, 0x65, 0x73, 0x73, 0x69, 0x6f, 0x6e],
            SessionKeyKind::KxHint => vec![0x6b, 0x78, 0x2d, 0x68, 0x69, 0x6e, 0x74],
        };
        assert(r@ =~= self.spec_tag());
        r
    }
}

/// The key that something kept of a server is stored under.
#[derive(Debug, PartialEq, Eq)]
pub struct ClientSessionKey {
    pub kind: SessionKeyKind,
    pub name: Vec<u8>,
}

#[verifier::ext_equal]
pub struct ClientSessionKeyView {
    pub kind: SessionKeyKind,
    pub name: Seq<u8>,
}

impl View for ClientSessionKey {
    type V = ClientSessionKeyView;

    open spec fn view(&self) -> ClientSessionKeyView {
        ClientSessionKeyView { kind: self.kind, name: self.name@ }
    }
}

/// The bytes of the key for something kept of a server.
pub open spec fn session_key(kind: SessionKeyKind, name: Seq<u8>) -> Seq<u8> {
    kind.spec_tag() + name
}

impl ClientSessionKey {
    /// The key for the session with a server.
    pub fn session_for_server_name(name: &ServerName) -> (r: ClientSessionKey)
        ensures
            r@ == (ClientSessionKeyView { kind: SessionKeyKind::Session, name: name@ }),
    {
        ClientSessionKey { kind: SessionKeyKind::Session, name: to_vec(name.as_bytes()) }
    }

    /// The key for the group that a server likes.
    pub fn hint_for_server_name(name: &ServerName) -> (r: ClientSessionKey)
        ensures
            r@ == (ClientSessionKeyView { kind: SessionKeyKind::KxHint, name: name@ }),
    {
        ClientSessionKey { kind: SessionKeyKind::KxHint, name: to_vec(name.as_bytes()) }
    }
}

impl Codec for ClientSessionKey {
    open spec fn encoding(v: ClientSessionKeyView) -> Seq<u8> {
        session_key(v.kind, v.name)
    }

    /// A key is never read back.
    open spec fn decoding(bytes: Seq<u8>) -> Option<(ClientSessionKeyView, nat)> {
        None
    }

    proof fn decoding_progresses(bytes: Seq<u8>) {
    }

    fn encode(&self, bytes: &mut Vec<u8>) {
        put_slice(self.kind.tag().as_slice(), bytes);
        put_slice(self.name.as_slice(), bytes);
        assert(bytes@ =~= old(bytes)@ + Self::encoding(self@));
    }

    fn read(rd: &mut Reader) -> (r: Option<ClientSessionKey>) {
        assert(Self::decoding(rd@) is None);
        None
    }
}

/// Two keys are the same only for the same kind of thing and the same server: nothing that
/// is kept overwrites anything else.
pub proof fn session_keys_are_distinct(
    kind: SessionKeyKind,
    name: Seq<u8>,
    other_kind: SessionKeyKind,
    other_name: Seq<u8>,
)
    ensures
        session_key(kind, name) == session_key(other_kind, other_name) <==> kind == other_kind
            && name == other_name,
{
    let a = session_key(kind, name);
    let b = session_key(other_kind, other_name);
    if a == b {
        assert(a[0] == kind.spec_tag()[0]);
        assert(b[0] == other_kind.spec_tag()[0]);
        assert(a.skip(7) =~= name);
        assert(b.skip(7) =~= other_name);
    }
}

/// What a client keeps of a session.
#[derive(Debug, PartialEq, Eq)]
pub struct ClientSessionValue {
    pub version: ProtocolVersion,
    pub cipher_suite: CipherSuite,
    pub session_id: SessionID,
    pub ticket: PayloadU16,
    pub master_secret: PayloadU8,
    pub epoch: u64,
    pub lifetime: u32,
    pub age_add: u32,
    pub extended_ms: bool,
    pub max_early_data_size: u32,
    pub server_cert_chain: Vec<Certificate>,
}

#[verifier::ext_equal]
pub struct ClientSessionValueView {
    pub version: ProtocolVersion,
    pub cipher_suite: CipherSuite,
    pub session_id: Seq<u8>,
    pub ticket: Seq<u8>,
    pub master_secret: Seq<u8>,
    pub epoch: u64,
    pub lifetime: u32,
    pub age_add: u32,
    pub extended_ms: bool,
    pub max_early_data_size: u32,
    pub server_cert_chain: Seq<Seq<u8>>,
}

impl View for ClientSessionValue {
    type V = ClientSessionValueView;

    open spec fn view(&self) -> ClientSessionValueView {
        ClientSessionValueView {
            version: self.version,
            cipher_suite: self.cipher_suite,
            session_id: self.session_id@,
            ticket: self.ticket@,
            master_secret: self.master_secret@,
            epoch: self.epoch,
            lifetime: self.lifetime,
            age_add: self.age_add,
            extended_ms: self.extended_ms,
            max_early_data_size: self.max_early_data_size,
            server_cert_chain: views(self.server_cert_chain@),
        }
    }
}

/// A flag on the wire.
pub open spec fn flag(set: bool) -> u8 {
    if set {
        1
    } else {
        0
    }
}

fn flag_byte(set: bool) -> (r: u8)
    ensures
        r == flag(set),
{
    if set {
        1
    } else {
        0
    }
}

impl ClientSessionValueView {
    /// The age of the ticket at the time `now`, in milliseconds, hidden by the number that
    /// the server gave with it. A ticket from the future has no age.
    pub open spec fn obfuscated_ticket_age(self, now: u64) -> u32 {
        let age_secs: u64 = if now >= self.epoch {
            (now - self.epoch) as u64
        } else {
            0
        };
        ((age_secs as u32) * 1000 + self.age_add) as u32
    }

    /// Whether every part fits behind the length that is put in front of it, and no known
    /// code point is held as an unknown one.
    pub open spec fn fits(self) -> bool {
        &&& ProtocolVersion::of_wire(self.version.wire()) == self.version
        &&& CipherSuite::of_wire(self.cipher_suite.wire()) == self.cipher_suite
        &&& self.session_id.len() <= MAX_SESSION_ID_LEN
        &&& self.ticket.len() < 0x1_0000
        &&& self.master_secret.len() < 0x100
        &&& chain_fits(self.server_cert_chain)
    }
}

/// Whether a certificate chain fits behind the lengths that are put in front of it and of
/// its certificates.
pub open spec fn chain_fits(chain: Seq<Seq<u8>>) -> bool {
    &&& list_encoding::<Certificate>(chain).len() < 0x100_0000
    &&& forall|i: int| 0 <= i < chain.len() ==> (#[trigger] chain[i]).len() < 0x100_0000
}

impl Codec for ClientSessionValue {
    open spec fn encoding(v: ClientSessionValueView) -> Seq<u8> {
        be16(v.version.wire()) + (be16(v.cipher_suite.wire()) + (prefixed_u8(v.session_id) + (
        prefixed_u16(v.ticket) + (prefixed_u8(v.master_secret) + (be64(v.epoch) + (be32(v.lifetime)
            + (be32(v.age_add) + (seq![flag(v.extended_ms)] + (be32(v.max_early_data_size)
            + vec_u24_encoding::<Certificate>(v.server_cert_chain))))))))))
    }

    open spec fn decoding(bytes: Seq<u8>) -> Option<(ClientSessionValueView, nat)> {
        match decode_u16(bytes) {
            Some((version, n1)) => match decode_u16(bytes.skip(n1 as int)) {
                Some((suite, n2)) => match SessionID::decoding(bytes.skip((n1 + n2) as int)) {
                    Some((session_id, n3)) => match unprefixed_u16(
                        bytes.skip((n1 + n2 + n3) as int),
                    ) {
                        Some((ticket, n4)) => match unprefixed_u8(
                            bytes.skip((n1 + n2 + n3 + n4) as int),
                        ) {
                            Some((master_secret, n5)) => {
                                let n = n1 + n2 + n3 + n4 + n5;
                                match client_value_tail(bytes.skip(n as int)) {
                                    Some((tail, n6)) => Some(
                                        (
                                            ClientSessionValueView {
                                                version: ProtocolVersion::of_wire(version),
                                                cipher_suite: CipherSuite::of_wire(suite),
                                                session_id,
                                                ticket,
                                                master_secret,
                                                ..tail
                                            },
                                            n + n6,
                                        ),
                                    ),
                                    None => None,
                                }
                            },
                            None => None,
                        },
                        None => None,
                    },
                    None => None,
                },
                None => None,
            },
            None => None,
        }
    }

    proof fn decoding_progresses(bytes: Seq<u8>) {
        reveal(client_value_tail);
    }

    fn encode(&self, bytes: &mut Vec<u8>) {
        broadcast use lemma_concat_assoc;

        self.version.encode(bytes);
        self.cipher_suite.encode(bytes);
        self.session_id.encode(bytes);
        self.ticket.encode(bytes);
        self.master_secret.encode(bytes);
        put_u64(self.epoch, bytes);
        put_u32(self.lifetime, bytes);
        put_u32(self.age_add, bytes);
        let flags: [u8; 1] = [flag_byte(self.extended_ms)];
        assert(flags@ =~= seq![flag(self.extended_ms)]);
        put_slice(&flags, bytes);
        put_u32(self.max_early_data_size, bytes);
        put_vec_u24(&self.server_cert_chain, bytes);
        assert(bytes@ =~= old(bytes)@ + Self::encoding(self@));
    }

    #[verifier::rlimit(40)]
    fn read(rd: &mut Reader) -> (r: Option<ClientSessionValue>) {
        broadcast use lemma_skip_skip;

        let version: ProtocolVersion = match ProtocolVersion::read(rd) {
            Some(x) => x,
            None => return None,
        };
        let cipher_suite: CipherSuite = match CipherSuite::read(rd) {
            Some(x) => x,
            None => return None,
        };
        let session_id: SessionID = match SessionID::read(rd) {
            Some(x) => x,
            None => return None,
        };
        let ticket: PayloadU16 = match PayloadU16::read(rd) {
            Some(x) => x,
            None => return None,
        };
        let master_secret: PayloadU8 = match PayloadU8::read(rd) {
            Some(x) => x,
            None => return None,
        };
        match read_client_value_tail(rd) {
            Some(tail) => Some(
                ClientSessionValue {
                    version,
                    cipher_suite,
                    session_id,
                    ticket,
                    master_secret,
                    epoch: tail.epoch,
                    lifetime: tail.lifetime,
                    age_add: tail.age_add,
                    extended_ms: tail.extended_ms,
                    max_early_data_size: tail.max_early_data_size,
                    server_cert_chain: tail.server_cert_chain,
                },
            ),
            None => None,
        }
    }
}

/// The part of a kept session that is behind the secret, in a value that is empty otherwise,
/// and what it takes up.
#[verifier::opaque]
pub open spec fn client_value_tail(bytes: Seq<u8>) -> Option<(ClientSessionValueView, nat)> {
    match decode_u64(bytes) {
        Some((epoch, n1)) => match decode_u32(bytes.skip(n1 as int)) {
            Some((lifetime, n2)) => match decode_u32(bytes.skip((n1 + n2) as int)) {
                Some((age_add, n3)) => match decode_u8(bytes.skip((n1 + n2 + n3) as int)) {
                    Some((extended_ms, n4)) => match decode_u32(
                        bytes.skip((n1 + n2 + n3 + n4) as int),
                    ) {
                        Some((max_early_data_size, n5)) => match vec_u24_decoding::<Certificate>(
                            bytes.skip((n1 + n2 + n3 + n4 + n5) as int),
                        ) {
                            Some((server_cert_chain, n6)) => Some(
                                (
                                    ClientSessionValueView {
                                        version: ProtocolVersion::TLSv1_2,
                                        cipher_suite: CipherSuite::Unknown(0),
                                        session_id: Seq::empty(),
                                        ticket: Seq::empty(),
                                        master_secret: Seq::empty(),
                                        epoch,
                                        lifetime,
                                        age_add,
                                        extended_ms: extended_ms == 1,
                                        max_early_data_size,
                                        server_cert_chain,
                                    },
                                    n1 + n2 + n3 + n4 + n5 + n6,
                                ),
                            ),
                            None => None,
                        },
                        None => None,
                    },
                    None => None,
                },
                None => None,
            },
            None => None,
        },
        None => None,
    }
}

/// Reads the part of a kept session that is behind the secret.
fn read_client_value_tail(rd: &mut Reader) -> (r: Option<ClientSessionValue>)
    ensures
        match client_value_tail(old(rd)@) {
            Some((v, n)) => r is Some && r->0@ == v && final(rd)@ == old(rd)@.skip(n as int)
                && final(rd).spec_used() == old(rd).spec_used() + n && n <= old(rd)@.len(),
            None => r is None,
        },
{
    broadcast use lemma_skip_skip;

    reveal(client_value_tail);
    let epoch: u64 = match read_u64(rd) {
        Some(x) => x,
        None => return None,
    };
    let lifetime: u32 = match read_u32(rd) {
        Some(x) => x,
        None => return None,
    };
    let age_add: u32 = match read_u32(rd) {
        Some(x) => x,
        None => return None,
    };
    let extended_ms: u8 = match read_u8(rd) {
        Some(x) => x,
        None => return None,
    };
    let max_early_data_size: u32 = match read_u32(rd) {
        Some(x) => x,
        None => return None,
    };
    let server_cert_chain: Vec<Certificate> = match read_vec_u24(rd) {
        Some(x) => x,
        None => return None,
    };
    let r = ClientSessionValue {
        version: ProtocolVersion::TLSv1_2,
        cipher_suite: CipherSuite::Unknown(0),
        session_id: SessionID::empty(),
        ticket: PayloadU16::new(Vec::new()),
        master_secret: PayloadU8::new(Vec::new()),
        epoch,
        lifetime,
        age_add,
        extended_ms: extended_ms == 1,
        max_early_data_size,
        server_cert_chain,
    };
    Some(r)
}

/// A kept session with the cipher suite that it used.
#[derive(Debug, PartialEq, Eq)]
pub struct ClientSessionValueWithResolvedCipherSuite {
    pub value: ClientSessionValue,
    pub suite: SupportedCipherSuite,
}

#[verifier::ext_equal]
pub struct ResumptionView {
    pub value: ClientSessionValueView,
    pub suite: SupportedCipherSuite,
}

impl View for ClientSessionValueWithResolvedCipherSuite {
    type V = ResumptionView;

    open spec fn view(&self) -> ResumptionView {
        ResumptionView { value: self.value@, suite: self.suite }
    }
}

/// A session as it is first kept.
pub open spec fn new_client_value(
    version: ProtocolVersion,
    suite: SupportedCipherSuite,
    session_id: Seq<u8>,
    ticket: Seq<u8>,
    master_secret: Seq<u8>,
    server_cert_chain: Seq<Seq<u8>>,
    now: u64,
) -> ClientSessionValueView {
    ClientSessionValueView {
        version,
        cipher_suite: suite.spec_suite(),
        session_id,
        ticket,
        master_secret,
        epoch: now,
        lifetime: 0,
        age_add: 0,
        extended_ms: false,
        max_early_data_size: 0,
        server_cert_chain,
    }
}

impl ClientSessionValueWithResolvedCipherSuite {
    pub fn new(
        version: ProtocolVersion,
        suite: SupportedCipherSuite,
        session_id: &SessionID,
        ticket: Vec<u8>,
        master_secret: Vec<u8>,
        server_cert_chain: &Vec<Certificate>,
        time_now: TimeBase,
    ) -> (r: ClientSessionValueWithResolvedCipherSuite)
        ensures
            r@ == (ResumptionView {
                value: new_client_value(
                    version,
                    suite,
                    session_id@,
                    ticket@,
                    master_secret@,
                    views(server_cert_chain@),
                    time_now.secs,
                ),
                suite,
            }),
    {
        ClientSessionValueWithResolvedCipherSuite {
            value: ClientSessionValue {
                version,
                cipher_suite: suite.suite(),
                session_id: session_id.duplicate(),
                ticket: PayloadU16::new(ticket),
                master_secret: PayloadU8::new(master_secret),
                epoch: time_now.as_secs(),
                lifetime: 0,
                age_add: 0,
                extended_ms: false,
                max_early_data_size: 0,
                server_cert_chain: duplicate_chain(server_cert_chain),
            },
            suite,
        }
    }

    pub fn supported_cipher_suite(&self) -> (r: SupportedCipherSuite)
        ensures
            r == self@.suite,
    {
        self.suite
    }

    /// Sets when the ticket came, how long it is good for, and what hides its age.
    pub fn set_times(&mut self, receipt_time: TimeBase, lifetime: u32, age_add: u32)
        ensures
            final(self)@ == (ResumptionView {
                value: ClientSessionValueView {
                    epoch: receipt_time.secs,
                    lifetime,
                    age_add,
                    ..old(self)@.value
                },
                ..old(self)@
            }),
    {
        self.value.epoch = receipt_time.as_secs();
        self.value.lifetime = lifetime;
        self.value.age_add = age_add;
    }

    pub fn set_max_early_data_size(&mut self, size: u32)
        ensures
            final(self)@ == (ResumptionView {
                value: ClientSessionValueView { max_early_data_size: size, ..old(self)@.value },
                ..old(self)@
            }),
    {
        self.value.max_early_data_size = size;
    }

    /// The age of the ticket, as the server is to be told it.
    pub fn get_obfuscated_ticket_age(&self, time_now: TimeBase) -> (r: u32)
        ensures
            r == self@.value.obfuscated_ticket_age(time_now.secs),
    {
        let now: u64 = time_now.as_secs();
        let age_secs: u64 = if now >= self.value.epoch {
            now - self.value.epoch
        } else {
            0
        };
        let age_millis: u32 = (age_secs as u32).wrapping_mul(1000);
        let age: u32 = age_millis.wrapping_add(self.value.age_add);
        proof {
            let a = age_secs as u32;
            let b = self.value.age_add;
            assert(((a as u64 * 1000) as u32) as u64 == (a as u64 * 1000) % 0x1_0000_0000)
                by (bit_vector);
            lemma_truncation(a, b);
        }
        age
    }

    /// The session as it is stored.
    pub fn get_encoding(&self) -> (r: Vec<u8>)
        ensures
            r@ == ClientSessionValue::encoding(self@.value),
    {
        self.value.get_encoding()
    }
}

/// Multiplying and adding modulo 2^32, step by step or at the end, is the same.
proof fn lemma_truncation(a: u32, b: u32)
    ensures
        ((((a * 1000) % 0x1_0000_0000) + b) % 0x1_0000_0000) == (a * 1000 + b) as u32,
{
    assert(((((a * 1000) % 0x1_0000_0000) + b) % 0x1_0000_0000) == (a * 1000 + b) as u32)
        by (bit_vector);
}

/// What a server keeps of a session.
#[derive(Debug, PartialEq, Eq)]
pub struct ServerSessionValue {
    pub sni: Option<DnsName>,
    pub version: ProtocolVersion,
    pub cipher_suite: CipherSuite,
    pub master_secret: PayloadU8,
    pub extended_ms: bool,
    pub client_cert_chain: Option<Vec<Certificate>>,
    pub alpn: Option<PayloadU8>,
    pub application_data: PayloadU16,
}

#[verifier::ext_equal]
pub struct ServerSessionValueView {
    pub sni: Option<Seq<u8>>,
    pub version: ProtocolVersion,
    pub cipher_suite: CipherSuite,
    pub master_secret: Seq<u8>,
    pub extended_ms: bool,
    pub client_cert_chain: Option<Seq<Seq<u8>>>,
    pub alpn: Option<Seq<u8>>,
    pub application_data: Seq<u8>,
}

impl View for ServerSessionValue {
    type V = ServerSessionValueView;

    open spec fn view(&self) -> ServerSessionValueView {
        ServerSessionValueView {
            sni: match self.sni {
                Some(name) => Some(name@),
                None => None,
            },
            version: self.version,
            cipher_suite: self.cipher_suite,
            master_secret: self.master_secret@,
            extended_ms: self.extended_ms,
            client_cert_chain: match self.client_cert_chain {
                Some(chain) => Some(views(chain@)),
                None => None,
            },
            alpn: match self.alpn {
                Some(proto) => Some(proto@),
                None => None,
            },
            application_data: self.application_data@,
        }
    }
}

impl ServerSessionValueView {
    /// Whether every part fits behind the length that is put in front of it, no known code
    /// point is held as an unknown one, and the name is one that a `DnsName` can hold.
    pub open spec fn fits(self) -> bool {
        &&& ProtocolVersion::of_wire(self.version.wire()) == self.version
        &&& CipherSuite::of_wire(self.cipher_suite.wire()) == self.cipher_suite
        &&& self.sni matches Some(name) ==> is_owned_dns_name(name)
        &&& self.master_secret.len() < 0x100
        &&& self.client_cert_chain matches Some(chain) ==> chain_fits(chain)
        &&& self.alpn matches Some(proto) ==> proto.len() < 0x100
        &&& self.application_data.len() < 0x1_0000
    }
}

/// A byte string that may be missing: a flag, and the bytes behind their length.
pub open spec fn optional_encoding(bytes: Option<Seq<u8>>) -> Seq<u8> {
    match bytes {
        Some(bytes) => seq![1u8] + prefixed_u8(bytes),
        None => seq![0u8],
    }
}

pub open spec fn optional_decoding(bytes: Seq<u8>) -> Option<(Option<Seq<u8>>, nat)> {
    match decode_u8(bytes) {
        Some((present, n)) => if present == 1 {
            match unprefixed_u8(bytes.skip(n as int)) {
                Some((body, k)) => Some((Some(body), n + k)),
                None => None,
            }
        } else {
            Some((None, n))
        },
        None => None,
    }
}

/// A certificate chain that may be missing.
pub open spec fn optional_chain_encoding(chain: Option<Seq<Seq<u8>>>) -> Seq<u8> {
    match chain {
        Some(chain) => seq![1u8] + vec_u24_encoding::<Certificate>(chain),
        None => seq![0u8],
    }
}

pub open spec fn optional_chain_decoding(bytes: Seq<u8>) -> Option<(Option<Seq<Seq<u8>>>, nat)> {
    match decode_u8(bytes) {
        Some((present, n)) => if present == 1 {
            match vec_u24_decoding::<Certificate>(bytes.skip(n as int)) {
                Some((chain, k)) => Some((Some(chain), n + k)),
                None => None,
            }
        } else {
            Some((None, n))
        },
        None => None,
    }
}

fn put_optional(item: Option<&[u8]>, bytes: &mut Vec<u8>)
    ensures
        final(bytes)@ == old(bytes)@ + optional_encoding(
            match item {
                Some(item) => Some(item@),
                None => None,
            },
        ),
{
    match item {
        Some(item) => {
            bytes.push(1);
            put_prefixed_u8(item, bytes);
            assert(bytes@ =~= old(bytes)@ + optional_encoding(Some(item@)));
        },
        None => {
            bytes.push(0);
            assert(bytes@ =~= old(bytes)@ + optional_encoding(None));
        },
    }
}

fn read_optional(rd: &mut Reader) -> (r: Option<Option<PayloadU8>>)
    ensures
        match optional_decoding(old(rd)@) {
            Some((item, n)) => r is Some && item == (match r->0 {
                Some(item) => Some(item@),
                None => None,
            }) && final(rd)@ == old(rd)@.skip(n as int) && final(rd).spec_used() == old(
                rd,
            ).spec_used() + n,
            None => r is None,
        },
{
    broadcast use lemma_skip_skip;

    match read_u8(rd) {
        Some(present) => if present == 1 {
            match PayloadU8::read(rd) {
                Some(item) => Some(Some(item)),
                None => None,
            }
        } else {
            Some(None)
        },
        None => None,
    }
}

fn put_optional_chain(chain: &Option<Vec<Certificate>>, bytes: &mut Vec<u8>)
    ensures
        final(bytes)@ == old(bytes)@ + optional_chain_encoding(
            match *chain {
                Some(chain) => Some(views(chain@)),
                None => None,
            },
        ),
{
    match chain {
        Some(chain) => {
            bytes.push(1);
            put_vec_u24(chain, bytes);
            assert(bytes@ =~= old(bytes)@ + optional_chain_encoding(Some(views(chain@))));
        },
        None => {
            bytes.push(0);
            assert(bytes@ =~= old(bytes)@ + optional_chain_encoding(None));
        },
    }
}

fn read_optional_chain(rd: &mut Reader) -> (r: Option<Option<Vec<Certificate>>>)
    ensures
        match optional_chain_decoding(old(rd)@) {
            Some((chain, n)) => r is Some && chain == (match r->0 {
                Some(chain) => Some(views(chain@)),
                None => None,
            }) && final(rd)@ == old(rd)@.skip(n as int) && final(rd).spec_used() == old(
                rd,
            ).spec_used() + n,
            None => r is None,
        },
{
    broadcast use lemma_skip_skip;

    match read_u8(rd) {
        Some(present) => if present == 1 {
            match read_vec_u24::<Certificate>(rd) {
                Some(chain) => Some(Some(chain)),
                None => None,
            }
        } else {
            Some(None)
        },
        None => None,
    }
}

impl ServerSessionValue {
    pub fn new(
        sni: Option<&DnsName>,
        version: ProtocolVersion,
        cipher_suite: CipherSuite,
        master_secret: Vec<u8>,
        client_cert_chain: &Option<Vec<Certificate>>,
        alpn: Option<Vec<u8>>,
        application_data: Vec<u8>,
    ) -> (r: ServerSessionValue)
        ensures
            r@ == (ServerSessionValueView {
                sni: match sni {
                    Some(name) => Some(name@),
                    None => None,
                },
                version,
                cipher_suite,
                master_secret: master_secret@,
                extended_ms: false,
                client_cert_chain: match *client_cert_chain {
                    Some(chain) => Some(views(chain@)),
                    None => None,
                },
                alpn: match alpn {
                    Some(proto) => Some(proto@),
                    None => None,
                },
                application_data: application_data@,
            }),
    {
        ServerSessionValue {
            sni: match sni {
                Some(name) => Some(name.duplicate()),
                None => None,
            },
            version,
            cipher_suite,
            master_secret: PayloadU8::new(master_secret),
            extended_ms: false,
            client_cert_chain: match client_cert_chain {
                Some(chain) => Some(duplicate_chain(chain)),
                None => None,
            },
            alpn: match alpn {
                Some(proto) => Some(PayloadU8::new(proto)),
                None => None,
            },
            application_data: PayloadU16::new(application_data),
        }
    }
}

/// The server name at the front of a kept session: `None` where it is not a DNS name.
pub open spec fn sni_decoding(bytes: Seq<u8>) -> Option<(Option<Seq<u8>>, nat)> {
    match optional_decoding(bytes) {
        Some((Some(name), n)) => if is_dns_name(name) {
            Some((Some(lowercase(name)), n))
        } else {
            None
        },
        other => other,
    }
}

/// The part of a kept session that is behind the flags, and what it takes up.
#[verifier::opaque]
pub open spec fn server_value_tail(bytes: Seq<u8>) -> Option<
    (Option<Seq<Seq<u8>>>, Option<Seq<u8>>, Seq<u8>, nat),
> {
    match optional_chain_decoding(bytes) {
        Some((chain, n1)) => match optional_decoding(bytes.skip(n1 as int)) {
            Some((alpn, n2)) => match unprefixed_u16(bytes.skip((n1 + n2) as int)) {
                Some((application_data, n3)) => Some((chain, alpn, application_data, n1 + n2 + n3)),
                None => None,
            },
            None => None,
        },
        None => None,
    }
}

/// Reads the part of a kept session that is behind the flags.
fn read_server_value_tail(rd: &mut Reader) -> (r: Option<
    (Option<Vec<Certificate>>, Option<PayloadU8>, PayloadU16),
>)
    ensures
        match server_value_tail(old(rd)@) {
            Some((chain, alpn, application_data, n)) => {
                &&& r is Some
                &&& chain == (match (r->0).0 {
                    Some(chain) => Some(views(chain@)),
                    None => None,
                })
                &&& alpn == (match (r->0).1 {
                    Some(proto) => Some(proto@),
                    None => None,
                })
                &&& application_data == (r->0).2@
                &&& final(rd)@ == old(rd)@.skip(n as int)
                &&& final(rd).spec_used() == old(rd).spec_used() + n
                &&& n <= old(rd)@.len()
            },
            None => r is None,
        },
{
    broadcast use lemma_skip_skip;

    reveal(server_value_tail);
    let client_cert_chain: Option<Vec<Certificate>> = match read_optional_chain(rd) {
        Some(x) => x,
        None => return None,
    };
    let alpn: Option<PayloadU8> = match read_optional(rd) {
        Some(x) => x,
        None => return None,
    };
    match PayloadU16::read(rd) {
        Some(application_data) => Some((client_cert_chain, alpn, application_data)),
        None => None,
    }
}

impl Codec for ServerSessionValue {
    open spec fn encoding(v: ServerSessionValueView) -> Seq<u8> {
        optional_encoding(v.sni) + (be16(v.version.wire()) + (be16(v.cipher_suite.wire()) + (
        prefixed_u8(v.master_secret) + (seq![flag(v.extended_ms)] + (optional_chain_encoding(
            v.client_cert_chain,
        ) + (optional_encoding(v.alpn) + prefixed_u16(v.application_data)))))))
    }

    open spec fn decoding(bytes: Seq<u8>) -> Option<(ServerSessionValueView, nat)> {
        match sni_decoding(bytes) {
            Some((sni, n1)) => match decode_u16(bytes.skip(n1 as int)) {
                Some((version, n2)) => match decode_u16(bytes.skip((n1 + n2) as int)) {
                    Some((suite, n3)) => match unprefixed_u8(bytes.skip((n1 + n2 + n3) as int)) {
                        Some((master_secret, n4)) => match decode_u8(
                            bytes.skip((n1 + n2 + n3 + n4) as int),
                        ) {
                            Some((extended_ms, n5)) => {
                                let n = n1 + n2 + n3 + n4 + n5;
                                match server_value_tail(bytes.skip(n as int)) {
                                    Some((client_cert_chain, alpn, application_data, k)) => Some(
                                        (
                                            ServerSessionValueView {
                                                sni,
                                                version: ProtocolVersion::of_wire(version),
                                                cipher_suite: CipherSuite::of_wire(suite),
                                                master_secret,
                                                extended_ms: extended_ms == 1,
                                                client_cert_chain,
                                                alpn,
                                                application_data,
                                            },
                                            n + k,
                                        ),
                                    ),
                                    None => None,
                                }
                            },
                            None => None,
                        },
                        None => None,
                    },
                    None => None,
                },
                None => None,
            },
            None => None,
        }
    }

    proof fn decoding_progresses(bytes: Seq<u8>) {
        reveal(server_value_tail);
    }

    fn encode(&self, bytes: &mut Vec<u8>) {
        broadcast use lemma_concat_assoc;

        put_optional(
            match &self.sni {
                Some(name) => Some(name.as_bytes()),
                None => None,
            },
            bytes,
        );
        self.version.encode(bytes);
        self.cipher_suite.encode(bytes);
        self.master_secret.encode(bytes);
        let flags: [u8; 1] = [flag_byte(self.extended_ms)];
        assert(flags@ =~= seq![flag(self.extended_ms)]);
        put_slice(&flags, bytes);
        put_optional_chain(&self.client_cert_chain, bytes);
        put_optional(
            match &self.alpn {
                Some(proto) => Some(proto.0.as_slice()),
                None => None,
            },
            bytes,
        );
        self.application_data.encode(bytes);
        assert(bytes@ =~= old(bytes)@ + Self::encoding(self@));
    }

    #[verifier::rlimit(40)]
    fn read(rd: &mut Reader) -> (r: Option<ServerSessionValue>) {
        broadcast use lemma_skip_skip;

        let sni: Option<DnsName> = match read_optional(rd) {
            Some(Some(name)) => match DnsName::try_from_ascii(name.0.as_slice()) {
                Some(name) => Some(name),
                None => return None,
            },
            Some(None) => None,
            None => return None,
        };
        let version: ProtocolVersion = match ProtocolVersion::read(rd) {
            Some(x) => x,
            None => return None,
        };
        let cipher_suite: CipherSuite = match CipherSuite::read(rd) {
            Some(x) => x,
            None => return None,
        };
        let master_secret: PayloadU8 = match PayloadU8::read(rd) {
            Some(x) => x,
            None => return None,
        };
        let extended_ms: u8 = match read_u8(rd) {
            Some(x) => x,
            None => return None,
        };
        match read_server_value_tail(rd) {
            Some((client_cert_chain, alpn, application_data)) => Some(
                ServerSessionValue {
                    sni,
                    version,
                    cipher_suite,
                    master_secret,
                    extended_ms: extended_ms == 1,
                    client_cert_chain,
                    alpn,
                    application_data,
                },
            ),
            None => None,
        }
    }
}

/// A certificate chain that fits is read back.
proof fn lemma_chain_round_trip(chain: Seq<Seq<u8>>, tail: Seq<u8>)
    requires
        chain_fits(chain),
    ensures
        vec_u24_decoding::<Certificate>(vec_u24_encoding::<Certificate>(chain) + tail) == Some(
            (chain, vec_u24_encoding::<Certificate>(chain).len()),
        ),
{
    assert forall|i: int| 0 <= i < chain.len() implies reads_back::<Certificate>(
        #[trigger] chain[i],
    ) by {
        assert forall|tail: Seq<u8>| #[trigger]
            Certificate::decoding(Certificate::encoding(chain[i]) + tail) == Some(
                (chain[i], Certificate::encoding(chain[i]).len()),
            ) by {
            prefixed_u24_round_trip(chain[i], tail);
        }
    }
    list_behind_length_round_trip::<Certificate>(chain, tail);
}

/// The part behind the secret, put together from its fields.
proof fn lemma_client_tail_fields(
    v: ClientSessionValueView,
    t0: Seq<u8>,
    t1: Seq<u8>,
    t2: Seq<u8>,
    t3: Seq<u8>,
    t4: Seq<u8>,
    t5: Seq<u8>,
    n: nat,
)
    requires
        decode_u64(t0) == Some((v.epoch, 8nat)),
        t0.skip(8) == t1,
        decode_u32(t1) == Some((v.lifetime, 4nat)),
        t1.skip(4) == t2,
        decode_u32(t2) == Some((v.age_add, 4nat)),
        t2.skip(4) == t3,
        decode_u8(t3) == Some((flag(v.extended_ms), 1nat)),
        t3.skip(1) == t4,
        decode_u32(t4) == Some((v.max_early_data_size, 4nat)),
        t4.skip(4) == t5,
        vec_u24_decoding::<Certificate>(t5) == Some((v.server_cert_chain, n)),
    ensures
        client_value_tail(t0) == Some(
            (
                ClientSessionValueView {
                    version: ProtocolVersion::TLSv1_2,
                    cipher_suite: CipherSuite::Unknown(0),
                    session_id: Seq::empty(),
                    ticket: Seq::empty(),
                    master_secret: Seq::empty(),
                    ..v
                },
                8 + 4 + 4 + 1 + 4 + n,
            ),
        ),
{
    reveal(client_value_tail);
    lemma_skip_skip(t0, 8, 4);
    lemma_skip_skip(t0, 12, 4);
    lemma_skip_skip(t0, 16, 1);
    lemma_skip_skip(t0, 17, 4);
}

/// A kept session, put together from its fields.
proof fn lemma_client_fields(
    v: ClientSessionValueView,
    t0: Seq<u8>,
    t1: Seq<u8>,
    t2: Seq<u8>,
    t3: Seq<u8>,
    t4: Seq<u8>,
    t5: Seq<u8>,
    n: nat,
)
    requires
        v.fits(),
        decode_u16(t0) == Some((v.version.wire(), 2nat)),
        t0.skip(2) == t1,
        decode_u16(t1) == Some((v.cipher_suite.wire(), 2nat)),
        t1.skip(2) == t2,
        unprefixed_u8(t2) == Some((v.session_id, prefixed_u8(v.session_id).len())),
        t2.skip(prefixed_u8(v.session_id).len() as int) == t3,
        unprefixed_u16(t3) == Some((v.ticket, prefixed_u16(v.ticket).len())),
        t3.skip(prefixed_u16(v.ticket).len() as int) == t4,
        unprefixed_u8(t4) == Some((v.master_secret, prefixed_u8(v.master_secret).len())),
        t4.skip(prefixed_u8(v.master_secret).len() as int) == t5,
        client_value_tail(t5) == Some(
            (
                ClientSessionValueView {
                    version: ProtocolVersion::TLSv1_2,
                    cipher_suite: CipherSuite::Unknown(0),
                    session_id: Seq::empty(),
                    ticket: Seq::empty(),
                    master_secret: Seq::empty(),
                    ..v
                },
                n,
            ),
        ),
    ensures
        ClientSessionValue::decoding(t0) == Some(
            (
                v,
                4 + prefixed_u8(v.session_id).len() + prefixed_u16(v.ticket).len() + prefixed_u8(
                    v.master_secret,
                ).len() + n,
            ),
        ),
{
    let n3 = prefixed_u8(v.session_id).len() as int;
    let n4 = prefixed_u16(v.ticket).len() as int;
    let n5 = prefixed_u8(v.master_secret).len() as int;
    lemma_skip_skip(t0, 2, 2);
    lemma_skip_skip(t0, 4, n3);
    lemma_skip_skip(t0, 4 + n3, n4);
    lemma_skip_skip(t0, 4 + n3 + n4, n5);
}

proof fn lemma_u64_in_front(x: u64, rest: Seq<u8>)
    ensures
        decode_u64(be64(x) + rest) == Some((x, 8nat)),
        (be64(x) + rest).skip(8) == rest,
{
    u64_round_trip(x, rest);
    lemma_skip_front(be64(x), rest);
}

proof fn lemma_u32_in_front(x: u32, rest: Seq<u8>)
    ensures
        decode_u32(be32(x) + rest) == Some((x, 4nat)),
        (be32(x) + rest).skip(4) == rest,
{
    u32_round_trip(x, rest);
    lemma_skip_front(be32(x), rest);
}

/// The part behind the secret is read back.
#[verifier::spinoff_prover]
#[verifier::rlimit(60)]
proof fn lemma_client_tail_round_trip(v: ClientSessionValueView, t10: Seq<u8>, n: nat)
    requires
        vec_u24_decoding::<Certificate>(t10) == Some((v.server_cert_chain, n)),
    ensures
        client_value_tail(
            be64(v.epoch) + (be32(v.lifetime) + (be32(v.age_add) + (seq![flag(v.extended_ms)] + (
            be32(v.max_early_data_size) + t10)))),
        ) == Some(
            (
                ClientSessionValueView {
                    version: ProtocolVersion::TLSv1_2,
                    cipher_suite: CipherSuite::Unknown(0),
                    session_id: Seq::empty(),
                    ticket: Seq::empty(),
                    master_secret: Seq::empty(),
                    ..v
                },
                8 + 4 + 4 + 1 + 4 + n,
            ),
        ),
{
    let s5 = be64(v.epoch);
    let s6 = be32(v.lifetime);
    let s7 = be32(v.age_add);
    let s8 = seq![flag(v.extended_ms)];
    let s9 = be32(v.max_early_data_size);
    let t9 = s9 + t10;
    let t8 = s8 + t9;
    let t7 = s7 + t8;
    let t6 = s6 + t7;
    let t5 = s5 + t6;
    lemma_u64_in_front(v.epoch, t6);
    lemma_u32_in_front(v.lifetime, t7);
    lemma_u32_in_front(v.age_add, t8);
    lemma_skip_front(s8, t9);
    lemma_u32_in_front(v.max_early_data_size, t10);
    lemma_client_tail_fields(v, t5, t6, t7, t8, t9, t10, n);
}

/// The part up to the secret is read back.
proof fn lemma_client_head_round_trip(v: ClientSessionValueView, t5: Seq<u8>, n: nat)
    requires
        v.fits(),
        client_value_tail(t5) == Some(
            (
                ClientSessionValueView {
                    version: ProtocolVersion::TLSv1_2,
                    cipher_suite: CipherSuite::Unknown(0),
                    session_id: Seq::empty(),
                    ticket: Seq::empty(),
                    master_secret: Seq::empty(),
                    ..v
                },
                n,
            ),
        ),
    ensures
        ClientSessionValue::decoding(
            be16(v.version.wire()) + (be16(v.cipher_suite.wire()) + (prefixed_u8(v.session_id) + (
            prefixed_u16(v.ticket) + (prefixed_u8(v.master_secret) + t5)))),
        ) == Some(
            (
                v,
                4 + prefixed_u8(v.session_id).len() + prefixed_u16(v.ticket).len() + prefixed_u8(
                    v.master_secret,
                ).len() + n,
            ),
        ),
{
    let s0 = be16(v.version.wire());
    let s1 = be16(v.cipher_suite.wire());
    let s2 = prefixed_u8(v.session_id);
    let s3 = prefixed_u16(v.ticket);
    let s4 = prefixed_u8(v.master_secret);
    let t4 = s4 + t5;
    let t3 = s3 + t4;
    let t2 = s2 + t3;
    let t1 = s1 + t2;
    let t0 = s0 + t1;
    assert(decode_u16(t0) == Some((v.version.wire(), 2nat)) && t0.skip(2) == t1) by {
        u16_round_trip(v.version.wire(), t1);
        lemma_skip_front(s0, t1);
    }
    assert(decode_u16(t1) == Some((v.cipher_suite.wire(), 2nat)) && t1.skip(2) == t2) by {
        u16_round_trip(v.cipher_suite.wire(), t2);
        lemma_skip_front(s1, t2);
    }
    assert(unprefixed_u8(t2) == Some((v.session_id, s2.len())) && t2.skip(s2.len() as int) == t3)
        by {
        prefixed_u8_round_trip(v.session_id, t3);
        lemma_skip_front(s2, t3);
    }
    assert(unprefixed_u16(t3) == Some((v.ticket, s3.len())) && t3.skip(s3.len() as int) == t4) by {
        prefixed_u16_round_trip(v.ticket, t4);
        lemma_skip_front(s3, t4);
    }
    assert(unprefixed_u8(t4) == Some((v.master_secret, s4.len())) && t4.skip(s4.len() as int)
        == t5) by {
        prefixed_u8_round_trip(v.master_secret, t5);
        lemma_skip_front(s4, t5);
    }
    lemma_client_fields(v, t0, t1, t2, t3, t4, t5, n);
}

/// A kept session and what follows it, one part after the other.
proof fn lemma_client_parts(v: ClientSessionValueView, tail: Seq<u8>)
    ensures
        ClientSessionValue::encoding(v) + tail == be16(v.version.wire()) + (be16(
            v.cipher_suite.wire(),
        ) + (prefixed_u8(v.session_id) + (prefixed_u16(v.ticket) + (prefixed_u8(v.master_secret)
            + (be64(v.epoch) + (be32(v.lifetime) + (be32(v.age_add) + (seq![flag(v.extended_ms)]
            + (be32(v.max_early_data_size) + (vec_u24_encoding::<Certificate>(v.server_cert_chain)
            + tail)))))))))),
        ClientSessionValue::encoding(v).len() == 4 + prefixed_u8(v.session_id).len()
            + prefixed_u16(v.ticket).len() + prefixed_u8(v.master_secret).len() + 21
            + vec_u24_encoding::<Certificate>(v.server_cert_chain).len(),
{
    let s0 = be16(v.version.wire());
    let s1 = be16(v.cipher_suite.wire());
    let s2 = prefixed_u8(v.session_id);
    let s3 = prefixed_u16(v.ticket);
    let s4 = prefixed_u8(v.master_secret);
    let s5 = be64(v.epoch);
    let s6 = be32(v.lifetime);
    let s7 = be32(v.age_add);
    let s8 = seq![flag(v.extended_ms)];
    let s9 = be32(v.max_early_data_size);
    let s10 = vec_u24_encoding::<Certificate>(v.server_cert_chain);
    let e9 = s9 + s10;
    let e8 = s8 + e9;
    let e7 = s7 + e8;
    let e6 = s6 + e7;
    let e5 = s5 + e6;
    let e4 = s4 + e5;
    let e3 = s3 + e4;
    let e2 = s2 + e3;
    let e1 = s1 + e2;
    lemma_concat_assoc(s9, s10, tail);
    lemma_concat_assoc(s8, e9, tail);
    lemma_concat_assoc(s7, e8, tail);
    lemma_concat_assoc(s6, e7, tail);
    lemma_concat_assoc(s5, e6, tail);
    lemma_concat_assoc(s4, e5, tail);
    lemma_concat_assoc(s3, e4, tail);
    lemma_concat_assoc(s2, e3, tail);
    lemma_concat_assoc(s1, e2, tail);
    lemma_concat_assoc(s0, e1, tail);
}

/// A session that a client stored is the one that it reads back, whatever was stored behind
/// it.
pub proof fn client_session_reads_back(v: ClientSessionValueView, tail: Seq<u8>)
    requires
        v.fits(),
    ensures
        ClientSessionValue::decoding(ClientSessionValue::encoding(v) + tail) == Some(
            (v, ClientSessionValue::encoding(v).len()),
        ),
{
    let s10 = vec_u24_encoding::<Certificate>(v.server_cert_chain);
    let t10 = s10 + tail;
    lemma_chain_round_trip(v.server_cert_chain, tail);
    lemma_client_parts(v, tail);
    lemma_client_tail_round_trip(v, t10, s10.len());
    lemma_client_head_round_trip(
        v,
        be64(v.epoch) + (be32(v.lifetime) + (be32(v.age_add) + (seq![flag(v.extended_ms)] + (be32(
            v.max_early_data_size,
        ) + t10)))),
        21 + s10.len(),
    );
}

/// The optional parts are read back.
proof fn lemma_optional_round_trip(item: Option<Seq<u8>>, tail: Seq<u8>)
    requires
        item matches Some(bytes) ==> bytes.len() < 0x100,
    ensures
        optional_decoding(optional_encoding(item) + tail) == Some(
            (item, optional_encoding(item).len()),
        ),
{
    let all = optional_encoding(item) + tail;
    match item {
        Some(bytes) => {
            prefixed_u8_round_trip(bytes, tail);
            assert(all.skip(1) =~= prefixed_u8(bytes) + tail);
        },
        None => {},
    }
}

proof fn lemma_optional_chain_round_trip(chain: Option<Seq<Seq<u8>>>, tail: Seq<u8>)
    requires
        chain matches Some(chain) ==> chain_fits(chain),
    ensures
        optional_chain_decoding(optional_chain_encoding(chain) + tail) == Some(
            (chain, optional_chain_encoding(chain).len()),
        ),
{
    let all = optional_chain_encoding(chain) + tail;
    match chain {
        Some(chain) => {
            lemma_chain_round_trip(chain, tail);
            assert(all.skip(1) =~= vec_u24_encoding::<Certificate>(chain) + tail);
        },
        None => {},
    }
}

/// A kept session, put together from its fields.
proof fn lemma_server_fields(
    v: ServerSessionValueView,
    t0: Seq<u8>,
    t1: Seq<u8>,
    t2: Seq<u8>,
    t3: Seq<u8>,
    t4: Seq<u8>,
    t5: Seq<u8>,
    n1: nat,
    n4: nat,
    n: nat,
)
    requires
        v.fits(),
        sni_decoding(t0) == Some((v.sni, n1)),
        n1 <= t0.len(),
        t0.skip(n1 as int) == t1,
        decode_u16(t1) == Some((v.version.wire(), 2nat)),
        t1.skip(2) == t2,
        decode_u16(t2) == Some((v.cipher_suite.wire(), 2nat)),
        t2.skip(2) == t3,
        unprefixed_u8(t3) == Some((v.master_secret, n4)),
        t3.skip(n4 as int) == t4,
        decode_u8(t4) == Some((flag(v.extended_ms), 1nat)),
        t4.skip(1) == t5,
        server_value_tail(t5) == Some((v.client_cert_chain, v.alpn, v.application_data, n)),
    ensures
        ServerSessionValue::decoding(t0) == Some((v, n1 + 4 + n4 + 1 + n)),
{
    lemma_skip_skip(t0, n1 as int, 2);
    lemma_skip_skip(t0, (n1 + 2) as int, 2);
    lemma_skip_skip(t0, (n1 + 4) as int, n4 as int);
    lemma_skip_skip(t0, (n1 + 4 + n4) as int, 1);
}

/// A session that a server stored is the one that it reads back, whatever was stored behind
/// it.
#[verifier::spinoff_prover]
#[verifier::rlimit(60)]
pub proof fn server_session_reads_back(v: ServerSessionValueView, tail: Seq<u8>)
    requires
        v.fits(),
    ensures
        ServerSessionValue::decoding(ServerSessionValue::encoding(v) + tail) == Some(
            (v, ServerSessionValue::encoding(v).len()),
        ),
{
    let s0 = optional_encoding(v.sni);
    let s1 = be16(v.version.wire());
    let s2 = be16(v.cipher_suite.wire());
    let s3 = prefixed_u8(v.master_secret);
    let s4 = seq![flag(v.extended_ms)];
    let s5 = optional_chain_encoding(v.client_cert_chain);
    let s6 = optional_encoding(v.alpn);
    let s7 = prefixed_u16(v.application_data);
    let t7 = s7 + tail;
    let t6 = s6 + t7;
    let t5 = s5 + t6;
    let t4 = s4 + t5;
    let t3 = s3 + t4;
    let t2 = s2 + t3;
    let t1 = s1 + t2;
    let t0 = s0 + t1;
    let e6 = s6 + s7;
    let e5 = s5 + e6;
    let e4 = s4 + e5;
    let e3 = s3 + e4;
    let e2 = s2 + e3;
    let e1 = s1 + e2;
    lemma_concat_assoc(s6, s7, tail);
    lemma_concat_assoc(s5, e6, tail);
    lemma_concat_assoc(s4, e5, tail);
    lemma_concat_assoc(s3, e4, tail);
    lemma_concat_assoc(s2, e3, tail);
    lemma_concat_assoc(s1, e2, tail);
    lemma_concat_assoc(s0, e1, tail);
    assert(sni_decoding(t0) == Some((v.sni, s0.len())) && t0.skip(s0.len() as int) == t1) by {
        lemma_optional_round_trip(v.sni, t1);
        lemma_skip_front(s0, t1);
    }
    assert(decode_u16(t1) == Some((v.version.wire(), 2nat)) && t1.skip(2) == t2) by {
        u16_round_trip(v.version.wire(), t2);
        lemma_skip_front(s1, t2);
    }
    assert(decode_u16(t2) == Some((v.cipher_suite.wire(), 2nat)) && t2.skip(2) == t3) by {
        u16_round_trip(v.cipher_suite.wire(), t3);
        lemma_skip_front(s2, t3);
    }
    assert(unprefixed_u8(t3) == Some((v.master_secret, s3.len())) && t3.skip(s3.len() as int)
        == t4) by {
        prefixed_u8_round_trip(v.master_secret, t4);
        lemma_skip_front(s3, t4);
    }
    assert(decode_u8(t4) == Some((flag(v.extended_ms), 1nat)) && t4.skip(1) == t5) by {
        lemma_skip_front(s4, t5);
    }
    assert(server_value_tail(t5) == Some(
        (v.client_cert_chain, v.alpn, v.application_data, s5.len() + s6.len() + s7.len()),
    )) by {
        reveal(server_value_tail);
        lemma_optional_chain_round_trip(v.client_cert_chain, t6);
        lemma_optional_round_trip(v.alpn, t7);
        prefixed_u16_round_trip(v.application_data, tail);
        lemma_skip_front(s5, t6);
        lemma_skip_front(s6, t7);
        lemma_skip_skip(t5, s5.len() as int, s6.len() as int);
    }
    let n = s5.len() + s6.len() + s7.len();
    lemma_server_fields(v, t0, t1, t2, t3, t4, t5, s0.len(), s3.len(), n);
    assert(ServerSessionValue::encoding(v).len() == s0.len() + 4 + s3.len() + 1 + n);
}

} // verus!
