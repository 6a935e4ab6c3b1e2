//! The extensions of the handshake messages. Each kind of extension list knows the
//! extensions that the handshake acts on; it keeps the others as they came.

use crate::base::{Payload, PayloadU16, PayloadU8};
use crate::codec::{
    be16, be32, decode_u16, decode_u32, decode_u8, lemma_skip_skip, prefixed_u16, prefixed_u24,
    put_prefixed_u16, put_prefixed_u24, put_u16, put_u32, put_vec_u16, read_u16, read_u32, read_u8,
    read_vec_u16, sub_prefixed_u16, sub_prefixed_u24, to_vec, unprefixed_u16, unprefixed_u24,
    vec_u16_decoding, vec_u16_encoding, views, Codec, Reader,
};
use crate::enums::{ExtensionType, NamedGroup, SignatureScheme};
use vstd::prelude::*;

verus! {

/// An extension on the wire: its type, and its body behind a length.
pub open spec fn extension_encoding(typ: ExtensionType, body: Seq<u8>) -> Seq<u8> {
    be16(typ.wire()) + prefixed_u16(body)
}

/// The type and the body of the extension at the front of `bytes`, and what it takes up.
pub open spec fn extension_at(bytes: Seq<u8>) -> Option<(ExtensionType, Seq<u8>, nat)> {
    match decode_u16(bytes) {
        Some((typ, n)) => match unprefixed_u16(bytes.skip(n as int)) {
            Some((body, k)) => Some((ExtensionType::of_wire(typ), body, n + k)),
            None => None,
        },
        None => None,
    }
}

fn put_extension(typ: ExtensionType, body: &[u8], bytes: &mut Vec<u8>)
    ensures
        final(bytes)@ == old(bytes)@ + extension_encoding(typ, body@),
{
    put_u16(typ.get_u16(), bytes);
    put_prefixed_u16(body, bytes);
    assert(bytes@ =~= old(bytes)@ + extension_encoding(typ, body@));
}

fn read_extension<'a>(rd: &mut Reader<'a>) -> (r: Option<(ExtensionType, Reader<'a>)>)
    ensures
        match extension_at(old(rd)@) {
            Some((typ, body, n)) => r is Some && (r->0).0 == typ && (r->0).1@ == body && final(rd)@
                == old(rd)@.skip(n as int) && final(rd).spec_used() == old(rd).spec_used() + n,
            None => r is None,
        },
{
    broadcast use lemma_skip_skip;

    let typ: ExtensionType = match read_u16(rd) {
        Some(x) => ExtensionType::from_u16(x),
        None => return None,
    };
    match sub_prefixed_u16(rd) {
        Some(body) => Some((typ, body)),
        None => None,
    }
}

/// An extension of some list.
pub trait TypedExtension: View + Sized {
    /// The type of an extension.
    spec fn kind(v: Self::V) -> ExtensionType;

    fn get_type(&self) -> (r: ExtensionType)
        ensures
            r == Self::kind(self@),
    ;
}

/// The first extension of a type, if there is one.
pub open spec fn first_of_type<E: TypedExtension>(exts: Seq<E::V>, typ: ExtensionType) -> Option<E::V>
    decreases exts.len(),
{
    if exts.len() == 0 {
        None
    } else if E::kind(exts[0]) == typ {
        Some(exts[0])
    } else {
        first_of_type::<E>(exts.drop_first(), typ)
    }
}

/// Whether two extensions have the same type.
pub open spec fn has_duplicates<E: TypedExtension>(exts: Seq<E::V>) -> bool {
    exists|i: int, j: int|
        0 <= i < j < exts.len() && #[trigger] E::kind(exts[i]) == #[trigger] E::kind(exts[j])
}

/// The first extension of a type, if there is one.
pub fn find_extension<E: TypedExtension>(exts: &Vec<E>, typ: ExtensionType) -> (r: Option<&E>)
    ensures
        match first_of_type::<E>(views(exts@), typ) {
            Some(v) => r is Some && r->0@ == v,
            None => r is None,
        },
{
    let mut i: usize = 0;
    assert(views(exts@).skip(0) =~= views(exts@));
    while i < exts.len()
        invariant
            i <= exts@.len(),
            first_of_type::<E>(views(exts@).skip(i as int), typ) == first_of_type::<E>(
                views(exts@),
                typ,
            ),
        decreases exts@.len() - i,
    {
        assert(views(exts@).skip(i as int)[0] == exts@[i as int]@);
        if exts[i].get_type() == typ {
            return Some(&exts[i]);
        }
        assert(views(exts@).skip(i as int).drop_first() =~= views(exts@).skip(i + 1));
        i += 1;
    }
    assert(views(exts@).skip(i as int) =~= Seq::<E::V>::empty());
    None
}

/// Whether two extensions have the same type.
pub fn has_duplicate_extension<E: TypedExtension>(exts: &Vec<E>) -> (r: bool)
    ensures
        r == has_duplicates::<E>(views(exts@)),
{
    let ghost vs = views(exts@);
    let mut j: usize = 0;
    while j < exts.len()
        invariant
            j <= exts@.len(),
            vs == views(exts@),
            forall|a: int, b: int|
                0 <= a < b < j ==> #[trigger] E::kind(vs[a]) != #[trigger] E::kind(vs[b]),
        decreases exts@.len() - j,
    {
        let typ: ExtensionType = exts[j].get_type();
        let mut i: usize = 0;
        while i < j
            invariant
                i <= j < exts@.len(),
                vs == views(exts@),
                typ == E::kind(vs[j as int]),
                forall|a: int| 0 <= a < i ==> #[trigger] E::kind(vs[a]) != typ,
            decreases j - i,
        {
            assert(vs[i as int] == exts@[i as int]@);
            if exts[i].get_type() == typ {
                assert(E::kind(vs[i as int]) == E::kind(vs[j as int]));
                return true;
            }
            i += 1;
        }
        j += 1;
    }
    false
}

/// The value that was read, if it took up all of the `len` bytes there were.
pub open spec fn whole<A>(read: Option<(A, nat)>, len: nat) -> Option<A> {
    match read {
        Some((v, n)) => if n == len {
            Some(v)
        } else {
            None
        },
        None => None,
    }
}

/// A public key offered for the exchange in a group.
#[derive(Debug, PartialEq, Eq)]
pub struct KeyShareEntry {
    pub group: NamedGroup,
    pub payload: PayloadU16,
}

#[verifier::ext_equal]
pub struct KeyShareEntryView {
    pub group: NamedGroup,
    pub payload: Seq<u8>,
}

impl View for KeyShareEntry {
    type V = KeyShareEntryView;

    open spec fn view(&self) -> KeyShareEntryView {
        KeyShareEntryView { group: self.group, payload: self.payload@ }
    }
}

impl KeyShareEntry {
    pub fn new(group: NamedGroup, payload: &[u8]) -> (r: KeyShareEntry)
        ensures
            r@ == (KeyShareEntryView { group, payload: payload@ }),
    {
        KeyShareEntry { group, payload: PayloadU16(to_vec(payload)) }
    }
}

impl Codec for KeyShareEntry {
    open spec fn encoding(v: KeyShareEntryView) -> Seq<u8> {
        be16(v.group.wire()) + prefixed_u16(v.payload)
    }

    open spec fn decoding(bytes: Seq<u8>) -> Option<(KeyShareEntryView, nat)> {
        match decode_u16(bytes) {
            Some((group, n)) => match unprefixed_u16(bytes.skip(n as int)) {
                Some((payload, k)) => Some(
                    (KeyShareEntryView { group: NamedGroup::of_wire(group), payload }, n + k),
                ),
                None => None,
            },
            None => None,
        }
    }

    proof fn decoding_progresses(bytes: Seq<u8>) {
    }

    fn encode(&self, bytes: &mut Vec<u8>) {
        self.group.encode(bytes);
        self.payload.encode(bytes);
        assert(bytes@ =~= old(bytes)@ + Self::encoding(self@));
    }

    fn read(rd: &mut Reader) -> (r: Option<KeyShareEntry>) {
        broadcast use lemma_skip_skip;

        let group: NamedGroup = match NamedGroup::read(rd) {
            Some(x) => x,
            None => return None,
        };
        match PayloadU16::read(rd) {
            Some(payload) => Some(KeyShareEntry { group, payload }),
            None => None,
        }
    }
}

/// An extension that is kept as it came.
#[derive(Debug, PartialEq, Eq)]
pub struct UnknownExtension {
    pub typ: ExtensionType,
    pub payload: Payload,
}

/// A ticket offered for resumption.
#[derive(Debug, PartialEq, Eq)]
pub struct PresharedKeyIdentity {
    pub identity: PayloadU16,
    pub obfuscated_ticket_age: u32,
}

#[verifier::ext_equal]
pub struct PresharedKeyIdentityView {
    pub identity: Seq<u8>,
    pub obfuscated_ticket_age: u32,
}

impl View for PresharedKeyIdentity {
    type V = PresharedKeyIdentityView;

    open spec fn view(&self) -> PresharedKeyIdentityView {
        PresharedKeyIdentityView {
            identity: self.identity@,
            obfuscated_ticket_age: self.obfuscated_ticket_age,
        }
    }
}

impl PresharedKeyIdentity {
    pub fn new(id: Vec<u8>, age: u32) -> (r: PresharedKeyIdentity)
        ensures
            r@ == (PresharedKeyIdentityView { identity: id@, obfuscated_ticket_age: age }),
    {
        PresharedKeyIdentity { identity: PayloadU16::new(id), obfuscated_ticket_age: age }
    }
}

impl Codec for PresharedKeyIdentity {
    open spec fn encoding(v: PresharedKeyIdentityView) -> Seq<u8> {
        prefixed_u16(v.identity) + be32(v.obfuscated_ticket_age)
    }

    open spec fn decoding(bytes: Seq<u8>) -> Option<(PresharedKeyIdentityView, nat)> {
        match unprefixed_u16(bytes) {
            Some((identity, n)) => match decode_u32(bytes.skip(n as int)) {
                Some((obfuscated_ticket_age, k)) => Some(
                    (PresharedKeyIdentityView { identity, obfuscated_ticket_age }, n + k),
                ),
                None => None,
            },
            None => None,
        }
    }

    proof fn decoding_progresses(bytes: Seq<u8>) {
    }

    fn encode(&self, bytes: &mut Vec<u8>) {
        self.identity.encode(bytes);
        put_u32(self.obfuscated_ticket_age, bytes);
        assert(bytes@ =~= old(bytes)@ + Self::encoding(self@));
    }

    fn read(rd: &mut Reader) -> (r: Option<PresharedKeyIdentity>) {
        broadcast use lemma_skip_skip;

        let identity: PayloadU16 = match PayloadU16::read(rd) {
            Some(x) => x,
            None => return None,
        };
        match read_u32(rd) {
            Some(obfuscated_ticket_age) => Some(
                PresharedKeyIdentity { identity, obfuscated_ticket_age },
            ),
            None => None,
        }
    }
}

/// The tickets offered for resumption, each with a binder that proves possession of its
/// secret.
#[derive(Debug, PartialEq, Eq)]
pub struct PresharedKeyOffer {
    pub identities: Vec<PresharedKeyIdentity>,
    pub binders: Vec<PayloadU8>,
}

#[verifier::ext_equal]
pub struct PresharedKeyOfferView {
    pub identities: Seq<PresharedKeyIdentityView>,
    pub binders: Seq<Seq<u8>>,
}

impl View for PresharedKeyOffer {
    type V = PresharedKeyOfferView;

    open spec fn view(&self) -> PresharedKeyOfferView {
        PresharedKeyOfferView {
            identities: views(self.identities@),
            binders: views(self.binders@),
        }
    }
}

impl PresharedKeyOffer {
    /// An offer of one ticket.
    pub fn new(id: PresharedKeyIdentity, binder: Vec<u8>) -> (r: PresharedKeyOffer)
        ensures
            r@ == (PresharedKeyOfferView { identities: seq![id@], binders: seq![binder@] }),
    {
        let ghost id_view = id@;
        let ghost binder_view = binder@;
        let mut identities: Vec<PresharedKeyIdentity> = Vec::new();
        identities.push(id);
        let mut binders: Vec<PayloadU8> = Vec::new();
        binders.push(PayloadU8::new(binder));
        let r = PresharedKeyOffer { identities, binders };
        assert(r@.identities =~= seq![id_view]);
        assert(r@.binders =~= seq![binder_view]);
        r
    }
}

/// An extension of a ClientHello.
#[derive(Debug, PartialEq, Eq)]
pub enum ClientExtension {
    KeyShare(Vec<KeyShareEntry>),
    PresharedKey(PresharedKeyOffer),
    EarlyData,
    Unknown(UnknownExtension),
}

#[verifier::ext_equal]
pub enum ClientExtensionView {
    KeyShare(Seq<KeyShareEntryView>),
    PresharedKey(PresharedKeyOfferView),
    EarlyData,
    Unknown(ExtensionType, Seq<u8>),
}

impl View for ClientExtension {
    type V = ClientExtensionView;

    open spec fn view(&self) -> ClientExtensionView {
        match *self {
            ClientExtension::KeyShare(shares) => ClientExtensionView::KeyShare(views(shares@)),
            ClientExtension::PresharedKey(offer) => ClientExtensionView::PresharedKey(offer@),
            ClientExtension::EarlyData => ClientExtensionView::EarlyData,
            ClientExtension::Unknown(ext) => ClientExtensionView::Unknown(ext.typ, ext.payload@),
        }
    }
}

impl ClientExtensionView {
    pub open spec fn typ(self) -> ExtensionType {
        match self {
            ClientExtensionView::KeyShare(_) => ExtensionType::KeyShare,
            ClientExtensionView::PresharedKey(_) => ExtensionType::PreSharedKey,
            ClientExtensionView::EarlyData => ExtensionType::EarlyData,
            ClientExtensionView::Unknown(typ, _) => typ,
        }
    }

    pub open spec fn body(self) -> Seq<u8> {
        match self {
            ClientExtensionView::KeyShare(shares) => vec_u16_encoding::<KeyShareEntry>(shares),
            ClientExtensionView::PresharedKey(offer) => vec_u16_encoding::<PresharedKeyIdentity>(
                offer.identities,
            ) + vec_u16_encoding::<PayloadU8>(offer.binders),
            ClientExtensionView::EarlyData => Seq::empty(),
            ClientExtensionView::Unknown(_, payload) => payload,
        }
    }

    /// The extension of a type whose body is `body`.
    pub open spec fn of_body(typ: ExtensionType, body: Seq<u8>) -> Option<ClientExtensionView> {
        match typ {
            ExtensionType::KeyShare => match whole(
                vec_u16_decoding::<KeyShareEntry>(body),
                body.len(),
            ) {
                Some(shares) => Some(ClientExtensionView::KeyShare(shares)),
                None => None,
            },
            ExtensionType::PreSharedKey => match vec_u16_decoding::<PresharedKeyIdentity>(body) {
                Some((identities, n)) => match whole(
                    vec_u16_decoding::<PayloadU8>(body.skip(n as int)),
                    (body.len() - n) as nat,
                ) {
                    Some(binders) => Some(
                        ClientExtensionView::PresharedKey(
                            PresharedKeyOfferView { identities, binders },
                        ),
                    ),
                    None => None,
                },
                None => None,
            },
            ExtensionType::EarlyData => if body.len() == 0 {
                Some(ClientExtensionView::EarlyData)
            } else {
                None
            },
            _ => Some(ClientExtensionView::Unknown(typ, body)),
        }
    }
}

impl TypedExtension for ClientExtension {
    open spec fn kind(v: ClientExtensionView) -> ExtensionType {
        v.typ()
    }

    fn get_type(&self) -> (r: ExtensionType) {
        assert(Self::kind(self@) == self@.typ());
        match self {
            ClientExtension::KeyShare(_) => ExtensionType::KeyShare,
            ClientExtension::PresharedKey(_) => ExtensionType::PreSharedKey,
            ClientExtension::EarlyData => ExtensionType::EarlyData,
            ClientExtension::Unknown(ext) => ext.typ,
        }
    }
}

impl Codec for ClientExtension {
    open spec fn encoding(v: ClientExtensionView) -> Seq<u8> {
        extension_encoding(v.typ(), v.body())
    }

    open spec fn decoding(bytes: Seq<u8>) -> Option<(ClientExtensionView, nat)> {
        match extension_at(bytes) {
            Some((typ, body, n)) => match ClientExtensionView::of_body(typ, body) {
                Some(v) => Some((v, n)),
                None => None,
            },
            None => None,
        }
    }

    proof fn decoding_progresses(bytes: Seq<u8>) {
    }

    fn encode(&self, bytes: &mut Vec<u8>) {
        let mut body: Vec<u8> = Vec::new();
        match self {
            ClientExtension::KeyShare(shares) => put_vec_u16(shares, &mut body),
            ClientExtension::PresharedKey(offer) => {
                put_vec_u16(&offer.identities, &mut body);
                put_vec_u16(&offer.binders, &mut body);
            },
            ClientExtension::EarlyData => {},
            ClientExtension::Unknown(ext) => {
                body = to_vec(ext.payload.0.as_slice());
            },
        }
        assert(body@ =~= self@.body());
        put_extension(self.get_type(), body.as_slice(), bytes);
    }

    fn read(rd: &mut Reader) -> (r: Option<ClientExtension>) {
        broadcast use lemma_skip_skip;

        let (typ, mut body) = match read_extension(rd) {
            Some(x) => x,
            None => return None,
        };
        let ext: ClientExtension = match typ {
            ExtensionType::KeyShare => match read_vec_u16::<KeyShareEntry>(&mut body) {
                Some(shares) => ClientExtension::KeyShare(shares),
                None => return None,
            },
            ExtensionType::PreSharedKey => {
                let identities: Vec<PresharedKeyIdentity> = match read_vec_u16(&mut body) {
                    Some(x) => x,
                    None => return None,
                };
                let binders: Vec<PayloadU8> = match read_vec_u16(&mut body) {
                    Some(x) => x,
                    None => return None,
                };
                ClientExtension::PresharedKey(PresharedKeyOffer { identities, binders })
            },
            ExtensionType::EarlyData => ClientExtension::EarlyData,
            _ => ClientExtension::Unknown(
                UnknownExtension { typ, payload: Payload::new(body.rest()) },
            ),
        };
        if body.any_left() {
            None
        } else {
            Some(ext)
        }
    }
}

/// An extension of a ServerHello or of the EncryptedExtensions.
#[derive(Debug, PartialEq, Eq)]
pub enum ServerExtension {
    KeyShare(KeyShareEntry),
    PresharedKey(u16),
    Protocols(Vec<PayloadU8>),
    EarlyData,
    TransportParameters(Vec<u8>),
    Unknown(UnknownExtension),
}

#[verifier::ext_equal]
pub enum ServerExtensionView {
    KeyShare(KeyShareEntryView),
    PresharedKey(u16),
    Protocols(Seq<Seq<u8>>),
    EarlyData,
    TransportParameters(Seq<u8>),
    Unknown(ExtensionType, Seq<u8>),
}

impl View for ServerExtension {
    type V = ServerExtensionView;

    open spec fn view(&self) -> ServerExtensionView {
        match *self {
            ServerExtension::KeyShare(share) => ServerExtensionView::KeyShare(share@),
            ServerExtension::PresharedKey(index) => ServerExtensionView::PresharedKey(index),
            ServerExtension::Protocols(protos) => ServerExtensionView::Protocols(views(protos@)),
            ServerExtension::EarlyData => ServerExtensionView::EarlyData,
            ServerExtension::TransportParameters(params) => ServerExtensionView::TransportParameters(
                params@,
            ),
            ServerExtension::Unknown(ext) => ServerExtensionView::Unknown(ext.typ, ext.payload@),
        }
    }
}

impl ServerExtensionView {
    pub open spec fn typ(self) -> ExtensionType {
        match self {
            ServerExtensionView::KeyShare(_) => ExtensionType::KeyShare,
            ServerExtensionView::PresharedKey(_) => ExtensionType::PreSharedKey,
            ServerExtensionView::Protocols(_) => ExtensionType::ALProtocolNegotiation,
            ServerExtensionView::EarlyData => ExtensionType::EarlyData,
            ServerExtensionView::TransportParameters(_) => ExtensionType::TransportParameters,
            ServerExtensionView::Unknown(typ, _) => typ,
        }
    }

    pub open spec fn body(self) -> Seq<u8> {
        match self {
            ServerExtensionView::KeyShare(share) => KeyShareEntry::encoding(share),
            ServerExtensionView::PresharedKey(index) => be16(index),
            ServerExtensionView::Protocols(protos) => vec_u16_encoding::<PayloadU8>(protos),
            ServerExtensionView::EarlyData => Seq::empty(),
            ServerExtensionView::TransportParameters(params) => params,
            ServerExtensionView::Unknown(_, payload) => payload,
        }
    }

    /// The extension of a type whose body is `body`.
    pub open spec fn of_body(typ: ExtensionType, body: Seq<u8>) -> Option<ServerExtensionView> {
        match typ {
            ExtensionType::KeyShare => match whole(KeyShareEntry::decoding(body), body.len()) {
                Some(share) => Some(ServerExtensionView::KeyShare(share)),
                None => None,
            },
            ExtensionType::PreSharedKey => match whole(decode_u16(body), body.len()) {
                Some(index) => Some(ServerExtensionView::PresharedKey(index)),
                None => None,
            },
            ExtensionType::ALProtocolNegotiation => match whole(
                vec_u16_decoding::<PayloadU8>(body),
                body.len(),
            ) {
                Some(protos) => Some(ServerExtensionView::Protocols(protos)),
                None => None,
            },
            ExtensionType::EarlyData => if body.len() == 0 {
                Some(ServerExtensionView::EarlyData)
            } else {
                None
            },
            ExtensionType::TransportParameters => Some(
                ServerExtensionView::TransportParameters(body),
            ),
            _ => Some(ServerExtensionView::Unknown(typ, body)),
        }
    }
}

impl TypedExtension for ServerExtension {
    open spec fn kind(v: ServerExtensionView) -> ExtensionType {
        v.typ()
    }

    fn get_type(&self) -> (r: ExtensionType) {
        assert(Self::kind(self@) == self@.typ());
        match self {
            ServerExtension::KeyShare(_) => ExtensionType::KeyShare,
            ServerExtension::PresharedKey(_) => ExtensionType::PreSharedKey,
            ServerExtension::Protocols(_) => ExtensionType::ALProtocolNegotiation,
            ServerExtension::EarlyData => ExtensionType::EarlyData,
            ServerExtension::TransportParameters(_) => ExtensionType::TransportParameters,
            ServerExtension::Unknown(ext) => ext.typ,
        }
    }
}

impl Codec for ServerExtension {
    open spec fn encoding(v: ServerExtensionView) -> Seq<u8> {
        extension_encoding(v.typ(), v.body())
    }

    open spec fn decoding(bytes: Seq<u8>) -> Option<(ServerExtensionView, nat)> {
        match extension_at(bytes) {
            Some((typ, body, n)) => match ServerExtensionView::of_body(typ, body) {
                Some(v) => Some((v, n)),
                None => None,
            },
            None => None,
        }
    }

    proof fn decoding_progresses(bytes: Seq<u8>) {
    }

    fn encode(&self, bytes: &mut Vec<u8>) {
        let mut body: Vec<u8> = Vec::new();
        match self {
            ServerExtension::KeyShare(share) => share.encode(&mut body),
            ServerExtension::PresharedKey(index) => put_u16(*index, &mut body),
            ServerExtension::Protocols(protos) => put_vec_u16(protos, &mut body),
            ServerExtension::EarlyData => {},
            ServerExtension::TransportParameters(params) => {
                body = to_vec(params.as_slice());
            },
            ServerExtension::Unknown(ext) => {
                body = to_vec(ext.payload.0.as_slice());
            },
        }
        assert(body@ =~= self@.body());
        put_extension(self.get_type(), body.as_slice(), bytes);
    }

    fn read(rd: &mut Reader) -> (r: Option<ServerExtension>) {
        let (typ, mut body) = match read_extension(rd) {
            Some(x) => x,
            None => return None,
        };
        let ext: ServerExtension = match typ {
            ExtensionType::KeyShare => match KeyShareEntry::read(&mut body) {
                Some(share) => ServerExtension::KeyShare(share),
                None => return None,
            },
            ExtensionType::PreSharedKey => match read_u16(&mut body) {
                Some(index) => ServerExtension::PresharedKey(index),
                None => return None,
            },
            ExtensionType::ALProtocolNegotiation => match read_vec_u16::<PayloadU8>(&mut body) {
                Some(protos) => ServerExtension::Protocols(protos),
                None => return None,
            },
            ExtensionType::EarlyData => ServerExtension::EarlyData,
            ExtensionType::TransportParameters => ServerExtension::TransportParameters(
                to_vec(body.rest()),
            ),
            _ => ServerExtension::Unknown(
                UnknownExtension { typ, payload: Payload::new(body.rest()) },
            ),
        };
        if body.any_left() {
            None
        } else {
            Some(ext)
        }
    }
}

/// An extension of a HelloRetryRequest.
#[derive(Debug, PartialEq, Eq)]
pub enum HelloRetryExtension {
    KeyShare(NamedGroup),
    Unknown(UnknownExtension),
}

#[verifier::ext_equal]
pub enum HelloRetryExtensionView {
    KeyShare(NamedGroup),
    Unknown(ExtensionType, Seq<u8>),
}

impl View for HelloRetryExtension {
    type V = HelloRetryExtensionView;

    open spec fn view(&self) -> HelloRetryExtensionView {
        match *self {
            HelloRetryExtension::KeyShare(group) => HelloRetryExtensionView::KeyShare(group),
            HelloRetryExtension::Unknown(ext) => HelloRetryExtensionView::Unknown(
                ext.typ,
                ext.payload@,
            ),
        }
    }
}

impl HelloRetryExtensionView {
    pub open spec fn typ(self) -> ExtensionType {
        match self {
            HelloRetryExtensionView::KeyShare(_) => ExtensionType::KeyShare,
            HelloRetryExtensionView::Unknown(typ, _) => typ,
        }
    }

    pub open spec fn body(self) -> Seq<u8> {
        match self {
            HelloRetryExtensionView::KeyShare(group) => be16(group.wire()),
            HelloRetryExtensionView::Unknown(_, payload) => payload,
        }
    }

    /// The extension of a type whose body is `body`.
    pub open spec fn of_body(typ: ExtensionType, body: Seq<u8>) -> Option<HelloRetryExtensionView> {
        match typ {
            ExtensionType::KeyShare => match whole(decode_u16(body), body.len()) {
                Some(group) => Some(HelloRetryExtensionView::KeyShare(NamedGroup::of_wire(group))),
                None => None,
            },
            _ => Some(HelloRetryExtensionView::Unknown(typ, body)),
        }
    }
}

impl TypedExtension for HelloRetryExtension {
    open spec fn kind(v: HelloRetryExtensionView) -> ExtensionType {
        v.typ()
    }

    fn get_type(&self) -> (r: ExtensionType) {
        assert(Self::kind(self@) == self@.typ());
        match self {
            HelloRetryExtension::KeyShare(_) => ExtensionType::KeyShare,
            HelloRetryExtension::Unknown(ext) => ext.typ,
        }
    }
}

impl Codec for HelloRetryExtension {
    open spec fn encoding(v: HelloRetryExtensionView) -> Seq<u8> {
        extension_encoding(v.typ(), v.body())
    }

    open spec fn decoding(bytes: Seq<u8>) -> Option<(HelloRetryExtensionView, nat)> {
        match extension_at(bytes) {
            Some((typ, body, n)) => match HelloRetryExtensionView::of_body(typ, body) {
                Some(v) => Some((v, n)),
                None => None,
            },
            None => None,
        }
    }

    proof fn decoding_progresses(bytes: Seq<u8>) {
    }

    fn encode(&self, bytes: &mut Vec<u8>) {
        let mut body: Vec<u8> = Vec::new();
        match self {
            HelloRetryExtension::KeyShare(group) => group.encode(&mut body),
            HelloRetryExtension::Unknown(ext) => {
                body = to_vec(ext.payload.0.as_slice());
            },
        }
        assert(body@ =~= self@.body());
        put_extension(self.get_type(), body.as_slice(), bytes);
    }

    fn read(rd: &mut Reader) -> (r: Option<HelloRetryExtension>) {
        let (typ, mut body) = match read_extension(rd) {
            Some(x) => x,
            None => return None,
        };
        let ext: HelloRetryExtension = match typ {
            ExtensionType::KeyShare => match NamedGroup::read(&mut body) {
                Some(group) => HelloRetryExtension::KeyShare(group),
                None => return None,
            },
            _ => HelloRetryExtension::Unknown(
                UnknownExtension { typ, payload: Payload::new(body.rest()) },
            ),
        };
        if body.any_left() {
            None
        } else {
            Some(ext)
        }
    }
}

/// The status type that stands in front of an OCSP response.
pub const OCSP_STATUS_TYPE: u8 = 1;

/// An extension of an entry in a certificate list.
#[derive(Debug, PartialEq, Eq)]
pub enum CertificateExtension {
    /// An OCSP response.
    CertificateStatus(Vec<u8>),
    SignedCertificateTimestamp(Vec<PayloadU16>),
    Unknown(UnknownExtension),
}

#[verifier::ext_equal]
pub enum CertificateExtensionView {
    CertificateStatus(Seq<u8>),
    SignedCertificateTimestamp(Seq<Seq<u8>>),
    Unknown(ExtensionType, Seq<u8>),
}

impl View for CertificateExtension {
    type V = CertificateExtensionView;

    open spec fn view(&self) -> CertificateExtensionView {
        match *self {
            CertificateExtension::CertificateStatus(ocsp) =>
                CertificateExtensionView::CertificateStatus(ocsp@),
            CertificateExtension::SignedCertificateTimestamp(scts) =>
                CertificateExtensionView::SignedCertificateTimestamp(views(scts@)),
            CertificateExtension::Unknown(ext) => CertificateExtensionView::Unknown(
                ext.typ,
                ext.payload@,
            ),
        }
    }
}

impl CertificateExtensionView {
    pub open spec fn typ(self) -> ExtensionType {
        match self {
            CertificateExtensionView::CertificateStatus(_) => ExtensionType::StatusRequest,
            CertificateExtensionView::SignedCertificateTimestamp(_) => ExtensionType::SCT,
            CertificateExtensionView::Unknown(typ, _) => typ,
        }
    }

    pub open spec fn body(self) -> Seq<u8> {
        match self {
            CertificateExtensionView::CertificateStatus(ocsp) => seq![OCSP_STATUS_TYPE]
                + prefixed_u24(ocsp),
            CertificateExtensionView::SignedCertificateTimestamp(scts) => vec_u16_encoding::<
                PayloadU16,
            >(scts),
            CertificateExtensionView::Unknown(_, payload) => payload,
        }
    }

    /// The extension of a type whose body is `body`.
    pub open spec fn of_body(typ: ExtensionType, body: Seq<u8>) -> Option<
        CertificateExtensionView,
    > {
        match typ {
            ExtensionType::StatusRequest => match decode_u8(body) {
                Some((status_type, n)) => match whole(
                    unprefixed_u24(body.skip(n as int)),
                    (body.len() - n) as nat,
                ) {
                    Some(ocsp) => if status_type == OCSP_STATUS_TYPE {
                        Some(CertificateExtensionView::CertificateStatus(ocsp))
                    } else {
                        None
                    },
                    None => None,
                },
                None => None,
            },
            ExtensionType::SCT => match whole(vec_u16_decoding::<PayloadU16>(body), body.len()) {
                Some(scts) => Some(CertificateExtensionView::SignedCertificateTimestamp(scts)),
                None => None,
            },
            _ => Some(CertificateExtensionView::Unknown(typ, body)),
        }
    }
}

impl TypedExtension for CertificateExtension {
    open spec fn kind(v: CertificateExtensionView) -> ExtensionType {
        v.typ()
    }

    fn get_type(&self) -> (r: ExtensionType) {
        assert(Self::kind(self@) == self@.typ());
        match self {
            CertificateExtension::CertificateStatus(_) => ExtensionType::StatusRequest,
            CertificateExtension::SignedCertificateTimestamp(_) => ExtensionType::SCT,
            CertificateExtension::Unknown(ext) => ext.typ,
        }
    }
}

impl Codec for CertificateExtension {
    open spec fn encoding(v: CertificateExtensionView) -> Seq<u8> {
        extension_encoding(v.typ(), v.body())
    }

    open spec fn decoding(bytes: Seq<u8>) -> Option<(CertificateExtensionView, nat)> {
        match extension_at(bytes) {
            Some((typ, body, n)) => match CertificateExtensionView::of_body(typ, body) {
                Some(v) => Some((v, n)),
                None => None,
            },
            None => None,
        }
    }

    proof fn decoding_progresses(bytes: Seq<u8>) {
    }

    fn encode(&self, bytes: &mut Vec<u8>) {
        let mut body: Vec<u8> = Vec::new();
        match self {
            CertificateExtension::CertificateStatus(ocsp) => {
                body.push(OCSP_STATUS_TYPE);
                put_prefixed_u24(ocsp.as_slice(), &mut body);
            },
            CertificateExtension::SignedCertificateTimestamp(scts) => put_vec_u16(scts, &mut body),
            CertificateExtension::Unknown(ext) => {
                body = to_vec(ext.payload.0.as_slice());
            },
        }
        assert(body@ =~= self@.body());
        put_extension(self.get_type(), body.as_slice(), bytes);
    }

    fn read(rd: &mut Reader) -> (r: Option<CertificateExtension>) {
        broadcast use lemma_skip_skip;

        let (typ, mut body) = match read_extension(rd) {
            Some(x) => x,
            None => return None,
        };
        let ext: CertificateExtension = match typ {
            ExtensionType::StatusRequest => {
                let status_type: u8 = match read_u8(&mut body) {
                    Some(x) => x,
                    None => return None,
                };
                if status_type != OCSP_STATUS_TYPE {
                    return None;
                }
                match sub_prefixed_u24(&mut body) {
                    Some(mut ocsp) => CertificateExtension::CertificateStatus(to_vec(ocsp.rest())),
                    None => return None,
                }
            },
            ExtensionType::SCT => match read_vec_u16::<PayloadU16>(&mut body) {
                Some(scts) => CertificateExtension::SignedCertificateTimestamp(scts),
                None => return None,
            },
            _ => CertificateExtension::Unknown(
                UnknownExtension { typ, payload: Payload::new(body.rest()) },
            ),
        };
        if body.any_left() {
            None
        } else {
            Some(ext)
        }
    }
}

/// An extension of a CertificateRequest.
#[derive(Debug, PartialEq, Eq)]
pub enum CertReqExtension {
    SignatureAlgorithms(Vec<SignatureScheme>),
    AuthorityNames(Vec<PayloadU16>),
    Unknown(UnknownExtension),
}

#[verifier::ext_equal]
pub enum CertReqExtensionView {
    SignatureAlgorithms(Seq<SignatureScheme>),
    AuthorityNames(Seq<Seq<u8>>),
    Unknown(ExtensionType, Seq<u8>),
}

impl View for CertReqExtension {
    type V = CertReqExtensionView;

    open spec fn view(&self) -> CertReqExtensionView {
        match *self {
            CertReqExtension::SignatureAlgorithms(schemes) =>
                CertReqExtensionView::SignatureAlgorithms(schemes@),
            CertReqExtension::AuthorityNames(names) => CertReqExtensionView::AuthorityNames(
                views(names@),
            ),
            CertReqExtension::Unknown(ext) => CertReqExtensionView::Unknown(ext.typ, ext.payload@),
        }
    }
}

impl CertReqExtensionView {
    pub open spec fn typ(self) -> ExtensionType {
        match self {
            CertReqExtensionView::SignatureAlgorithms(_) => ExtensionType::SignatureAlgorithms,
            CertReqExtensionView::AuthorityNames(_) => ExtensionType::CertificateAuthorities,
            CertReqExtensionView::Unknown(typ, _) => typ,
        }
    }

    pub open spec fn body(self) -> Seq<u8> {
        match self {
            CertReqExtensionView::SignatureAlgorithms(schemes) => vec_u16_encoding::<
                SignatureScheme,
            >(schemes),
            CertReqExtensionView::AuthorityNames(names) => vec_u16_encoding::<PayloadU16>(names),
            CertReqExtensionView::Unknown(_, payload) => payload,
        }
    }

    /// The extension of a type whose body is `body`. An empty list of signature algorithms
    /// is malformed.
    pub open spec fn of_body(typ: ExtensionType, body: Seq<u8>) -> Option<CertReqExtensionView> {
        match typ {
            ExtensionType::SignatureAlgorithms => match whole(
                vec_u16_decoding::<SignatureScheme>(body),
                body.len(),
            ) {
                Some(schemes) => if schemes.len() == 0 {
                    None
                } else {
                    Some(CertReqExtensionView::SignatureAlgorithms(schemes))
                },
                None => None,
            },
            ExtensionType::CertificateAuthorities => match whole(
                vec_u16_decoding::<PayloadU16>(body),
                body.len(),
            ) {
                Some(names) => Some(CertReqExtensionView::AuthorityNames(names)),
                None => None,
            },
            _ => Some(CertReqExtensionView::Unknown(typ, body)),
        }
    }
}

/// A list of code points is its own list of views.
pub proof fn lemma_views_of_schemes(schemes: Seq<SignatureScheme>)
    ensures
        views(schemes) == schemes,
{
    assert(views(schemes) =~= schemes);
}

impl TypedExtension for CertReqExtension {
    open spec fn kind(v: CertReqExtensionView) -> ExtensionType {
        v.typ()
    }

    fn get_type(&self) -> (r: ExtensionType) {
        assert(Self::kind(self@) == self@.typ());
        match self {
            CertReqExtension::SignatureAlgorithms(_) => ExtensionType::SignatureAlgorithms,
            CertReqExtension::AuthorityNames(_) => ExtensionType::CertificateAuthorities,
            CertReqExtension::Unknown(ext) => ext.typ,
        }
    }
}

impl Codec for CertReqExtension {
    open spec fn encoding(v: CertReqExtensionView) -> Seq<u8> {
        extension_encoding(v.typ(), v.body())
    }

    open spec fn decoding(bytes: Seq<u8>) -> Option<(CertReqExtensionView, nat)> {
        match extension_at(bytes) {
            Some((typ, body, n)) => match CertReqExtensionView::of_body(typ, body) {
                Some(v) => Some((v, n)),
                None => None,
            },
            None => None,
        }
    }

    proof fn decoding_progresses(bytes: Seq<u8>) {
    }

    fn encode(&self, bytes: &mut Vec<u8>) {
        let mut body: Vec<u8> = Vec::new();
        match self {
            CertReqExtension::SignatureAlgorithms(schemes) => {
                put_vec_u16(schemes, &mut body);
                proof {
                    lemma_views_of_schemes(schemes@);
                }
            },
            CertReqExtension::AuthorityNames(names) => put_vec_u16(names, &mut body),
            CertReqExtension::Unknown(ext) => {
                body = to_vec(ext.payload.0.as_slice());
            },
        }
        assert(body@ =~= self@.body());
        put_extension(self.get_type(), body.as_slice(), bytes);
    }

    fn read(rd: &mut Reader) -> (r: Option<CertReqExtension>) {
        let (typ, mut body) = match read_extension(rd) {
            Some(x) => x,
            None => return None,
        };
        let ext: CertReqExtension = match typ {
            ExtensionType::SignatureAlgorithms => match read_vec_u16::<SignatureScheme>(&mut body) {
                Some(schemes) => {
                    proof {
                        lemma_views_of_schemes(schemes@);
                    }
                    if schemes.len() == 0 {
                        return None;
                    }
                    CertReqExtension::SignatureAlgorithms(schemes)
                },
                None => return None,
            },
            ExtensionType::CertificateAuthorities => match read_vec_u16::<PayloadU16>(&mut body) {
                Some(names) => CertReqExtension::AuthorityNames(names),
                None => return None,
            },
            _ => CertReqExtension::Unknown(
                UnknownExtension { typ, payload: Payload::new(body.rest()) },
            ),
        };
        if body.any_left() {
            None
        } else {
            Some(ext)
        }
    }
}

/// An extension of a NewSessionTicket.
#[derive(Debug, PartialEq, Eq)]
pub enum NewSessionTicketExtension {
    EarlyData(u32),
    Unknown(UnknownExtension),
}

#[verifier::ext_equal]
pub enum NewSessionTicketExtensionView {
    EarlyData(u32),
    Unknown(ExtensionType, Seq<u8>),
}

impl View for NewSessionTicketExtension {
    type V = NewSessionTicketExtensionView;

    open spec fn view(&self) -> NewSessionTicketExtensionView {
        match *self {
            NewSessionTicketExtension::EarlyData(size) => NewSessionTicketExtensionView::EarlyData(
                size,
            ),
            NewSessionTicketExtension::Unknown(ext) => NewSessionTicketExtensionView::Unknown(
                ext.typ,
                ext.payload@,
            ),
        }
    }
}

impl NewSessionTicketExtensionView {
    pub open spec fn typ(self) -> ExtensionType {
        match self {
            NewSessionTicketExtensionView::EarlyData(_) => ExtensionType::EarlyData,
            NewSessionTicketExtensionView::Unknown(typ, _) => typ,
        }
    }

    pub open spec fn body(self) -> Seq<u8> {
        match self {
            NewSessionTicketExtensionView::EarlyData(size) => be32(size),
            NewSessionTicketExtensionView::Unknown(_, payload) => payload,
        }
    }

    /// The extension of a type whose body is `body`.
    pub open spec fn of_body(typ: ExtensionType, body: Seq<u8>) -> Option<
        NewSessionTicketExtensionView,
    > {
        match typ {
            ExtensionType::EarlyData => match whole(decode_u32(body), body.len()) {
                Some(size) => Some(NewSessionTicketExtensionView::EarlyData(size)),
                None => None,
            },
            _ => Some(NewSessionTicketExtensionView::Unknown(typ, body)),
        }
    }
}

impl TypedExtension for NewSessionTicketExtension {
    open spec fn kind(v: NewSessionTicketExtensionView) -> ExtensionType {
        v.typ()
    }

    fn get_type(&self) -> (r: ExtensionType) {
        assert(Self::kind(self@) == self@.typ());
        match self {
            NewSessionTicketExtension::EarlyData(_) => ExtensionType::EarlyData,
            NewSessionTicketExtension::Unknown(ext) => ext.typ,
        }
    }
}

impl Codec for NewSessionTicketExtension {
    open spec fn encoding(v: NewSessionTicketExtensionView) -> Seq<u8> {
        extension_encoding(v.typ(), v.body())
    }

    open spec fn decoding(bytes: Seq<u8>) -> Option<(NewSessionTicketExtensionView, nat)> {
        match extension_at(bytes) {
            Some((typ, body, n)) => match NewSessionTicketExtensionView::of_body(typ, body) {
                Some(v) => Some((v, n)),
                None => None,
            },
            None => None,
        }
    }

    proof fn decoding_progresses(bytes: Seq<u8>) {
    }

    fn encode(&self, bytes: &mut Vec<u8>) {
        let mut body: Vec<u8> = Vec::new();
        match self {
            NewSessionTicketExtension::EarlyData(size) => put_u32(*size, &mut body),
            NewSessionTicketExtension::Unknown(ext) => {
                body = to_vec(ext.payload.0.as_slice());
            },
        }
        assert(body@ =~= self@.body());
        put_extension(self.get_type(), body.as_slice(), bytes);
    }

    fn read(rd: &mut Reader) -> (r: Option<NewSessionTicketExtension>) {
        let (typ, mut body) = match read_extension(rd) {
            Some(x) => x,
            None => return None,
        };
        let ext: NewSessionTicketExtension = match typ {
            ExtensionType::EarlyData => match read_u32(&mut body) {
                Some(size) => NewSessionTicketExtension::EarlyData(size),
                None => return None,
            },
            _ => NewSessionTicketExtension::Unknown(
                UnknownExtension { typ, payload: Payload::new(body.rest()) },
            ),
        };
        if body.any_left() {
            None
        } else {
            Some(ext)
        }
    }
}

} // verus!
