//! What a client remembers in the course of a handshake.

use crate::base::PayloadU16;
use crate::codec::views;
use crate::enums::{ExtensionType, NamedGroup};
use crate::extensions::{ServerExtension, ServerExtensionView, TypedExtension};
use crate::handshake::SessionID;
use crate::key::Certificate;
use crate::key_schedule::secret_view;
use crate::kx::{KeyExchange, KeyExchangeView};
use crate::persist::{ClientSessionValueWithResolvedCipherSuite, ResumptionView};
use crate::sign::{Signer, SignerView, SigningKey};
use vstd::prelude::*;

verus! {

/// The session that is being resumed, and what has been sent so far.
#[derive(Debug)]
pub struct HandshakeDetails {
    pub resuming_session: Option<ClientSessionValueWithResolvedCipherSuite>,
    pub session_id: SessionID,
    pub sent_tls13_fake_ccs: bool,
}

#[verifier::ext_equal]
pub struct HandshakeDetailsView {
    pub resuming_session: Option<ResumptionView>,
    pub session_id: Seq<u8>,
    pub sent_tls13_fake_ccs: bool,
}

pub open spec fn resuming_view(session: Option<ClientSessionValueWithResolvedCipherSuite>) -> Option<
    ResumptionView,
> {
    match session {
        Some(session) => Some(session@),
        None => None,
    }
}

impl View for HandshakeDetails {
    type V = HandshakeDetailsView;

    open spec fn view(&self) -> HandshakeDetailsView {
        HandshakeDetailsView {
            resuming_session: resuming_view(self.resuming_session),
            session_id: self.session_id@,
            sent_tls13_fake_ccs: self.sent_tls13_fake_ccs,
        }
    }
}

impl HandshakeDetails {
    pub fn new(resuming_session: Option<ClientSessionValueWithResolvedCipherSuite>) -> (r:
        HandshakeDetails)
        ensures
            r@ == (HandshakeDetailsView {
                resuming_session: resuming_view(resuming_session),
                session_id: Seq::empty(),
                sent_tls13_fake_ccs: false,
            }),
    {
        HandshakeDetails {
            resuming_session,
            session_id: SessionID::empty(),
            sent_tls13_fake_ccs: false,
        }
    }
}

/// What the server showed of itself.
#[derive(Debug)]
pub struct ServerCertDetails {
    pub cert_chain: Vec<Certificate>,
    pub ocsp_response: Vec<u8>,
    pub scts: Option<Vec<PayloadU16>>,
}

#[verifier::ext_equal]
pub struct ServerCertView {
    pub cert_chain: Seq<Seq<u8>>,
    pub ocsp_response: Seq<u8>,
    pub scts: Option<Seq<Seq<u8>>>,
}

impl View for ServerCertDetails {
    type V = ServerCertView;

    open spec fn view(&self) -> ServerCertView {
        ServerCertView {
            cert_chain: views(self.cert_chain@),
            ocsp_response: self.ocsp_response@,
            scts: match self.scts {
                Some(scts) => Some(views(scts@)),
                None => None,
            },
        }
    }
}

impl ServerCertView {
    /// The SCTs; none where there is no list.
    pub open spec fn sct_list(self) -> Seq<Seq<u8>> {
        match self.scts {
            Some(scts) => scts,
            None => Seq::empty(),
        }
    }
}

impl ServerCertDetails {
    pub fn new(
        cert_chain: Vec<Certificate>,
        ocsp_response: Vec<u8>,
        scts: Option<Vec<PayloadU16>>,
    ) -> (r: ServerCertDetails)
        ensures
            r@ == (ServerCertView {
                cert_chain: views(cert_chain@),
                ocsp_response: ocsp_response@,
                scts: match scts {
                    Some(scts) => Some(views(scts@)),
                    None => None,
                },
            }),
    {
        ServerCertDetails { cert_chain, ocsp_response, scts }
    }
}

/// How the client answers a request for a certificate.
#[derive(Debug)]
pub struct ClientAuthDetails<K> {
    pub cert: Option<Vec<Certificate>>,
    pub signer: Option<Signer<K>>,
    pub auth_context: Option<Vec<u8>>,
}

#[verifier::ext_equal]
pub struct ClientAuthView<K: SigningKey> {
    pub cert: Option<Seq<Seq<u8>>>,
    pub signer: Option<SignerView<K>>,
    pub auth_context: Option<Seq<u8>>,
}

impl<K: SigningKey> View for ClientAuthDetails<K> {
    type V = ClientAuthView<K>;

    open spec fn view(&self) -> ClientAuthView<K> {
        ClientAuthView {
            cert: match self.cert {
                Some(chain) => Some(views(chain@)),
                None => None,
            },
            signer: match self.signer {
                Some(signer) => Some(signer@),
                None => None,
            },
            auth_context: secret_view(self.auth_context),
        }
    }
}

impl<K: SigningKey> ClientAuthView<K> {
    /// An answer that shows nothing.
    pub open spec fn nothing() -> ClientAuthView<K> {
        ClientAuthView { cert: None, signer: None, auth_context: None }
    }
}

impl<K: SigningKey> ClientAuthDetails<K> {
    pub fn new() -> (r: ClientAuthDetails<K>)
        ensures
            r@ == ClientAuthView::<K>::nothing(),
    {
        ClientAuthDetails { cert: None, signer: None, auth_context: None }
    }
}

/// What the ClientHello offered.
pub struct ClientHelloDetails {
    pub sent_extensions: Vec<ExtensionType>,
    pub offered_key_shares: Vec<KeyExchange>,
}

#[verifier::ext_equal]
pub struct ClientHelloDetailsView {
    pub sent_extensions: Seq<ExtensionType>,
    pub offered_key_shares: Seq<KeyExchangeView>,
}

impl View for ClientHelloDetails {
    type V = ClientHelloDetailsView;

    open spec fn view(&self) -> ClientHelloDetailsView {
        ClientHelloDetailsView {
            sent_extensions: self.sent_extensions@,
            offered_key_shares: views(self.offered_key_shares@),
        }
    }
}

/// Where the first key share in a group stands.
pub open spec fn share_at(shares: Seq<KeyExchangeView>, group: NamedGroup) -> Option<int>
    decreases shares.len(),
{
    if shares.len() == 0 {
        None
    } else if shares[0].group.spec_name() == group {
        Some(0)
    } else {
        match share_at(shares.drop_first(), group) {
            Some(i) => Some(i + 1),
            None => None,
        }
    }
}

/// A key share that was found is one of those offered, and of the group.
pub proof fn share_at_finds_a_share(shares: Seq<KeyExchangeView>, group: NamedGroup)
    ensures
        share_at(shares, group) matches Some(i) ==> 0 <= i < shares.len()
            && shares[i].group.spec_name() == group,
        share_at(shares, group) is None ==> forall|i: int|
            0 <= i < shares.len() ==> (#[trigger] shares[i]).group.spec_name() != group,
    decreases shares.len(),
{
    if shares.len() > 0 {
        share_at_finds_a_share(shares.drop_first(), group);
        assert forall|i: int|
            share_at(shares, group) is None && 0 <= i < shares.len() implies (
        #[trigger] shares[i]).group.spec_name() != group by {
            if i > 0 {
                assert(shares[i] == shares.drop_first()[i - 1]);
            }
        }
    }
}

/// Whether a list of types holds one of them.
pub fn holds_extension_type(types: &[ExtensionType], typ: ExtensionType) -> (r: bool)
    ensures
        r == types@.contains(typ),
{
    let mut i: usize = 0;
    while i < types.len()
        invariant
            i <= types@.len(),
            forall|j: int| 0 <= j < i ==> types@[j] != typ,
        decreases types@.len() - i,
    {
        if types[i] == typ {
            return true;
        }
        i += 1;
    }
    false
}

impl ClientHelloDetailsView {
    /// Whether there is an extension that the client did not ask for, and that is not
    /// allowed all the same.
    pub open spec fn unsolicited(
        self,
        exts: Seq<ServerExtensionView>,
        allowed: Seq<ExtensionType>,
    ) -> bool {
        exists|i: int|
            0 <= i < exts.len() && !self.sent_extensions.contains((#[trigger] exts[i]).typ())
                && !allowed.contains(exts[i].typ())
    }

    /// Without the first key share in a group.
    pub open spec fn without_share(self, group: NamedGroup) -> ClientHelloDetailsView {
        match share_at(self.offered_key_shares, group) {
            Some(i) => ClientHelloDetailsView {
                offered_key_shares: self.offered_key_shares.remove(i),
                ..self
            },
            None => self,
        }
    }

    /// The first key share in a group.
    pub open spec fn share(self, group: NamedGroup) -> Option<KeyExchangeView> {
        match share_at(self.offered_key_shares, group) {
            Some(i) => Some(self.offered_key_shares[i]),
            None => None,
        }
    }
}

impl ClientHelloDetails {
    pub fn new() -> (r: ClientHelloDetails)
        ensures
            r@ == (ClientHelloDetailsView {
                sent_extensions: Seq::empty(),
                offered_key_shares: Seq::empty(),
            }),
    {
        let r = ClientHelloDetails { sent_extensions: Vec::new(), offered_key_shares: Vec::new() };
        assert(r@.offered_key_shares =~= Seq::<KeyExchangeView>::empty());
        r
    }

    pub fn server_may_send_sct_list(&self) -> (r: bool)
        ensures
            r == self@.sent_extensions.contains(ExtensionType::SCT),
    {
        holds_extension_type(self.sent_extensions.as_slice(), ExtensionType::SCT)
    }

    pub fn server_sent_unsolicited_extensions(
        &self,
        received_exts: &Vec<ServerExtension>,
        allowed_unsolicited: &[ExtensionType],
    ) -> (r: bool)
        ensures
            r == self@.unsolicited(views(received_exts@), allowed_unsolicited@),
    {
        let ghost exts = views(received_exts@);
        let mut i: usize = 0;
        while i < received_exts.len()
            invariant
                i <= received_exts@.len(),
                exts == views(received_exts@),
                forall|j: int|
                    0 <= j < i ==> self@.sent_extensions.contains((#[trigger] exts[j]).typ())
                        || allowed_unsolicited@.contains(exts[j].typ()),
            decreases received_exts@.len() - i,
        {
            let typ: ExtensionType = received_exts[i].get_type();
            assert(exts[i as int] == received_exts@[i as int]@);
            assert(ServerExtension::kind(exts[i as int]) == exts[i as int].typ());
            if !holds_extension_type(self.sent_extensions.as_slice(), typ)
                && !holds_extension_type(allowed_unsolicited, typ) {
                return true;
            }
            i += 1;
        }
        false
    }

    /// Takes the first key share in a group out.
    pub fn find_key_share(&mut self, group: NamedGroup) -> (r: Option<KeyExchange>)
        ensures
            final(self)@ == old(self)@.without_share(group),
            match old(self)@.share(group) {
                Some(share) => r is Some && r->0@ == share,
                None => r is None,
            },
    {
        let ghost shares = views(self.offered_key_shares@);
        let mut i: usize = 0;
        assert(shares.skip(0) =~= shares);
        while i < self.offered_key_shares.len()
            invariant
                *self == *old(self),
                i <= self.offered_key_shares@.len(),
                shares == views(self.offered_key_shares@),
                match share_at(shares.skip(i as int), group) {
                    Some(k) => share_at(shares, group) == Some(k + i),
                    None => share_at(shares, group) is None,
                },
            decreases self.offered_key_shares@.len() - i,
        {
            assert(shares.skip(i as int)[0] == self.offered_key_shares@[i as int]@);
            if self.offered_key_shares[i].group.name() == group {
                let share: KeyExchange = self.offered_key_shares.remove(i);
                assert(views(self.offered_key_shares@) =~= shares.remove(i as int));
                return Some(share);
            }
            assert(shares.skip(i as int).drop_first() =~= shares.skip(i + 1));
            i += 1;
        }
        assert(shares.skip(i as int).len() == 0);
        None
    }

    /// Takes the first key share in a group out; the others are dropped if there is one.
    pub fn find_key_share_and_discard_others(&mut self, group: NamedGroup) -> (r: Option<
        KeyExchange,
    >)
        ensures
            match old(self)@.share(group) {
                Some(share) => {
                    &&& r is Some
                    &&& r->0@ == share
                    &&& final(self)@ == (ClientHelloDetailsView {
                        offered_key_shares: Seq::empty(),
                        ..old(self)@
                    })
                },
                None => r is None && final(self)@ == old(self)@,
            },
    {
        match self.find_key_share(group) {
            Some(share) => {
                self.offered_key_shares.clear();
                assert(self@.offered_key_shares =~= Seq::<KeyExchangeView>::empty());
                Some(share)
            },
            None => None,
        }
    }
}

} // verus!
