//! What a server remembers in the course of a handshake.

use crate::codec::views;
use crate::extensions::{ServerExtension, ServerExtensionView};
use crate::handshake::SessionID;
use crate::hash_hs::{HandshakeHash, TranscriptView};
use crate::key::Certificate;
use crate::key_schedule::secret_view;
use crate::kx::{KeyExchange, KeyExchangeView};
use vstd::prelude::*;

verus! {

/// The messages so far, and what goes into the answers.
#[derive(Debug)]
pub struct HandshakeDetails {
    pub transcript: HandshakeHash,
    pub hash_at_server_fin: Option<Vec<u8>>,
    pub session_id: Option<SessionID>,
    pub extra_exts: Vec<ServerExtension>,
}

#[verifier::ext_equal]
pub struct ServerHandshakeView {
    pub transcript: TranscriptView,
    pub hash_at_server_fin: Option<Seq<u8>>,
    pub session_id: Option<Seq<u8>>,
    pub extra_exts: Seq<ServerExtensionView>,
}

impl View for HandshakeDetails {
    type V = ServerHandshakeView;

    open spec fn view(&self) -> ServerHandshakeView {
        ServerHandshakeView {
            transcript: self.transcript@,
            hash_at_server_fin: secret_view(self.hash_at_server_fin),
            session_id: match self.session_id {
                Some(id) => Some(id@),
                None => None,
            },
            extra_exts: views(self.extra_exts@),
        }
    }
}

impl HandshakeDetails {
    /// A handshake in which no message has been seen yet.
    pub fn new(extra_exts: Vec<ServerExtension>) -> (r: HandshakeDetails)
        ensures
            r@ == (ServerHandshakeView {
                transcript: TranscriptView { alg: None, bytes: Seq::empty() },
                hash_at_server_fin: None,
                session_id: None,
                extra_exts: views(extra_exts@),
            }),
            r.extra_exts == extra_exts,
    {
        HandshakeDetails {
            transcript: HandshakeHash::new(),
            hash_at_server_fin: None,
            session_id: None,
            extra_exts,
        }
    }
}

/// The server's half of the key exchange.
pub struct ServerKxDetails {
    pub kx: KeyExchange,
}

impl View for ServerKxDetails {
    type V = KeyExchangeView;

    open spec fn view(&self) -> KeyExchangeView {
        self.kx@
    }
}

impl ServerKxDetails {
    pub fn new(kx: KeyExchange) -> (r: ServerKxDetails)
        ensures
            r.kx == kx,
            r@ == kx@,
    {
        ServerKxDetails { kx }
    }
}

/// The certificates that the client showed.
#[derive(Debug)]
pub struct ClientCertDetails {
    pub cert_chain: Vec<Certificate>,
}

impl View for ClientCertDetails {
    type V = Seq<Seq<u8>>;

    open spec fn view(&self) -> Seq<Seq<u8>> {
        views(self.cert_chain@)
    }
}

impl ClientCertDetails {
    pub fn new(chain: Vec<Certificate>) -> (r: ClientCertDetails)
        ensures
            r.cert_chain == chain,
            r@ == views(chain@),
    {
        ClientCertDetails { cert_chain: chain }
    }

    /// Hands the certificates over; none are left.
    pub fn take_chain(&mut self) -> (r: Vec<Certificate>)
        ensures
            r == old(self).cert_chain,
            views(r@) == old(self)@,
            final(self).cert_chain@.len() == 0,
            final(self)@.len() == 0,
    {
        let mut chain: Vec<Certificate> = Vec::new();
        std::mem::swap(&mut chain, &mut self.cert_chain);
        chain
    }
}

} // verus!
