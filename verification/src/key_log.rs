//! The secrets of a session, for tools that decrypt captured traffic.

use crate::codec::{to_vec, views};
use vstd::prelude::*;

verus! {

/// What a logged secret is.
#[derive(Clone, Copy, PartialEq, Eq, Structural, Debug)]
pub enum KeyLogLabel {
    ClientEarlyTrafficSecret,
    ClientHandshakeTrafficSecret,
    ServerHandshakeTrafficSecret,
    ClientTrafficSecret0,
    ServerTrafficSecret0,
    ExporterSecret,
}

impl KeyLogLabel {
    /// The label in the format of NSS.
    pub open spec fn spec_text(self) -> Seq<char> {
        match self {
            KeyLogLabel::ClientEarlyTrafficSecret => "CLIENT_EARLY_TRAFFIC_SECRET"@,
            KeyLogLabel::ClientHandshakeTrafficSecret => "CLIENT_HANDSHAKE_TRAFFIC_SECRET"@,
            KeyLogLabel::ServerHandshakeTrafficSecret => "SERVER_HANDSHAKE_TRAFFIC_SECRET"@,
            KeyLogLabel::ClientTrafficSecret0 => "CLIENT_TRAFFIC_SECRET_0"@,
            KeyLogLabel::ServerTrafficSecret0 => "SERVER_TRAFFIC_SECRET_0"@,
            KeyLogLabel::ExporterSecret => "EXPORTER_SECRET"@,
        }
    }

    pub fn text(self) -> (r: &'static str)
        ensures
            r@ == self.spec_text(),
    {
        match self {
            KeyLogLabel::ClientEarlyTrafficSecret => "CLIENT_EARLY_TRAFFIC_SECRET",
            KeyLogLabel::ClientHandshakeTrafficSecret => "CLIENT_HANDSHAKE_TRAFFIC_SECRET",
            KeyLogLabel::ServerHandshakeTrafficSecret => "SERVER_HANDSHAKE_TRAFFIC_SECRET",
            KeyLogLabel::ClientTrafficSecret0 => "CLIENT_TRAFFIC_SECRET_0",
            KeyLogLabel::ServerTrafficSecret0 => "SERVER_TRAFFIC_SECRET_0",
            KeyLogLabel::ExporterSecret => "EXPORTER_SECRET",
        }
    }
}

/// A logged secret.
#[derive(Debug, PartialEq, Eq)]
pub struct KeyLogEntry {
    pub label: KeyLogLabel,
    pub client_random: Vec<u8>,
    pub secret: Vec<u8>,
}

#[verifier::ext_equal]
pub struct KeyLogEntryView {
    pub label: KeyLogLabel,
    pub client_random: Seq<u8>,
    pub secret: Seq<u8>,
}

impl View for KeyLogEntry {
    type V = KeyLogEntryView;

    open spec fn view(&self) -> KeyLogEntryView {
        KeyLogEntryView {
            label: self.label,
            client_random: self.client_random@,
            secret: self.secret@,
        }
    }
}

/// Collects secrets, where it is asked to.
#[derive(Debug)]
pub struct KeyLog {
    pub enabled: bool,
    pub entries: Vec<KeyLogEntry>,
}

#[verifier::ext_equal]
pub struct KeyLogView {
    pub enabled: bool,
    pub entries: Seq<KeyLogEntryView>,
}

impl View for KeyLog {
    type V = KeyLogView;

    open spec fn view(&self) -> KeyLogView {
        KeyLogView { enabled: self.enabled, entries: views(self.entries@) }
    }
}

impl KeyLogView {
    /// The log with one more secret; it stays empty where it is not enabled.
    pub open spec fn logged(
        self,
        label: KeyLogLabel,
        client_random: Seq<u8>,
        secret: Seq<u8>,
    ) -> KeyLogView {
        if self.enabled {
            KeyLogView {
                entries: self.entries.push(KeyLogEntryView { label, client_random, secret }),
                ..self
            }
        } else {
            self
        }
    }
}

impl KeyLog {
    pub fn new(enabled: bool) -> (r: KeyLog)
        ensures
            r@ == (KeyLogView { enabled, entries: Seq::empty() }),
    {
        let r = KeyLog { enabled, entries: Vec::new() };
        assert(r@.entries =~= Seq::<KeyLogEntryView>::empty());
        r
    }

    pub fn log(&mut self, label: KeyLogLabel, client_random: &[u8], secret: &[u8])
        ensures
            final(self)@ == old(self)@.logged(label, client_random@, secret@),
    {
        if self.enabled {
            let ghost before = self.entries@;
            let entry = KeyLogEntry {
                label,
                client_random: to_vec(client_random),
                secret: to_vec(secret),
            };
            self.entries.push(entry);
            assert(views(self.entries@) =~= views(before).push(entry@));
        }
    }
}

} // verus!
