//! Putting handshake messages together from the records that they are spread over.

use crate::base::Payload;
use crate::codec::{decode_u24, put_slice, read_u24, to_vec, Reader};
use crate::enums::{ContentType, ProtocolVersion};
use crate::error::{TlsError, TlsErrorView};
use crate::handshake::{HandshakeMessagePayload, HandshakeMessageView};
use crate::message::{Message, MessagePayloadView, MessageView, OpaqueMessage, OpaqueMessageView};
use vstd::prelude::*;
use vstd::slice::slice_subrange;

verus! {

/// The length of a handshake message's type and length.
pub const HEADER_SIZE: usize = 4;

/// The length of the handshake message at the front of `buf`, header included, where all of
/// it is there.
pub open spec fn frame_len(buf: Seq<u8>) -> Option<nat> {
    match decode_u24(buf.skip(1)) {
        Some((len, _)) => if buf.len() >= HEADER_SIZE + len {
            Some((HEADER_SIZE + len) as nat)
        } else {
            None
        },
        None => None,
    }
}

/// The length of all the complete handshake messages at the front of `buf`.
pub open spec fn complete_len(buf: Seq<u8>) -> nat
    decreases buf.len(),
{
    match frame_len(buf) {
        Some(n) => if 0 < n <= buf.len() {
            n + complete_len(buf.skip(n as int))
        } else {
            0
        },
        None => 0,
    }
}

/// The length of the handshake message at the front of `buf`.
fn find_frame(buf: &[u8]) -> (r: Option<usize>)
    ensures
        match frame_len(buf@) {
            Some(n) => r is Some && r->0 == n,
            None => r is None,
        },
{
    if buf.len() < HEADER_SIZE {
        return None;
    }
    let mut rd = Reader::init(slice_subrange(buf, 1, buf.len()));
    assert(rd@ =~= buf@.skip(1));
    match read_u24(&mut rd) {
        Some(len) => if buf.len() - HEADER_SIZE >= len as usize {
            Some(HEADER_SIZE + len as usize)
        } else {
            None
        },
        None => None,
    }
}

/// Collects the payloads of handshake records.
#[derive(Debug)]
pub struct HandshakeJoiner {
    pub buf: Vec<u8>,
    pub version: ProtocolVersion,
}

#[verifier::ext_equal]
pub struct JoinerView {
    pub buf: Seq<u8>,
    pub version: ProtocolVersion,
}

impl View for HandshakeJoiner {
    type V = JoinerView;

    open spec fn view(&self) -> JoinerView {
        JoinerView { buf: self.buf@, version: self.version }
    }
}

impl HandshakeJoiner {
    pub fn new() -> (r: HandshakeJoiner)
        ensures
            r@ == (JoinerView { buf: Seq::empty(), version: ProtocolVersion::TLSv1_2 }),
    {
        HandshakeJoiner { buf: Vec::new(), version: ProtocolVersion::TLSv1_2 }
    }

    /// Whether this is a record to collect.
    pub fn want_message(&self, msg: &OpaqueMessage) -> (r: bool)
        ensures
            r == (msg.typ == ContentType::Handshake),
    {
        msg.typ == ContentType::Handshake
    }

    /// Whether no bytes wait to be put together.
    pub fn is_empty(&self) -> (r: bool)
        ensures
            r == (self@.buf.len() == 0),
    {
        self.buf.len() == 0
    }

    /// Collects a record.
    pub fn take_message(&mut self, msg: OpaqueMessage)
        ensures
            final(self)@ == (JoinerView {
                buf: old(self)@.buf + msg.payload@,
                version: msg.version,
            }),
    {
        put_slice(msg.payload.0.as_slice(), &mut self.buf);
        self.version = msg.version;
    }

    /// Takes the complete messages out, and says whether nothing is left over.
    pub fn iter(&mut self) -> (r: (HandshakeIter, bool))
        ensures
            r.0@ == (JoinerView {
                buf: old(self)@.buf.take(complete_len(old(self)@.buf) as int),
                version: old(self)@.version,
            }),
            final(self)@ == (JoinerView {
                buf: old(self)@.buf.skip(complete_len(old(self)@.buf) as int),
                version: old(self)@.version,
            }),
            r.1 == (final(self)@.buf.len() == 0),
    {
        let n: usize = self.buf.len();
        let ghost all = self.buf@;
        let mut at: usize = 0;
        let mut more: bool = true;
        assert(all.skip(0) =~= all);
        while more
            invariant
                at <= n,
                n == self.buf@.len(),
                all == self.buf@,
                *self == *old(self),
                more ==> complete_len(all) == at + complete_len(all.skip(at as int)),
                !more ==> complete_len(all) == at,
            decreases n - at, if more { 1int } else { 0int },
        {
            let rest: &[u8] = slice_subrange(self.buf.as_slice(), at, n);
            assert(rest@ =~= all.skip(at as int));
            match find_frame(rest) {
                Some(k) => {
                    assert(all.skip(at as int).skip(k as int) =~= all.skip(at + k));
                    at = at + k;
                },
                None => {
                    more = false;
                },
            }
        }
        let done: Vec<u8> = to_vec(slice_subrange(self.buf.as_slice(), 0, at));
        let rest: Vec<u8> = to_vec(slice_subrange(self.buf.as_slice(), at, n));
        assert(done@ =~= all.take(at as int));
        assert(rest@ =~= all.skip(at as int));
        self.buf = rest;
        let aligned: bool = self.buf.len() == 0;
        (HandshakeIter { buf: done, version: self.version }, aligned)
    }
}

/// Hands out complete handshake messages one by one.
#[derive(Debug)]
pub struct HandshakeIter {
    pub buf: Vec<u8>,
    pub version: ProtocolVersion,
}

impl View for HandshakeIter {
    type V = JoinerView;

    open spec fn view(&self) -> JoinerView {
        JoinerView { buf: self.buf@, version: self.version }
    }
}

impl JoinerView {
    /// The first message of what is held, if its layout is that of a handshake message.
    pub open spec fn first(self, n: nat) -> Result<OpaqueMessageView, TlsErrorView> {
        let frame = self.buf.take(n as int);
        match HandshakeMessageView::decoding(frame, self.version) {
            Some((_, used)) => if used == n {
                Ok(
                    OpaqueMessageView {
                        typ: ContentType::Handshake,
                        version: self.version,
                        payload: frame,
                    },
                )
            } else {
                Err(TlsErrorView::CorruptMessagePayload(ContentType::Handshake))
            },
            None => Err(TlsErrorView::CorruptMessagePayload(ContentType::Handshake)),
        }
    }
}

impl HandshakeIter {
    /// The next message, or the error that it is malformed; `None` when there is no more.
    pub fn pop(&mut self) -> (r: Option<Result<OpaqueMessage, TlsError>>)
        ensures
            match frame_len(old(self)@.buf) {
                Some(n) => {
                    &&& r is Some
                    &&& final(self)@ == (JoinerView {
                        buf: old(self)@.buf.skip(n as int),
                        version: old(self)@.version,
                    })
                    &&& match old(self)@.first(n) {
                        Ok(msg) => r->0 is Ok && (r->0)->Ok_0@ == msg,
                        Err(err) => r->0 is Err && (r->0)->Err_0@ == err,
                    }
                },
                None => r is None && final(self)@ == old(self)@,
            },
    {
        let n: usize = match find_frame(self.buf.as_slice()) {
            Some(n) => n,
            None => return None,
        };
        let frame: Vec<u8> = to_vec(slice_subrange(self.buf.as_slice(), 0, n));
        let rest: Vec<u8> = to_vec(slice_subrange(self.buf.as_slice(), n, self.buf.len()));
        assert(frame@ =~= self@.buf.take(n as int));
        assert(rest@ =~= self@.buf.skip(n as int));
        self.buf = rest;
        let mut rd = Reader::init(frame.as_slice());
        let well_formed: bool = match HandshakeMessagePayload::read_version(&mut rd, self.version) {
            Some(_) => rd.used() == n,
            None => false,
        };
        if well_formed {
            Some(
                Ok(
                    OpaqueMessage {
                        typ: ContentType::Handshake,
                        version: self.version,
                        payload: Payload(frame),
                    },
                ),
            )
        } else {
            Some(Err(TlsError::CorruptMessagePayload(ContentType::Handshake)))
        }
    }
}

/// A message that was put together can be looked into: what is handed out without an error
/// is never found to be corrupt later.
pub proof fn joined_messages_are_readable(held: JoinerView, n: nat)
    requires
        frame_len(held.buf) == Some(n),
    ensures
        held.first(n) matches Ok(msg) ==> MessagePayloadView::of_bytes(
            msg.typ,
            msg.version,
            msg.payload,
        ) is Some,
{
    assert(held.buf.take(n as int).len() == n);
}

/// Collecting records one after the other is the same as collecting all their payloads at
/// once: where a message is cut into records does not matter.
pub proof fn cuts_do_not_matter(held: Seq<u8>, a: Seq<u8>, b: Seq<u8>)
    ensures
        complete_len((held + a) + b) == complete_len(held + (a + b)),
        complete_len(held) <= complete_len(held + a),
        complete_len(held + a) == complete_len(held) + complete_len(
            held.skip(complete_len(held) as int) + a,
        ),
    decreases held.len(),
{
    assert((held + a) + b =~= held + (a + b));
    match frame_len(held) {
        Some(n) => {
            assert((held + a).skip(1) =~= held.skip(1) + a);
            assert(frame_len(held + a) == Some(n));
            assert((held + a).skip(n as int) =~= held.skip(n as int) + a);
            cuts_do_not_matter(held.skip(n as int), a, b);
            let k = complete_len(held.skip(n as int));
            lemma_complete_len_bound(held.skip(n as int));
            assert(held.skip(n as int).skip(k as int) =~= held.skip((n + k) as int));
        },
        None => {
            assert(held.skip(0) =~= held);
        },
    }
}

proof fn lemma_complete_len_bound(buf: Seq<u8>)
    ensures
        complete_len(buf) <= buf.len(),
    decreases buf.len(),
{
    if let Some(n) = frame_len(buf) {
        lemma_complete_len_bound(buf.skip(n as int));
    }
}

/// Reads a record off `data`, puts the handshake messages in it together, and looks into
/// each.
pub fn messages_of_record(data: &[u8]) -> (r: Vec<Message>)
    ensures
        OpaqueMessageView::decoding(data@) is Err ==> r@.len() == 0,
        OpaqueMessageView::decoding(data@) matches Ok((record, _)) ==> r@.map_values(
            |m: Message| m@,
        ) == messages_of(
            if record.typ == ContentType::Handshake {
                record.payload.take(complete_len(record.payload) as int)
            } else {
                Seq::empty()
            },
            record.version,
        ),
{
    let mut rd = Reader::init(data);
    let mut messages: Vec<Message> = Vec::new();
    let record: OpaqueMessage = match OpaqueMessage::read(&mut rd) {
        Ok(record) => record,
        Err(_) => {
            return messages;
        },
    };
    let ghost version = record.version;
    let ghost payload = record.payload@;
    let ghost wanted = record.typ == ContentType::Handshake;
    let mut joiner: HandshakeJoiner = HandshakeJoiner::new();
    if joiner.want_message(&record) {
        joiner.take_message(record);
        assert(Seq::<u8>::empty() + payload =~= payload);
    } else {
        assert(complete_len(Seq::<u8>::empty()) == 0);
        assert(Seq::<u8>::empty().take(0) =~= Seq::<u8>::empty());
    }
    let (mut iter, _) = joiner.iter();
    let ghost held = iter@;
    let ghost target = messages_of(held.buf, held.version);
    assert(messages@.map_values(|m: Message| m@) + target =~= target);
    let mut more: bool = true;
    while more
        invariant
            more ==> messages@.map_values(|m: Message| m@) + messages_of(iter@.buf, iter@.version)
                == target,
            !more ==> messages@.map_values(|m: Message| m@) == target,
        decreases iter@.buf.len(), if more { 1int } else { 0int },
    {
        let ghost before = iter@;
        let ghost got = messages@;
        match iter.pop() {
            Some(Ok(opaque)) => {
                let ghost n = frame_len(before.buf)->0;
                proof {
                    joined_messages_are_readable(before, n);
                }
                match Message::try_from_opaque(opaque) {
                    Ok(message) => {
                        messages.push(message);
                        assert(messages@.map_values(|m: Message| m@) =~= got.map_values(
                            |m: Message| m@,
                        ).push(message@));
                        assert(messages@.map_values(|m: Message| m@) + messages_of(
                            iter@.buf,
                            iter@.version,
                        ) =~= got.map_values(|m: Message| m@) + (seq![message@] + messages_of(
                            iter@.buf,
                            iter@.version,
                        )));
                    },
                    Err(_) => {
                        assert(false);
                    },
                }
            },
            Some(Err(_)) => {},
            None => {
                more = false;
                assert(messages@.map_values(|m: Message| m@) + Seq::<MessageView>::empty()
                    =~= messages@.map_values(|m: Message| m@));
            },
        }
    }
    messages
}

/// The handshake messages in `buf`, those that are malformed left out.
pub open spec fn messages_of(buf: Seq<u8>, version: ProtocolVersion) -> Seq<MessageView>
    decreases buf.len(),
{
    match frame_len(buf) {
        Some(n) => if 0 < n <= buf.len() {
            let rest = messages_of(buf.skip(n as int), version);
            match MessagePayloadView::of_bytes(
                ContentType::Handshake,
                version,
                buf.take(n as int),
            ) {
                Some(payload) => seq![
                    MessageView { typ: ContentType::Handshake, version, payload },
                ] + rest,
                None => rest,
            }
        } else {
            Seq::empty()
        },
        None => Seq::empty(),
    }
}

} // verus!
