//! Whether a message is one that was due.

use crate::enums::{ContentType, HandshakeType};
use crate::error::{seen, TlsError, TlsErrorView};
use crate::message::{Message, MessagePayload, MessagePayloadView, MessageView};
use vstd::prelude::*;

verus! {

/// The verdict on a message, given the types that are due.
pub open spec fn checked(
    m: MessageView,
    content_types: Seq<ContentType>,
    handshake_types: Seq<HandshakeType>,
) -> Result<(), TlsErrorView> {
    if !content_types.contains(m.typ) {
        Err(TlsErrorView::InappropriateMessage { expect_types: content_types, got_type: m.typ })
    } else {
        match m.payload {
            MessagePayloadView::Handshake(hmp) => if !handshake_types.contains(hmp.typ) {
                Err(
                    TlsErrorView::InappropriateHandshakeMessage {
                        expect_types: handshake_types,
                        got_type: hmp.typ,
                    },
                )
            } else {
                Ok(())
            },
            _ => Ok(()),
        }
    }
}

/// The error for a message that is not the handshake message that was due.
pub open spec fn inappropriate(m: MessageView, handshake_type: HandshakeType) -> TlsErrorView {
    match m.payload {
        MessagePayloadView::Handshake(hmp) => TlsErrorView::InappropriateHandshakeMessage {
            expect_types: seq![handshake_type],
            got_type: hmp.typ,
        },
        _ => TlsErrorView::InappropriateMessage {
            expect_types: seq![ContentType::Handshake],
            got_type: m.typ,
        },
    }
}

fn holds_content_type(types: &Vec<ContentType>, typ: ContentType) -> (r: bool)
    ensures
        r == types@.contains(typ),
{
    let mut i: usize = 0;
    while i < types.len()
        invariant
            i <= types@.len(),
            forall|j: int| 0 <= j < i ==> types@[j] != typ,
        decreases types@.len() - i,
    {
        if types[i] == typ {
            return true;
        }
        i += 1;
    }
    false
}

fn holds_handshake_type(types: &Vec<HandshakeType>, typ: HandshakeType) -> (r: bool)
    ensures
        r == types@.contains(typ),
{
    let mut i: usize = 0;
    while i < types.len()
        invariant
            i <= types@.len(),
            forall|j: int| 0 <= j < i ==> types@[j] != typ,
        decreases types@.len() - i,
    {
        if types[i] == typ {
            return true;
        }
        i += 1;
    }
    false
}

/// Checks the types of a message against those that are due.
pub fn check_message(
    m: &Message,
    content_types: Vec<ContentType>,
    handshake_types: Vec<HandshakeType>,
) -> (r: Result<(), TlsError>)
    ensures
        seen(r) == checked(m@, content_types@, handshake_types@),
{
    if !holds_content_type(&content_types, m.typ) {
        return Err(
            TlsError::InappropriateMessage { expect_types: content_types, got_type: m.typ },
        );
    }
    if let MessagePayload::Handshake(hmp) = &m.payload {
        if !holds_handshake_type(&handshake_types, hmp.typ) {
            return Err(
                TlsError::InappropriateHandshakeMessage {
                    expect_types: handshake_types,
                    got_type: hmp.typ,
                },
            );
        }
    }
    Ok(())
}

/// The error for a message that is not the handshake message that was due.
pub fn inappropriate_handshake_message(m: &Message, handshake_type: HandshakeType) -> (r: TlsError)
    ensures
        r@ == inappropriate(m@, handshake_type),
{
    match &m.payload {
        MessagePayload::Handshake(hmp) => {
            let expect_types: Vec<HandshakeType> = vec![handshake_type];
            assert(expect_types@ =~= seq![handshake_type]);
            TlsError::InappropriateHandshakeMessage { expect_types, got_type: hmp.typ }
        },
        _ => {
            let expect_types: Vec<ContentType> = vec![ContentType::Handshake];
            assert(expect_types@ =~= seq![ContentType::Handshake]);
            TlsError::InappropriateMessage { expect_types, got_type: m.typ }
        },
    }
}

} // verus!
