//! Steps that the handshakes of all versions share.

use super::{ClientSession, Hooks, SessionView};
use crate::base::{PayloadU16, PayloadU8};
use crate::codec::{same_bytes, to_vec, views};
use crate::enums::AlertDescription;
use crate::error::{misbehaved, seen, TlsError, TlsErrorView};
use crate::session::CommonView;
use vstd::prelude::*;

verus! {

/// Tells the peer that some parameter is illegal, and hands back the error that says why.
pub fn illegal_param<T: Hooks>(sess: &mut ClientSession<T>, why: &str) -> (r: TlsError)
    ensures
        final(sess)@ == old(sess)@.alerted(AlertDescription::IllegalParameter),
        r@ == misbehaved(why),
{
    sess.common.send_fatal_alert(AlertDescription::IllegalParameter);
    TlsError::PeerMisbehavedError(why.to_string())
}

/// The outcome of the check that keys are not changed in the middle of a message.
pub open spec fn aligned_checked<T: Hooks>(s: SessionView<T>) -> (
    Result<(), TlsErrorView>,
    SessionView<T>,
) {
    if s.common.is_aligned() {
        (Ok(()), s)
    } else {
        (
            Err(misbehaved("keys changed with pending hs fragment")),
            s.alerted(AlertDescription::UnexpectedMessage),
        )
    }
}

/// Keys must not be changed while part of a handshake message is waiting for the rest of it:
/// the parts would be protected differently.
pub fn check_aligned_handshake<T: Hooks>(sess: &mut ClientSession<T>) -> (r: Result<(), TlsError>)
    ensures
        (seen(r), final(sess)@) == aligned_checked(old(sess)@),
{
    if sess.common.handshake_joiner.is_empty() {
        Ok(())
    } else {
        sess.common.send_fatal_alert(AlertDescription::UnexpectedMessage);
        Err(TlsError::PeerMisbehavedError("keys changed with pending hs fragment".to_string()))
    }
}

/// The outcome of taking note of the application protocol.
pub open spec fn alpn_processed<T: Hooks>(s: SessionView<T>, proto: Option<Seq<u8>>) -> (
    Result<(), TlsErrorView>,
    SessionView<T>,
) {
    let noted = SessionView { common: CommonView { alpn_protocol: proto, ..s.common }, ..s };
    match proto {
        Some(proto) => if s.config.alpn_protocols.contains(proto) {
            (Ok(()), noted)
        } else {
            (
                Err(misbehaved("server sent non-offered ALPN protocol")),
                noted.alerted(AlertDescription::IllegalParameter),
            )
        },
        None => (Ok(()), noted),
    }
}

fn holds_protocol(protos: &Vec<PayloadU8>, proto: &[u8]) -> (r: bool)
    ensures
        r == views(protos@).contains(proto@),
{
    let mut i: usize = 0;
    while i < protos.len()
        invariant
            i <= protos@.len(),
            forall|j: int| 0 <= j < i ==> views(protos@)[j] != proto@,
        decreases protos@.len() - i,
    {
        assert(views(protos@)[i as int] == protos@[i as int]@);
        if same_bytes(protos[i].0.as_slice(), proto) {
            return true;
        }
        i += 1;
    }
    false
}

/// Takes note of the application protocol that the server chose, which must be one that was
/// offered.
pub fn process_alpn_protocol<T: Hooks>(
    sess: &mut ClientSession<T>,
    proto: Option<&PayloadU8>,
) -> (r: Result<(), TlsError>)
    ensures
        (seen(r), final(sess)@) == alpn_processed(
            old(sess)@,
            match proto {
                Some(proto) => Some(proto@),
                None => None,
            },
        ),
{
    match proto {
        Some(proto) => {
            sess.common.alpn_protocol = Some(to_vec(proto.0.as_slice()));
            if !holds_protocol(&sess.config.alpn_protocols, proto.0.as_slice()) {
                return Err(illegal_param(sess, "server sent non-offered ALPN protocol"));
            }
        },
        None => {
            sess.common.alpn_protocol = None;
        },
    }
    Ok(())
}

/// Whether a list of SCTs is malformed: empty, or with an empty SCT in it.
pub open spec fn sct_list_invalid(scts: Seq<Seq<u8>>) -> bool {
    scts.len() == 0 || exists|i: int| 0 <= i < scts.len() && (#[trigger] scts[i]).len() == 0
}

pub fn sct_list_is_invalid(scts: &Vec<PayloadU16>) -> (r: bool)
    ensures
        r == sct_list_invalid(views(scts@)),
{
    if scts.len() == 0 {
        return true;
    }
    let mut i: usize = 0;
    while i < scts.len()
        invariant
            i <= scts@.len(),
            forall|j: int| 0 <= j < i ==> (#[trigger] views(scts@)[j]).len() != 0,
        decreases scts@.len() - i,
    {
        assert(views(scts@)[i as int] == scts@[i as int]@);
        if scts[i].0.len() == 0 {
            return true;
        }
        i += 1;
    }
    false
}

} // verus!
