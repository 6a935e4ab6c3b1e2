//! Certificates.

use crate::codec::{
    prefixed_u24, put_prefixed_u24, sub_prefixed_u24, to_vec, unprefixed_u24, views, Codec, Reader,
};
use vstd::prelude::*;

verus! {

/// A certificate, DER encoded.
#[derive(Debug, PartialEq, Eq)]
pub struct Certificate(pub Vec<u8>);

impl View for Certificate {
    type V = Seq<u8>;

    open spec fn view(&self) -> Seq<u8> {
        self.0@
    }
}

impl Codec for Certificate {
    open spec fn encoding(v: Seq<u8>) -> Seq<u8> {
        prefixed_u24(v)
    }

    open spec fn decoding(bytes: Seq<u8>) -> Option<(Seq<u8>, nat)> {
        unprefixed_u24(bytes)
    }

    proof fn decoding_progresses(bytes: Seq<u8>) {
    }

    fn encode(&self, bytes: &mut Vec<u8>) {
        put_prefixed_u24(self.0.as_slice(), bytes);
        assert(bytes@ =~= old(bytes)@ + Self::encoding(self@));
    }

    fn read(rd: &mut Reader) -> (r: Option<Certificate>) {
        match sub_prefixed_u24(rd) {
            Some(mut body) => Some(Certificate(to_vec(body.rest()))),
            None => None,
        }
    }
}

impl Certificate {
    /// A copy of the certificate.
    pub fn duplicate(&self) -> (r: Certificate)
        ensures
            r@ == self@,
    {
        Certificate(to_vec(self.0.as_slice()))
    }
}

/// A copy of a certificate chain.
pub fn duplicate_chain(chain: &Vec<Certificate>) -> (r: Vec<Certificate>)
    ensures
        views(r@) == views(chain@),
{
    let mut r: Vec<Certificate> = Vec::new();
    let mut i: usize = 0;
    while i < chain.len()
        invariant
            i <= chain@.len(),
            views(r@) == views(chain@).take(i as int),
        decreases chain@.len() - i,
    {
        let ghost before = r@;
        r.push(chain[i].duplicate());
        assert(views(r@) =~= views(before).push(chain@[i as int]@));
        assert(views(chain@).take(i + 1) =~= views(chain@).take(i as int).push(chain@[i as int]@));
        i += 1;
    }
    assert(views(chain@).take(i as int) =~= views(chain@));
    r
}

} // verus!
