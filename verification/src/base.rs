//! Byte strings behind a length of one or two bytes.

use crate::codec::{
    prefixed_u16, prefixed_u8, put_prefixed_u16, put_prefixed_u8, sub_prefixed_u16, sub_prefixed_u8,
    to_vec, unprefixed_u16, unprefixed_u8, Codec, Reader,
};
use vstd::prelude::*;

verus! {

/// Bytes with no length of their own: they reach to the end of what holds them.
#[derive(Debug, PartialEq, Eq)]
pub struct Payload(pub Vec<u8>);

impl View for Payload {
    type V = Seq<u8>;

    open spec fn view(&self) -> Seq<u8> {
        self.0@
    }
}

impl Payload {
    pub fn new(bytes: &[u8]) -> (r: Payload)
        ensures
            r@ == bytes@,
    {
        Payload(to_vec(bytes))
    }
}

/// Bytes behind a length of one byte.
#[derive(Debug, PartialEq, Eq)]
pub struct PayloadU8(pub Vec<u8>);

impl View for PayloadU8 {
    type V = Seq<u8>;

    open spec fn view(&self) -> Seq<u8> {
        self.0@
    }
}

impl PayloadU8 {
    pub fn new(bytes: Vec<u8>) -> (r: PayloadU8)
        ensures
            r@ == bytes@,
    {
        PayloadU8(bytes)
    }
}

impl Codec for PayloadU8 {
    open spec fn encoding(v: Seq<u8>) -> Seq<u8> {
        prefixed_u8(v)
    }

    open spec fn decoding(bytes: Seq<u8>) -> Option<(Seq<u8>, nat)> {
        unprefixed_u8(bytes)
    }

    proof fn decoding_progresses(bytes: Seq<u8>) {
    }

    fn encode(&self, bytes: &mut Vec<u8>) {
        put_prefixed_u8(self.0.as_slice(), bytes);
    }

    fn read(rd: &mut Reader) -> (r: Option<PayloadU8>) {
        match sub_prefixed_u8(rd) {
            Some(mut body) => Some(PayloadU8(to_vec(body.rest()))),
            None => None,
        }
    }
}

/// Bytes behind a length of two bytes.
#[derive(Debug, PartialEq, Eq)]
pub struct PayloadU16(pub Vec<u8>);

impl View for PayloadU16 {
    type V = Seq<u8>;

    open spec fn view(&self) -> Seq<u8> {
        self.0@
    }
}

impl PayloadU16 {
    pub fn new(bytes: Vec<u8>) -> (r: PayloadU16)
        ensures
            r@ == bytes@,
    {
        PayloadU16(bytes)
    }

    /// Appends `slice` behind its length.
    pub fn encode_slice(slice: &[u8], bytes: &mut Vec<u8>)
        ensures
            final(bytes)@ == old(bytes)@ + prefixed_u16(slice@),
    {
        put_prefixed_u16(slice, bytes);
    }
}

impl Codec for PayloadU16 {
    open spec fn encoding(v: Seq<u8>) -> Seq<u8> {
        prefixed_u16(v)
    }

    open spec fn decoding(bytes: Seq<u8>) -> Option<(Seq<u8>, nat)> {
        unprefixed_u16(bytes)
    }

    proof fn decoding_progresses(bytes: Seq<u8>) {
    }

    fn encode(&self, bytes: &mut Vec<u8>) {
        put_prefixed_u16(self.0.as_slice(), bytes);
    }

    fn read(rd: &mut Reader) -> (r: Option<PayloadU16>) {
        match sub_prefixed_u16(rd) {
            Some(mut body) => Some(PayloadU16(to_vec(body.rest()))),
            None => None,
        }
    }
}

} // verus!
