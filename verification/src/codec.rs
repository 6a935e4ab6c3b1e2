//! Reading and writing the wire format: big-endian integers, length-prefixed byte
//! strings, and lists.

use vstd::prelude::*;
use vstd::slice::slice_subrange;

verus! {

/// The two bytes of `x`, most significant first.
pub open spec fn be16(x: u16) -> Seq<u8> {
    seq![(x / 256) as u8, (x % 256) as u8]
}

/// The three low bytes of `x`, most significant first.
pub open spec fn be24(x: u32) -> Seq<u8> {
    seq![((x / 65536) % 256) as u8, ((x / 256) % 256) as u8, (x % 256) as u8]
}

/// The four bytes of `x`, most significant first.
pub open spec fn be32(x: u32) -> Seq<u8> {
    be16((x / 65536) as u16) + be16((x % 65536) as u16)
}

/// The eight bytes of `x`, most significant first.
pub open spec fn be64(x: u64) -> Seq<u8> {
    be32((x / 0x1_0000_0000) as u32) + be32((x % 0x1_0000_0000) as u32)
}

pub open spec fn decode_u8(bytes: Seq<u8>) -> Option<(u8, nat)> {
    if bytes.len() >= 1 {
        Some((bytes[0], 1))
    } else {
        None
    }
}

pub open spec fn decode_u16(bytes: Seq<u8>) -> Option<(u16, nat)> {
    if bytes.len() >= 2 {
        Some(((bytes[0] * 256 + bytes[1]) as u16, 2))
    } else {
        None
    }
}

pub open spec fn decode_u24(bytes: Seq<u8>) -> Option<(u32, nat)> {
    if bytes.len() >= 3 {
        Some(((bytes[0] * 65536 + bytes[1] * 256 + bytes[2]) as u32, 3))
    } else {
        None
    }
}

pub open spec fn decode_u32(bytes: Seq<u8>) -> Option<(u32, nat)> {
    if bytes.len() >= 4 {
        Some(
            (
                (bytes[0] * 0x100_0000 + bytes[1] * 65536 + bytes[2] * 256 + bytes[3]) as u32,
                4,
            ),
        )
    } else {
        None
    }
}

pub open spec fn decode_u64(bytes: Seq<u8>) -> Option<(u64, nat)> {
    match (decode_u32(bytes), decode_u32(bytes.skip(4))) {
        (Some((hi, _)), Some((lo, _))) => Some(((hi * 0x1_0000_0000 + lo) as u64, 8)),
        _ => None,
    }
}

/// A cursor over received bytes. Its view is what is left to read.
pub struct Reader<'a> {
    buf: &'a [u8],
    offs: usize,
}

impl<'a> View for Reader<'a> {
    type V = Seq<u8>;

    closed spec fn view(&self) -> Seq<u8> {
        self.buf@.skip(self.offs as int)
    }
}

impl<'a> Reader<'a> {
    #[verifier::type_invariant]
    spec fn in_bounds(&self) -> bool {
        self.offs <= self.buf@.len()
    }

    /// How many bytes have been read.
    pub closed spec fn spec_used(&self) -> nat {
        self.offs as nat
    }

    pub fn init(bytes: &'a [u8]) -> (r: Reader<'a>)
        ensures
            r@ == bytes@,
            r.spec_used() == 0,
    {
        Reader { buf: bytes, offs: 0 }
    }

    /// The next `n` bytes, or `None` where fewer are left; then nothing is read.
    pub fn take(&mut self, n: usize) -> (r: Option<&'a [u8]>)
        ensures
            r is Some <==> n <= old(self)@.len(),
            r matches Some(s) ==> s@ == old(self)@.take(n as int) && final(self)@ == old(self)@.skip(
                n as int,
            ) && final(self).spec_used() == old(self).spec_used() + n,
            r is None ==> final(self)@ == old(self)@ && final(self).spec_used() == old(self).spec_used(),
    {
        proof {
            use_type_invariant(&*self);
        }
        if self.buf.len() - self.offs < n {
            return None;
        }
        let start: usize = self.offs;
        let end: usize = start + n;
        let ghost left = self@;
        self.offs = end;
        assert(self.buf@.subrange(start as int, end as int) =~= left.take(n as int));
        assert(self@ =~= left.skip(n as int));
        Some(slice_subrange(self.buf, start, end))
    }

    /// Everything that is left.
    pub fn rest(&mut self) -> (r: &'a [u8])
        ensures
            r@ == old(self)@,
            final(self)@.len() == 0,
            final(self).spec_used() == old(self).spec_used() + old(self)@.len(),
    {
        proof {
            use_type_invariant(&*self);
        }
        let start: usize = self.offs;
        self.offs = self.buf.len();
        slice_subrange(self.buf, start, self.buf.len())
    }

    /// A cursor over the next `n` bytes alone.
    pub fn sub(&mut self, n: usize) -> (r: Option<Reader<'a>>)
        ensures
            r is Some <==> n <= old(self)@.len(),
            r matches Some(s) ==> s@ == old(self)@.take(n as int) && final(self)@ == old(self)@.skip(
                n as int,
            ) && final(self).spec_used() == old(self).spec_used() + n,
    {
        match self.take(n) {
            Some(bytes) => Some(Reader::init(bytes)),
            None => None,
        }
    }

    pub fn left(&self) -> (r: usize)
        ensures
            r == self@.len(),
    {
        proof {
            use_type_invariant(self);
        }
        self.buf.len() - self.offs
    }

    pub fn any_left(&self) -> (r: bool)
        ensures
            r == (self@.len() > 0),
    {
        self.left() > 0
    }

    pub fn used(&self) -> (r: usize)
        ensures
            r == self.spec_used(),
    {
        self.offs
    }
}

pub fn put_u16(x: u16, bytes: &mut Vec<u8>)
    ensures
        final(bytes)@ == old(bytes)@ + be16(x),
{
    bytes.push((x / 256) as u8);
    bytes.push((x % 256) as u8);
    assert(bytes@ =~= old(bytes)@ + be16(x));
}

pub fn put_u24(x: u32, bytes: &mut Vec<u8>)
    ensures
        final(bytes)@ == old(bytes)@ + be24(x),
{
    bytes.push(((x / 65536) % 256) as u8);
    bytes.push(((x / 256) % 256) as u8);
    bytes.push((x % 256) as u8);
    assert(bytes@ =~= old(bytes)@ + be24(x));
}

pub fn put_u32(x: u32, bytes: &mut Vec<u8>)
    ensures
        final(bytes)@ == old(bytes)@ + be32(x),
{
    put_u16((x / 65536) as u16, bytes);
    put_u16((x % 65536) as u16, bytes);
    assert(bytes@ =~= old(bytes)@ + be32(x));
}

pub fn put_u64(x: u64, bytes: &mut Vec<u8>)
    ensures
        final(bytes)@ == old(bytes)@ + be64(x),
{
    put_u32((x / 0x1_0000_0000) as u32, bytes);
    put_u32((x % 0x1_0000_0000) as u32, bytes);
    assert(bytes@ =~= old(bytes)@ + be64(x));
}

/// Appends the bytes of `more`.
pub fn put_slice(more: &[u8], bytes: &mut Vec<u8>)
    ensures
        final(bytes)@ == old(bytes)@ + more@,
{
    bytes.extend_from_slice(more);
    assert(bytes@ =~= old(bytes)@ + more@);
}

/// A copy of `bytes`.
pub fn to_vec(bytes: &[u8]) -> (r: Vec<u8>)
    ensures
        r@ == bytes@,
{
    let mut r: Vec<u8> = Vec::new();
    put_slice(bytes, &mut r);
    assert(r@ =~= bytes@);
    r
}

/// Whether two byte strings are the same.
pub fn same_bytes(a: &[u8], b: &[u8]) -> (r: bool)
    ensures
        r == (a@ == b@),
{
    if a.len() != b.len() {
        return false;
    }
    let mut i: usize = 0;
    while i < a.len()
        invariant
            i <= a@.len(),
            a@.len() == b@.len(),
            forall|j: int| 0 <= j < i ==> a@[j] == b@[j],
        decreases a@.len() - i,
    {
        if a[i] != b[i] {
            return false;
        }
        i += 1;
    }
    assert(a@ =~= b@);
    true
}

pub fn read_u8(rd: &mut Reader) -> (r: Option<u8>)
    ensures
        match decode_u8(old(rd)@) {
            Some((x, n)) => r == Some(x) && final(rd)@ == old(rd)@.skip(n as int)
                && final(rd).spec_used() == old(rd).spec_used() + n,
            None => r is None,
        },
{
    match rd.take(1) {
        Some(b) => Some(b[0]),
        None => None,
    }
}

pub fn read_u16(rd: &mut Reader) -> (r: Option<u16>)
    ensures
        match decode_u16(old(rd)@) {
            Some((x, n)) => r == Some(x) && final(rd)@ == old(rd)@.skip(n as int)
                && final(rd).spec_used() == old(rd).spec_used() + n,
            None => r is None,
        },
{
    match rd.take(2) {
        Some(b) => Some(b[0] as u16 * 256 + b[1] as u16),
        None => None,
    }
}

pub fn read_u24(rd: &mut Reader) -> (r: Option<u32>)
    ensures
        match decode_u24(old(rd)@) {
            Some((x, n)) => r == Some(x) && final(rd)@ == old(rd)@.skip(n as int)
                && final(rd).spec_used() == old(rd).spec_used() + n,
            None => r is None,
        },
{
    match rd.take(3) {
        Some(b) => Some(b[0] as u32 * 65536 + b[1] as u32 * 256 + b[2] as u32),
        None => None,
    }
}

pub fn read_u32(rd: &mut Reader) -> (r: Option<u32>)
    ensures
        match decode_u32(old(rd)@) {
            Some((x, n)) => r == Some(x) && final(rd)@ == old(rd)@.skip(n as int)
                && final(rd).spec_used() == old(rd).spec_used() + n,
            None => r is None,
        },
{
    match rd.take(4) {
        Some(b) => Some(
            b[0] as u32 * 0x100_0000 + b[1] as u32 * 65536 + b[2] as u32 * 256 + b[3] as u32,
        ),
        None => None,
    }
}

pub fn read_u64(rd: &mut Reader) -> (r: Option<u64>)
    ensures
        match decode_u64(old(rd)@) {
            Some((x, n)) => r == Some(x) && final(rd)@ == old(rd)@.skip(n as int)
                && final(rd).spec_used() == old(rd).spec_used() + n,
            None => r is None,
        },
{
    let hi: u32 = match read_u32(rd) {
        Some(x) => x,
        None => return None,
    };
    let lo: u32 = match read_u32(rd) {
        Some(x) => x,
        None => return None,
    };
    assert(old(rd)@.skip(4).skip(4) =~= old(rd)@.skip(8));
    Some(hi as u64 * 0x1_0000_0000 + lo as u64)
}

/// A value with a wire format.
pub trait Codec: View + Sized {
    /// The bytes that stand for a value.
    spec fn encoding(v: Self::V) -> Seq<u8>;

    /// The value at the front of `bytes` and the number of bytes it takes up, or `None`
    /// where there is no such value.
    spec fn decoding(bytes: Seq<u8>) -> Option<(Self::V, nat)>;

    /// A value that was read took up at least one of the bytes given, and no more than them.
    proof fn decoding_progresses(bytes: Seq<u8>)
        ensures
            Self::decoding(bytes) matches Some((_, n)) ==> 0 < n <= bytes.len(),
    ;

    fn encode(&self, bytes: &mut Vec<u8>)
        ensures
            final(bytes)@ == old(bytes)@ + Self::encoding(self@),
    ;

    fn read(rd: &mut Reader) -> (r: Option<Self>)
        ensures
            match Self::decoding(old(rd)@) {
                Some((v, n)) => r is Some && r->0@ == v && final(rd)@ == old(rd)@.skip(n as int)
                    && final(rd).spec_used() == old(rd).spec_used() + n,
                None => r is None,
            },
    ;

    fn get_encoding(&self) -> (r: Vec<u8>)
        ensures
            r@ == Self::encoding(self@),
    {
        let mut bytes: Vec<u8> = Vec::new();
        self.encode(&mut bytes);
        assert(bytes@ =~= Self::encoding(self@));
        bytes
    }

    fn read_bytes(bytes: &[u8]) -> (r: Option<Self>)
        ensures
            match Self::decoding(bytes@) {
                Some((v, _)) => r is Some && r->0@ == v,
                None => r is None,
            },
    {
        let mut rd = Reader::init(bytes);
        Self::read(&mut rd)
    }
}

/// The views of the items of a list.
pub open spec fn views<T: View>(items: Seq<T>) -> Seq<T::V> {
    items.map_values(|x: T| x@)
}

/// The encodings of the items of a list, one after the other.
pub open spec fn list_encoding<T: Codec>(items: Seq<T::V>) -> Seq<u8>
    decreases items.len(),
{
    if items.len() == 0 {
        Seq::empty()
    } else {
        list_encoding::<T>(items.drop_last()) + T::encoding(items.last())
    }
}

/// A list of items that fills `bytes` to the end, or `None` where some item cannot be read.
pub open spec fn list_decoding<T: Codec>(bytes: Seq<u8>) -> Option<Seq<T::V>>
    decreases bytes.len(),
{
    if bytes.len() == 0 {
        Some(Seq::empty())
    } else {
        match T::decoding(bytes) {
            Some((v, n)) => if 0 < n <= bytes.len() {
                match list_decoding::<T>(bytes.skip(n as int)) {
                    Some(rest) => Some(seq![v] + rest),
                    None => None,
                }
            } else {
                None
            },
            None => None,
        }
    }
}

/// `bytes` behind their length in one byte.
pub open spec fn prefixed_u8(bytes: Seq<u8>) -> Seq<u8> {
    seq![bytes.len() as u8] + bytes
}

/// `bytes` behind their length in two bytes.
pub open spec fn prefixed_u16(bytes: Seq<u8>) -> Seq<u8> {
    be16(bytes.len() as u16) + bytes
}

/// `bytes` behind their length in three bytes.
pub open spec fn prefixed_u24(bytes: Seq<u8>) -> Seq<u8> {
    be24(bytes.len() as u32) + bytes
}

/// The bytes behind a length that takes up `n` bytes, and what both take up.
pub open spec fn after_prefix(bytes: Seq<u8>, len: int, n: nat) -> Option<(Seq<u8>, nat)> {
    if n + len <= bytes.len() {
        Some((bytes.subrange(n as int, n + len), (n + len) as nat))
    } else {
        None
    }
}

pub open spec fn unprefixed_u8(bytes: Seq<u8>) -> Option<(Seq<u8>, nat)> {
    match decode_u8(bytes) {
        Some((len, n)) => after_prefix(bytes, len as int, n),
        None => None,
    }
}

pub open spec fn unprefixed_u16(bytes: Seq<u8>) -> Option<(Seq<u8>, nat)> {
    match decode_u16(bytes) {
        Some((len, n)) => after_prefix(bytes, len as int, n),
        None => None,
    }
}

pub open spec fn unprefixed_u24(bytes: Seq<u8>) -> Option<(Seq<u8>, nat)> {
    match decode_u24(bytes) {
        Some((len, n)) => after_prefix(bytes, len as int, n),
        None => None,
    }
}

pub fn put_prefixed_u8(body: &[u8], bytes: &mut Vec<u8>)
    ensures
        final(bytes)@ == old(bytes)@ + prefixed_u8(body@),
{
    bytes.push(body.len() as u8);
    put_slice(body, bytes);
    assert(bytes@ =~= old(bytes)@ + prefixed_u8(body@));
}

pub fn put_prefixed_u16(body: &[u8], bytes: &mut Vec<u8>)
    ensures
        final(bytes)@ == old(bytes)@ + prefixed_u16(body@),
{
    put_u16(body.len() as u16, bytes);
    put_slice(body, bytes);
    assert(bytes@ =~= old(bytes)@ + prefixed_u16(body@));
}

pub fn put_prefixed_u24(body: &[u8], bytes: &mut Vec<u8>)
    ensures
        final(bytes)@ == old(bytes)@ + prefixed_u24(body@),
{
    put_u24(body.len() as u32, bytes);
    put_slice(body, bytes);
    assert(bytes@ =~= old(bytes)@ + prefixed_u24(body@));
}

pub fn sub_prefixed_u8<'a>(rd: &mut Reader<'a>) -> (r: Option<Reader<'a>>)
    ensures
        match unprefixed_u8(old(rd)@) {
            Some((body, n)) => r is Some && r->0@ == body && final(rd)@ == old(rd)@.skip(n as int)
                && final(rd).spec_used() == old(rd).spec_used() + n,
            None => r is None,
        },
{
    match read_u8(rd) {
        Some(len) => {
            let r = rd.sub(len as usize);
            proof {
                lemma_after_prefix(old(rd)@, len as int, 1);
            }
            r
        },
        None => None,
    }
}

pub fn sub_prefixed_u16<'a>(rd: &mut Reader<'a>) -> (r: Option<Reader<'a>>)
    ensures
        match unprefixed_u16(old(rd)@) {
            Some((body, n)) => r is Some && r->0@ == body && final(rd)@ == old(rd)@.skip(n as int)
                && final(rd).spec_used() == old(rd).spec_used() + n,
            None => r is None,
        },
{
    match read_u16(rd) {
        Some(len) => {
            let r = rd.sub(len as usize);
            proof {
                lemma_after_prefix(old(rd)@, len as int, 2);
            }
            r
        },
        None => None,
    }
}

pub fn sub_prefixed_u24<'a>(rd: &mut Reader<'a>) -> (r: Option<Reader<'a>>)
    ensures
        match unprefixed_u24(old(rd)@) {
            Some((body, n)) => r is Some && r->0@ == body && final(rd)@ == old(rd)@.skip(n as int)
                && final(rd).spec_used() == old(rd).spec_used() + n,
            None => r is None,
        },
{
    match read_u24(rd) {
        Some(len) => {
            let r = rd.sub(len as usize);
            proof {
                lemma_after_prefix(old(rd)@, len as int, 3);
            }
            r
        },
        None => None,
    }
}

/// Cutting off a prefix and then what it measures is cutting off both.
proof fn lemma_after_prefix(bytes: Seq<u8>, len: int, n: nat)
    requires
        n <= bytes.len(),
        0 <= len,
    ensures
        n + len <= bytes.len() ==> bytes.skip(n as int).take(len) == bytes.subrange(n as int, n + len)
            && bytes.skip(n as int).skip(len) == bytes.skip(n + len),
{
    if n + len <= bytes.len() {
        assert(bytes.skip(n as int).take(len) =~= bytes.subrange(n as int, n + len));
        assert(bytes.skip(n as int).skip(len) =~= bytes.skip(n + len));
    }
}

/// Appends the encodings of `items`.
pub fn put_list<T: Codec>(items: &Vec<T>, bytes: &mut Vec<u8>)
    ensures
        final(bytes)@ == old(bytes)@ + list_encoding::<T>(views(items@)),
{
    let mut i: usize = 0;
    assert(views(items@).take(0) =~= Seq::<T::V>::empty());
    assert(bytes@ =~= old(bytes)@ + list_encoding::<T>(views(items@).take(0)));
    while i < items.len()
        invariant
            i <= items@.len(),
            bytes@ == old(bytes)@ + list_encoding::<T>(views(items@).take(i as int)),
        decreases items@.len() - i,
    {
        items[i].encode(bytes);
        proof {
            let done = views(items@).take(i + 1);
            assert(done.drop_last() =~= views(items@).take(i as int));
            assert(done.last() == items@[i as int]@);
            assert(bytes@ =~= old(bytes)@ + list_encoding::<T>(done));
        }
        i += 1;
    }
    assert(views(items@).take(i as int) =~= views(items@));
}

/// Reads items up to the end of `rd`.
pub fn read_list<T: Codec>(rd: &mut Reader) -> (r: Option<Vec<T>>)
    ensures
        match list_decoding::<T>(old(rd)@) {
            Some(vs) => r is Some && views(r->0@) == vs && final(rd)@.len() == 0,
            None => r is None,
        },
{
    let mut items: Vec<T> = Vec::new();
    let ghost all = list_decoding::<T>(rd@);
    assert(all matches Some(vs) ==> vs =~= views(items@) + vs);
    while rd.any_left()
        invariant
            match list_decoding::<T>(rd@) {
                Some(rest) => all == Some(views(items@) + rest),
                None => all is None,
            },
            all == list_decoding::<T>(old(rd)@),
        decreases rd@.len(),
    {
        proof {
            T::decoding_progresses(rd@);
        }
        let ghost before = items@;
        let ghost left = rd@;
        match T::read(rd) {
            Some(item) => {
                items.push(item);
                proof {
                    assert(views(items@) =~= views(before).push(item@));
                    if list_decoding::<T>(rd@) is Some {
                        let rest = list_decoding::<T>(rd@)->0;
                        assert(views(before) + (seq![item@] + rest) =~= views(items@) + rest);
                    }
                }
            },
            None => return None,
        }
    }
    assert(views(items@) + Seq::<T::V>::empty() =~= views(items@));
    Some(items)
}

/// Concatenation is associative.
pub broadcast proof fn lemma_concat_assoc<A>(a: Seq<A>, b: Seq<A>, c: Seq<A>)
    ensures
        #[trigger] ((a + b) + c) == a + (b + c),
{
    assert((a + b) + c =~= a + (b + c));
}

/// Cutting off `a` items and then `b` items is cutting off both.
pub broadcast proof fn lemma_skip_skip<A>(s: Seq<A>, a: int, b: int)
    requires
        0 <= a,
        0 <= b,
        a + b <= s.len(),
    ensures
        #[trigger] s.skip(a).skip(b) == s.skip(a + b),
{
    assert(s.skip(a).skip(b) =~= s.skip(a + b));
}

/// A list behind its length in bytes, which takes up one byte.
pub open spec fn vec_u8_encoding<T: Codec>(items: Seq<T::V>) -> Seq<u8> {
    prefixed_u8(list_encoding::<T>(items))
}

/// A list behind its length in bytes, which takes up two bytes.
pub open spec fn vec_u16_encoding<T: Codec>(items: Seq<T::V>) -> Seq<u8> {
    prefixed_u16(list_encoding::<T>(items))
}

/// A list behind its length in bytes, which takes up three bytes.
pub open spec fn vec_u24_encoding<T: Codec>(items: Seq<T::V>) -> Seq<u8> {
    prefixed_u24(list_encoding::<T>(items))
}

/// The list that fills the bytes behind a prefix, and what both take up.
pub open spec fn list_behind<T: Codec>(body: Option<(Seq<u8>, nat)>) -> Option<(Seq<T::V>, nat)> {
    match body {
        Some((bytes, n)) => match list_decoding::<T>(bytes) {
            Some(items) => Some((items, n)),
            None => None,
        },
        None => None,
    }
}

pub open spec fn vec_u8_decoding<T: Codec>(bytes: Seq<u8>) -> Option<(Seq<T::V>, nat)> {
    list_behind::<T>(unprefixed_u8(bytes))
}

pub open spec fn vec_u16_decoding<T: Codec>(bytes: Seq<u8>) -> Option<(Seq<T::V>, nat)> {
    list_behind::<T>(unprefixed_u16(bytes))
}

pub open spec fn vec_u24_decoding<T: Codec>(bytes: Seq<u8>) -> Option<(Seq<T::V>, nat)> {
    list_behind::<T>(unprefixed_u24(bytes))
}

pub fn put_vec_u8<T: Codec>(items: &Vec<T>, bytes: &mut Vec<u8>)
    ensures
        final(bytes)@ == old(bytes)@ + vec_u8_encoding::<T>(views(items@)),
{
    let mut body: Vec<u8> = Vec::new();
    put_list(items, &mut body);
    assert(body@ =~= list_encoding::<T>(views(items@)));
    put_prefixed_u8(body.as_slice(), bytes);
}

pub fn put_vec_u16<T: Codec>(items: &Vec<T>, bytes: &mut Vec<u8>)
    ensures
        final(bytes)@ == old(bytes)@ + vec_u16_encoding::<T>(views(items@)),
{
    let mut body: Vec<u8> = Vec::new();
    put_list(items, &mut body);
    assert(body@ =~= list_encoding::<T>(views(items@)));
    put_prefixed_u16(body.as_slice(), bytes);
}

pub fn put_vec_u24<T: Codec>(items: &Vec<T>, bytes: &mut Vec<u8>)
    ensures
        final(bytes)@ == old(bytes)@ + vec_u24_encoding::<T>(views(items@)),
{
    let mut body: Vec<u8> = Vec::new();
    put_list(items, &mut body);
    assert(body@ =~= list_encoding::<T>(views(items@)));
    put_prefixed_u24(body.as_slice(), bytes);
}

pub fn read_vec_u8<T: Codec>(rd: &mut Reader) -> (r: Option<Vec<T>>)
    ensures
        match vec_u8_decoding::<T>(old(rd)@) {
            Some((items, n)) => r is Some && views(r->0@) == items && final(rd)@ == old(rd)@.skip(
                n as int,
            ) && final(rd).spec_used() == old(rd).spec_used() + n,
            None => r is None,
        },
{
    match sub_prefixed_u8(rd) {
        Some(mut body) => read_list::<T>(&mut body),
        None => None,
    }
}

pub fn read_vec_u16<T: Codec>(rd: &mut Reader) -> (r: Option<Vec<T>>)
    ensures
        match vec_u16_decoding::<T>(old(rd)@) {
            Some((items, n)) => r is Some && views(r->0@) == items && final(rd)@ == old(rd)@.skip(
                n as int,
            ) && final(rd).spec_used() == old(rd).spec_used() + n,
            None => r is None,
        },
{
    match sub_prefixed_u16(rd) {
        Some(mut body) => read_list::<T>(&mut body),
        None => None,
    }
}

pub fn read_vec_u24<T: Codec>(rd: &mut Reader) -> (r: Option<Vec<T>>)
    ensures
        match vec_u24_decoding::<T>(old(rd)@) {
            Some((items, n)) => r is Some && views(r->0@) == items && final(rd)@ == old(rd)@.skip(
                n as int,
            ) && final(rd).spec_used() == old(rd).spec_used() + n,
            None => r is None,
        },
{
    match sub_prefixed_u24(rd) {
        Some(mut body) => read_list::<T>(&mut body),
        None => None,
    }
}

/// A two-byte integer reads back as it was written, whatever follows it.
pub proof fn u16_round_trip(x: u16, tail: Seq<u8>)
    ensures
        decode_u16(be16(x) + tail) == Some((x, 2nat)),
{
    let b = be16(x) + tail;
    assert(b[0] == x / 256);
    assert(b[1] == x % 256);
}

/// A three-byte integer reads back as it was written, whatever follows it.
pub proof fn u24_round_trip(x: u32, tail: Seq<u8>)
    requires
        x < 0x100_0000,
    ensures
        decode_u24(be24(x) + tail) == Some((x, 3nat)),
{
    let b = be24(x) + tail;
    assert(b[0] == x / 65536);
    assert(b[1] == (x / 256) % 256);
    assert(b[2] == x % 256);
}

/// A four-byte integer reads back as it was written, whatever follows it.
pub proof fn u32_round_trip(x: u32, tail: Seq<u8>)
    ensures
        decode_u32(be32(x) + tail) == Some((x, 4nat)),
{
    let b = be32(x) + tail;
    assert(b[0] == (x / 65536) / 256);
    assert(b[1] == (x / 65536) % 256);
    assert(b[2] == (x % 65536) / 256);
    assert(b[3] == (x % 65536) % 256);
}

/// An eight-byte integer reads back as it was written, whatever follows it.
pub proof fn u64_round_trip(x: u64, tail: Seq<u8>)
    ensures
        decode_u64(be64(x) + tail) == Some((x, 8nat)),
{
    let hi = (x / 0x1_0000_0000) as u32;
    let lo = (x % 0x1_0000_0000) as u32;
    u32_round_trip(hi, be32(lo) + tail);
    u32_round_trip(lo, tail);
    assert(be64(x) + tail =~= be32(hi) + (be32(lo) + tail));
    assert((be64(x) + tail).skip(4) =~= be32(lo) + tail);
}

/// A byte string behind its length reads back as it was written, whatever follows it, if
/// its length fits the prefix.
pub proof fn prefixed_u8_round_trip(body: Seq<u8>, tail: Seq<u8>)
    requires
        body.len() < 0x100,
    ensures
        unprefixed_u8(prefixed_u8(body) + tail) == Some((body, prefixed_u8(body).len())),
        prefixed_u8(body).len() == body.len() + 1,
{
    let b = prefixed_u8(body) + tail;
    assert(b.subrange(1, 1 + body.len() as int) =~= body);
}

/// A byte string behind its length reads back as it was written, whatever follows it, if
/// its length fits the prefix.
pub proof fn prefixed_u16_round_trip(body: Seq<u8>, tail: Seq<u8>)
    requires
        body.len() < 0x1_0000,
    ensures
        unprefixed_u16(prefixed_u16(body) + tail) == Some((body, prefixed_u16(body).len())),
        prefixed_u16(body).len() == body.len() + 2,
{
    let b = prefixed_u16(body) + tail;
    u16_round_trip(body.len() as u16, body + tail);
    assert(b =~= be16(body.len() as u16) + (body + tail));
    assert(b.subrange(2, 2 + body.len() as int) =~= body);
}

/// A byte string behind its length reads back as it was written, whatever follows it, if
/// its length fits the prefix.
pub proof fn prefixed_u24_round_trip(body: Seq<u8>, tail: Seq<u8>)
    requires
        body.len() < 0x100_0000,
    ensures
        unprefixed_u24(prefixed_u24(body) + tail) == Some((body, prefixed_u24(body).len())),
        prefixed_u24(body).len() == body.len() + 3,
{
    let b = prefixed_u24(body) + tail;
    u24_round_trip(body.len() as u32, body + tail);
    assert(b =~= be24(body.len() as u32) + (body + tail));
    assert(b.subrange(3, 3 + body.len() as int) =~= body);
}

/// Whether a value that was written is read back, whatever follows it.
pub open spec fn reads_back<T: Codec>(v: T::V) -> bool {
    forall|tail: Seq<u8>| #[trigger]
        T::decoding(T::encoding(v) + tail) == Some((v, T::encoding(v).len()))
}

/// A list is the encoding of its first item and then that of the others.
proof fn lemma_list_front<T: Codec>(items: Seq<T::V>)
    requires
        items.len() > 0,
    ensures
        list_encoding::<T>(items) == T::encoding(items[0]) + list_encoding::<T>(items.drop_first()),
    decreases items.len(),
{
    if items.len() == 1 {
        assert(items.drop_last() =~= Seq::<T::V>::empty());
        assert(items.drop_first() =~= Seq::<T::V>::empty());
        assert(list_encoding::<T>(items.drop_last()) =~= Seq::<u8>::empty());
        assert(list_encoding::<T>(items) =~= T::encoding(items[0]) + list_encoding::<T>(
            items.drop_first(),
        ));
    } else {
        lemma_list_front::<T>(items.drop_last());
        assert(items.drop_last().drop_first() =~= items.drop_first().drop_last());
        assert(items.drop_first().last() == items.last());
        assert(list_encoding::<T>(items) =~= T::encoding(items[0]) + list_encoding::<T>(
            items.drop_first(),
        ));
    }
}

/// A list whose items are read back is read back.
pub proof fn list_round_trip<T: Codec>(items: Seq<T::V>)
    requires
        forall|i: int| 0 <= i < items.len() ==> reads_back::<T>(#[trigger] items[i]),
    ensures
        list_decoding::<T>(list_encoding::<T>(items)) == Some(items),
    decreases items.len(),
{
    let bytes = list_encoding::<T>(items);
    if items.len() == 0 {
        assert(items =~= Seq::<T::V>::empty());
    } else {
        let first = items[0];
        let others = items.drop_first();
        let tail = list_encoding::<T>(others);
        lemma_list_front::<T>(items);
        assert(reads_back::<T>(items[0]));
        assert(T::decoding(bytes) == Some((first, T::encoding(first).len())));
        T::decoding_progresses(bytes);
        assert(bytes.skip(T::encoding(first).len() as int) =~= tail);
        assert forall|i: int| 0 <= i < others.len() implies reads_back::<T>(
            #[trigger] others[i],
        ) by {
            assert(others[i] == items[i + 1]);
        }
        list_round_trip::<T>(others);
        assert(seq![first] + others =~= items);
    }
}

/// A list of items that are read back is read back from behind its length, where the length
/// can be written.
pub proof fn list_behind_length_round_trip<T: Codec>(items: Seq<T::V>, tail: Seq<u8>)
    requires
        forall|i: int| 0 <= i < items.len() ==> reads_back::<T>(#[trigger] items[i]),
        list_encoding::<T>(items).len() < 0x100_0000,
    ensures
        vec_u24_decoding::<T>(vec_u24_encoding::<T>(items) + tail) == Some(
            (items, vec_u24_encoding::<T>(items).len()),
        ),
{
    list_round_trip::<T>(items);
    lemma_behind_length::<T>(items, tail);
}

proof fn lemma_behind_length<T: Codec>(items: Seq<T::V>, tail: Seq<u8>)
    requires
        list_decoding::<T>(list_encoding::<T>(items)) == Some(items),
        list_encoding::<T>(items).len() < 0x100_0000,
    ensures
        vec_u24_decoding::<T>(vec_u24_encoding::<T>(items) + tail) == Some(
            (items, vec_u24_encoding::<T>(items).len()),
        ),
{
    prefixed_u24_round_trip(list_encoding::<T>(items), tail);
}

/// What follows the front of a concatenation.
pub proof fn lemma_skip_front<A>(a: Seq<A>, b: Seq<A>)
    ensures
        (a + b).skip(a.len() as int) == b,
{
    assert((a + b).skip(a.len() as int) =~= b);
}

} // verus!
