//! Reading from and writing to a region of bytes.
//!
//! The binary payload of a blueprint is a sequence of little-endian integers.
//! [`Deser`] walks forward over a slice of bytes, [`Ser`] grows a vector of
//! bytes. The value of an integer in a region is defined by arithmetic on its
//! bytes ([`u16_at`], [`u32_at`]), and so are the bytes of a value
//! ([`u16_bytes`], [`u32_bytes`]).

use crate::error::Error;
use vstd::prelude::*;
use vstd::slice::slice_subrange;

verus! {

/// The 16-bit number whose two bytes start at `at`, lowest byte first.
pub open spec fn u16_at(b: Seq<u8>, at: int) -> u16 {
    (b[at] + 256 * b[at + 1]) as u16
}

/// The 32-bit number whose four bytes start at `at`, lowest byte first.
pub open spec fn u32_at(b: Seq<u8>, at: int) -> u32 {
    (b[at] + 256 * b[at + 1] + 65536 * b[at + 2] + 16777216 * b[at + 3]) as u32
}

/// The signed number that a byte holds in two's complement.
pub open spec fn i8_of(b: u8) -> i8 {
    if b < 128 {
        b as i8
    } else {
        (b - 256) as i8
    }
}

/// The byte that holds a signed number in two's complement.
pub open spec fn i8_byte(x: i8) -> u8 {
    if x >= 0 {
        x as u8
    } else {
        (x + 256) as u8
    }
}

/// The two bytes of a 16-bit number, lowest first.
pub open spec fn u16_bytes(x: u16) -> Seq<u8> {
    seq![(x % 256) as u8, (x / 256) as u8]
}

/// The four bytes of a 32-bit number, lowest first.
pub open spec fn u32_bytes(x: u32) -> Seq<u8> {
    seq![
        (x % 256) as u8,
        (x / 256 % 256) as u8,
        (x / 65536 % 256) as u8,
        (x / 16777216) as u8,
    ]
}

/// `n` bytes that are all zero.
pub open spec fn zeros(n: nat) -> Seq<u8> {
    Seq::new(n, |i: int| 0u8)
}

/// A signed byte that is written and read again is the same.
pub proof fn lemma_i8_roundtrip(x: i8, b: u8)
    ensures
        i8_of(i8_byte(x)) == x,
        i8_byte(i8_of(b)) == b,
{
}

/// A 16-bit number that is written and read again is the same, and so are
/// two bytes that are read and written again.
pub proof fn lemma_u16_roundtrip(x: u16, b: Seq<u8>, at: int)
    requires
        0 <= at,
        at + 2 <= b.len(),
    ensures
        u16_bytes(x).len() == 2,
        u16_at(u16_bytes(x), 0) == x,
        u16_bytes(u16_at(b, at)) == b.subrange(at, at + 2),
{
    let lo = b[at];
    let hi = b[at + 1];
    let v = u16_at(b, at);
    assert(v % 256 == lo && v / 256 == hi) by (bit_vector)
        requires
            v == lo + 256 * hi,
    ;
    assert(x == x % 256 + 256 * (x / 256)) by (bit_vector);
}

/// A 32-bit number that is written and read again is the same, and so are
/// four bytes that are read and written again.
pub proof fn lemma_u32_roundtrip(x: u32, b: Seq<u8>, at: int)
    requires
        0 <= at,
        at + 4 <= b.len(),
    ensures
        u32_bytes(x).len() == 4,
        u32_at(u32_bytes(x), 0) == x,
        u32_bytes(u32_at(b, at)) == b.subrange(at, at + 4),
{
    let b0 = b[at];
    let b1 = b[at + 1];
    let b2 = b[at + 2];
    let b3 = b[at + 3];
    let v = u32_at(b, at);
    assert(v % 256 == b0 && v / 256 % 256 == b1 && v / 65536 % 256 == b2 && v / 16777216 == b3)
        by (bit_vector)
        requires
            v == b0 + 256 * b1 + 65536 * b2 + 16777216 * b3,
    ;
    assert(x == x % 256 + 256 * (x / 256 % 256) + 65536 * (x / 65536 % 256) + 16777216 * (x
        / 16777216)) by (bit_vector);
    assert(x % 256 < 256 && x / 256 % 256 < 256 && x / 65536 % 256 < 256 && x / 16777216 < 256)
        by (bit_vector);
}

/// Where the bytes of a 16-bit number stand at `at`, that number is read at
/// `at`.
pub proof fn lemma_u16_placed(e: Seq<u8>, at: int, x: u16)
    requires
        0 <= at,
        at + 2 <= e.len(),
        e.subrange(at, at + 2) =~= u16_bytes(x),
    ensures
        u16_at(e, at) == x,
{
    lemma_u16_roundtrip(x, e, at);
}

/// Where the bytes of a 32-bit number stand at `at`, that number is read at
/// `at`.
pub proof fn lemma_u32_placed(e: Seq<u8>, at: int, x: u32)
    requires
        0 <= at,
        at + 4 <= e.len(),
        e.subrange(at, at + 4) =~= u32_bytes(x),
    ensures
        u32_at(e, at) == x,
{
    lemma_u32_roundtrip(x, e, at);
}

/// The 16-bit number at `at` in a slice.
pub fn get_u16(b: &[u8], at: usize) -> (r: u16)
    requires
        at + 2 <= b.len(),
    ensures
        r == u16_at(b@, at as int),
{
    b[at] as u16 + 256 * (b[at + 1] as u16)
}

/// The 32-bit number at `at` in a slice.
pub fn get_u32(b: &[u8], at: usize) -> (r: u32)
    requires
        at + 4 <= b.len(),
    ensures
        r == u32_at(b@, at as int),
{
    b[at] as u32 + 256 * (b[at + 1] as u32) + 65536 * (b[at + 2] as u32) + 16777216 * (b[at
        + 3] as u32)
}

/// The signed number at `at` in a slice.
pub fn get_i8(b: &[u8], at: usize) -> (r: i8)
    requires
        at < b.len(),
    ensures
        r == i8_of(b@[at as int]),
{
    let v = b[at];
    if v < 128 {
        v as i8
    } else {
        (v as i16 - 256) as i8
    }
}

/// Something that bytes are read from, front to back.
pub trait ReadType {
    /// The bytes that have not been read yet.
    spec fn unread(&self) -> Seq<u8>;

    /// Passes over `count` bytes. Fails, and passes over nothing, where fewer
    /// are left.
    fn skip(&mut self, count: usize) -> (r: Result<(), Error>)
        ensures
            match r {
                Ok(()) => {
                    &&& count <= old(self).unread().len()
                    &&& final(self).unread() == old(self).unread().skip(count as int)
                },
                Err(e) => {
                    &&& e == Error::TruncatedInput
                    &&& count > old(self).unread().len()
                    &&& final(self).unread() == old(self).unread()
                },
            },
    ;
}

/// Something that bytes are written to, one after the other.
pub trait WriteType {
    /// The bytes that have been written so far.
    spec fn written(&self) -> Seq<u8>;

    /// Writes `count` zero bytes.
    fn pad(&mut self, count: usize) -> (r: Result<(), Error>)
        ensures
            r is Ok,
            final(self).written() == old(self).written() + zeros(count as nat),
    ;
}

/// A reader over a region of bytes.
pub struct Deser<'a> {
    rest: &'a [u8],
}

impl<'a> Deser<'a> {
    /// The bytes that have not been read yet.
    pub closed spec fn remaining(&self) -> Seq<u8> {
        self.rest@
    }

    /// A reader at the start of `data`.
    pub fn new(data: &'a [u8]) -> (r: Self)
        ensures
            r.remaining() == data@,
    {
        Deser { rest: data }
    }

    /// How many bytes are left.
    pub fn len(&self) -> (n: usize)
        ensures
            n == self.remaining().len(),
    {
        self.rest.len()
    }

    /// Reads the next `n` bytes. Fails, and reads nothing, where fewer are
    /// left.
    pub fn read_exact(&mut self, n: usize) -> (r: Result<&'a [u8], Error>)
        ensures
            match r {
                Ok(b) => {
                    &&& n <= old(self).remaining().len()
                    &&& b@ == old(self).remaining().take(n as int)
                    &&& final(self).remaining() == old(self).remaining().skip(n as int)
                },
                Err(e) => {
                    &&& e == Error::TruncatedInput
                    &&& n > old(self).remaining().len()
                    &&& final(self).remaining() == old(self).remaining()
                },
            },
    {
        let all = self.rest;
        if n > all.len() {
            return Err(Error::TruncatedInput);
        }
        let head = slice_subrange(all, 0, n);
        self.rest = slice_subrange(all, n, all.len());
        Ok(head)
    }

    /// Reads one byte.
    pub fn read_u8(&mut self) -> (r: Result<u8, Error>)
        ensures
            match r {
                Ok(v) => {
                    &&& 1 <= old(self).remaining().len()
                    &&& v == old(self).remaining()[0]
                    &&& final(self).remaining() == old(self).remaining().skip(1)
                },
                Err(e) => {
                    &&& e == Error::TruncatedInput
                    &&& old(self).remaining().len() < 1
                    &&& final(self).remaining() == old(self).remaining()
                },
            },
    {
        let b = self.read_exact(1)?;
        Ok(b[0])
    }

    /// Reads one signed byte.
    pub fn read_i8(&mut self) -> (r: Result<i8, Error>)
        ensures
            match r {
                Ok(v) => {
                    &&& 1 <= old(self).remaining().len()
                    &&& v == i8_of(old(self).remaining()[0])
                    &&& final(self).remaining() == old(self).remaining().skip(1)
                },
                Err(e) => {
                    &&& e == Error::TruncatedInput
                    &&& old(self).remaining().len() < 1
                    &&& final(self).remaining() == old(self).remaining()
                },
            },
    {
        let b = self.read_exact(1)?;
        Ok(get_i8(b, 0))
    }

    /// Reads a 16-bit number, lowest byte first.
    pub fn read_u16(&mut self) -> (r: Result<u16, Error>)
        ensures
            match r {
                Ok(v) => {
                    &&& 2 <= old(self).remaining().len()
                    &&& v == u16_at(old(self).remaining(), 0)
                    &&& final(self).remaining() == old(self).remaining().skip(2)
                },
                Err(e) => {
                    &&& e == Error::TruncatedInput
                    &&& old(self).remaining().len() < 2
                    &&& final(self).remaining() == old(self).remaining()
                },
            },
    {
        let b = self.read_exact(2)?;
        Ok(get_u16(b, 0))
    }

    /// Reads a 32-bit number, lowest byte first.
    pub fn read_u32(&mut self) -> (r: Result<u32, Error>)
        ensures
            match r {
                Ok(v) => {
                    &&& 4 <= old(self).remaining().len()
                    &&& v == u32_at(old(self).remaining(), 0)
                    &&& final(self).remaining() == old(self).remaining().skip(4)
                },
                Err(e) => {
                    &&& e == Error::TruncatedInput
                    &&& old(self).remaining().len() < 4
                    &&& final(self).remaining() == old(self).remaining()
                },
            },
    {
        let b = self.read_exact(4)?;
        Ok(get_u32(b, 0))
    }
}

impl<'a> ReadType for Deser<'a> {
    open spec fn unread(&self) -> Seq<u8> {
        self.remaining()
    }

    fn skip(&mut self, count: usize) -> (r: Result<(), Error>) {
        let _ = self.read_exact(count)?;
        Ok(())
    }
}

/// A writer that collects bytes.
pub struct Ser {
    data: Vec<u8>,
}

impl View for Ser {
    type V = Seq<u8>;

    closed spec fn view(&self) -> Seq<u8> {
        self.data@
    }
}

impl Ser {
    /// A writer that holds nothing.
    pub fn new() -> (r: Self)
        ensures
            r@ == Seq::<u8>::empty(),
    {
        Ser { data: Vec::new() }
    }

    /// How many bytes have been written.
    pub fn len(&self) -> (n: usize)
        ensures
            n == self@.len(),
    {
        self.data.len()
    }

    /// Writes one byte.
    pub fn write_u8(&mut self, v: u8)
        ensures
            final(self)@ == old(self)@.push(v),
    {
        self.data.push(v);
    }

    /// Writes one signed byte.
    pub fn write_i8(&mut self, v: i8)
        ensures
            final(self)@ == old(self)@.push(i8_byte(v)),
    {
        let b: u8 = if v >= 0 {
            v as u8
        } else {
            (v as i16 + 256) as u8
        };
        self.data.push(b);
    }

    /// Writes a 16-bit number, lowest byte first.
    pub fn write_u16(&mut self, v: u16)
        ensures
            final(self)@ == old(self)@ + u16_bytes(v),
    {
        self.data.push((v % 256) as u8);
        self.data.push((v / 256) as u8);
    }

    /// Writes a 32-bit number, lowest byte first.
    pub fn write_u32(&mut self, v: u32)
        ensures
            final(self)@ == old(self)@ + u32_bytes(v),
    {
        self.data.push((v % 256) as u8);
        self.data.push((v / 256 % 256) as u8);
        self.data.push((v / 65536 % 256) as u8);
        self.data.push((v / 16777216) as u8);
    }

    /// Writes the bytes of a slice.
    pub fn append(&mut self, bytes: &[u8])
        ensures
            final(self)@ == old(self)@ + bytes@,
    {
        self.data.extend_from_slice(bytes);
    }

    /// Writes zero bytes until `offset` bytes have been written in all.
    /// Fails, and writes nothing, where more have been written already.
    pub fn pad_to(&mut self, offset: usize) -> (r: Result<(), Error>)
        ensures
            match r {
                Ok(()) => old(self)@.len() <= offset && final(self)@ == old(self)@ + zeros(
                    (offset - old(self)@.len()) as nat,
                ),
                Err(e) => e == Error::PastOffset && old(self)@.len() > offset && final(self)@
                    == old(self)@,
            },
    {
        let n = self.data.len();
        if n > offset {
            return Err(Error::PastOffset);
        }
        self.pad(offset - n)
    }

    /// The bytes that have been written.
    pub fn data(self) -> (v: Vec<u8>)
        ensures
            v@ == self@,
    {
        self.data
    }
}

impl WriteType for Ser {
    open spec fn written(&self) -> Seq<u8> {
        self@
    }

    fn pad(&mut self, count: usize) -> (r: Result<(), Error>) {
        let mut i: usize = 0;
        while i < count
            invariant
                i <= count,
                self@ == old(self)@ + zeros(i as nat),
            decreases count - i,
        {
            self.data.push(0);
            i += 1;
        }
        Ok(())
    }
}

/// A value that takes a fixed number of bytes in the payload.
pub trait Record: Sized {
    /// How many bytes the value takes.
    spec fn size() -> nat;

    /// The value that the first `size()` bytes of `b` hold.
    spec fn parse(b: Seq<u8>) -> Self;

    /// The bytes that hold the value.
    spec fn encoding(self) -> Seq<u8>;

    /// How many bytes the value takes.
    fn byte_len() -> (n: usize)
        ensures
            n == Self::size(),
            n > 0,
    ;

    /// Reads the value. Fails, and reads nothing, where fewer bytes are left
    /// than the value takes.
    fn read(d: &mut Deser) -> (r: Result<Self, Error>)
        ensures
            match r {
                Ok(v) => {
                    &&& Self::size() <= old(d).remaining().len()
                    &&& v == Self::parse(old(d).remaining())
                    &&& final(d).remaining() == old(d).remaining().skip(Self::size() as int)
                },
                Err(e) => {
                    &&& e == Error::TruncatedInput
                    &&& old(d).remaining().len() < Self::size()
                    &&& final(d).remaining() == old(d).remaining()
                },
            },
    ;

    /// Writes the value.
    fn write(&self, s: &mut Ser)
        ensures
            final(s)@ == old(s)@ + self.encoding(),
    ;

    /// A value that is written and read again is the same.
    proof fn lemma_roundtrip(v: Self)
        ensures
            Self::size() > 0,
            v.encoding().len() == Self::size(),
            Self::parse(v.encoding()) == v,
    ;

    /// The bytes of a value that are read and written again are the same.
    /// What is read depends on no byte beyond the value's size.
    proof fn lemma_parse(b: Seq<u8>)
        requires
            b.len() >= Self::size(),
        ensures
            Self::parse(b).encoding() == b.take(Self::size() as int),
            Self::parse(b) == Self::parse(b.take(Self::size() as int)),
    ;
}

/// The bytes of a sequence of values, one after the other.
pub open spec fn records_bytes<T: Record>(s: Seq<T>) -> Seq<u8>
    decreases s.len(),
{
    if s.len() == 0 {
        Seq::empty()
    } else {
        records_bytes(s.drop_last()) + s.last().encoding()
    }
}

/// The `n` values that stand one after the other at the start of `b`.
pub open spec fn parse_records<T: Record>(b: Seq<u8>, n: nat) -> Seq<T> {
    Seq::new(n, |i: int| T::parse(b.skip(i * T::size())))
}

/// The bytes of `n` values are `n` times the bytes of one.
pub proof fn lemma_records_len<T: Record>(s: Seq<T>)
    ensures
        records_bytes(s).len() == s.len() * T::size(),
    decreases s.len(),
{
    if s.len() > 0 {
        lemma_records_len(s.drop_last());
        T::lemma_roundtrip(s.last());
        assert((s.len() - 1) * T::size() + T::size() == s.len() * T::size())
            by (nonlinear_arith);
    } else {
        assert(0 * T::size() == 0) by (nonlinear_arith);
    }
}

/// Values that are written one after the other are read again as they were,
/// whatever follows them.
pub proof fn lemma_parse_records_bytes<T: Record>(s: Seq<T>, rest: Seq<u8>)
    ensures
        parse_records::<T>(records_bytes(s) + rest, s.len()) == s,
    decreases s.len(),
{
    let all = records_bytes(s) + rest;
    if s.len() > 0 {
        let front = s.drop_last();
        let last = s.last();
        let tail = last.encoding() + rest;
        lemma_records_len(front);
        lemma_parse_records_bytes(front, tail);
        assert(records_bytes(front) + tail =~= all);
        let at = (s.len() - 1) * T::size();
        assert(all.skip(at) =~= tail);
        T::lemma_roundtrip(last);
        T::lemma_parse(tail);
        assert(tail.take(T::size() as int) =~= last.encoding());
        assert forall|i: int| 0 <= i < s.len() implies parse_records::<T>(all, s.len())[i]
            == s[i] by {
            if i < s.len() - 1 {
                assert(parse_records::<T>(all, front.len())[i] == front[i]);
            }
        }
    }
}

/// Values that are read one after the other are written again as the bytes
/// that they were read from.
pub proof fn lemma_records_bytes_parse<T: Record>(b: Seq<u8>, n: nat)
    requires
        b.len() >= n * T::size(),
    ensures
        records_bytes(parse_records::<T>(b, n)) == b.take((n * T::size()) as int),
    decreases n,
{
    let s = parse_records::<T>(b, n);
    if n == 0 {
        assert(0 * T::size() == 0) by (nonlinear_arith);
    } else {
        let m = (n - 1) as nat;
        assert(m * T::size() + T::size() == n * T::size()) by (nonlinear_arith)
            requires
                m == n - 1,
        ;
        assert(m * T::size() >= 0) by (nonlinear_arith);
        lemma_records_bytes_parse::<T>(b, m);
        assert(s.drop_last() =~= parse_records::<T>(b, m));
        let from = b.skip((m * T::size()) as int);
        T::lemma_parse(from);
        assert(b.take((m * T::size()) as int) + from.take(T::size() as int) =~= b.take(
            (n * T::size()) as int,
        ));
    }
}

/// Reads `n` values. Fails, and reads nothing, where fewer bytes are left than
/// the values take.
pub fn read_records<T: Record>(d: &mut Deser, n: usize) -> (r: Result<Vec<T>, Error>)
    ensures
        match r {
            Ok(v) => {
                &&& n * T::size() <= old(d).remaining().len()
                &&& v@ == parse_records::<T>(old(d).remaining(), n as nat)
                &&& final(d).remaining() == old(d).remaining().skip(n * T::size())
            },
            Err(e) => {
                &&& e == Error::TruncatedInput
                &&& old(d).remaining().len() < n * T::size()
                &&& final(d).remaining() == old(d).remaining()
            },
        },
{
    let size = T::byte_len();
    let ghost orig = d.remaining();
    let left = d.len();
    match n.checked_mul(size) {
        Some(total) => {
            if total > left {
                return Err(Error::TruncatedInput);
            }
        },
        None => {
            return Err(Error::TruncatedInput);
        },
    }
    let mut v: Vec<T> = Vec::new();
    let mut i: usize = 0;
    assert(0 * T::size() == 0) by (nonlinear_arith);
    while i < n
        invariant
            i <= n,
            size == T::size(),
            n * T::size() <= orig.len(),
            v@ =~= parse_records::<T>(orig, i as nat),
            d.remaining() == orig.skip(i * T::size()),
        decreases n - i,
    {
        proof {
            assert(i * T::size() + T::size() == (i + 1) * T::size()) by (nonlinear_arith);
            assert((i + 1) * T::size() <= n * T::size()) by (nonlinear_arith)
                requires
                    i + 1 <= n,
            ;
            assert(i * T::size() >= 0) by (nonlinear_arith);
        }
        match T::read(d) {
            Ok(x) => {
                v.push(x);
            },
            Err(e) => {
                return Err(e);
            },
        }
        i += 1;
    }
    Ok(v)
}

/// Writes the values of a slice, one after the other.
pub fn write_records<T: Record>(v: &[T], s: &mut Ser)
    ensures
        final(s)@ == old(s)@ + records_bytes(v@),
{
    let n = v.len();
    let mut i: usize = 0;
    while i < n
        invariant
            i <= n,
            n == v@.len(),
            s@ == old(s)@ + records_bytes(v@.take(i as int)),
        decreases n - i,
    {
        v[i].write(s);
        i += 1;
        proof {
            let now = v@.take(i as int);
            assert(now.drop_last() =~= v@.take(i - 1));
        }
    }
    assert(v@.take(n as int) =~= v@);
}

} // verus!
