//! Sequences of 32-bit words as bytes, lowest byte first.

use crate::error::Error;
use crate::serialize::{
    Deser, lemma_u32_placed, lemma_u32_roundtrip, parse_records, read_records, Record,
    records_bytes, Ser, u32_at, u32_bytes, write_records,
};
use vstd::prelude::*;

verus! {

impl Record for u32 {
    open spec fn size() -> nat {
        4
    }

    open spec fn parse(b: Seq<u8>) -> Self {
        u32_at(b, 0)
    }

    open spec fn encoding(self) -> Seq<u8> {
        u32_bytes(self)
    }

    fn byte_len() -> (n: usize) {
        4
    }

    fn read(d: &mut Deser) -> (r: Result<Self, Error>) {
        d.read_u32()
    }

    fn write(&self, s: &mut Ser) {
        s.write_u32(*self);
    }

    proof fn lemma_roundtrip(v: Self) {
        lemma_u32_placed(v.encoding(), 0, v);
    }

    proof fn lemma_parse(b: Seq<u8>) {
        lemma_u32_roundtrip(0, b, 0);
        assert(b.subrange(0, 4) =~= b.take(4));
    }
}

/// The words that a sequence of bytes holds, four bytes to a word.
pub fn to32le(v: &[u8]) -> (r: Vec<u32>)
    requires
        v.len() % 4 == 0,
    ensures
        r@ == parse_records::<u32>(v@, (v.len() / 4) as nat),
{
    let mut d = Deser::new(v);
    match read_records::<u32>(&mut d, v.len() / 4) {
        Ok(words) => words,
        Err(_) => Vec::new(),
    }
}

/// The bytes that hold a sequence of words.
pub fn from32le(v: &[u32]) -> (r: Vec<u8>)
    ensures
        r@ == records_bytes(v@),
{
    let mut s = Ser::new();
    write_records(v, &mut s);
    s.data()
}

} // verus!
