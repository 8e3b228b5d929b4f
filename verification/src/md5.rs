//! The checksum of a blueprint string.
//!
//! The game signs its blueprints with a digest that follows the MD5 algorithm
//! step by step but starts from another state and uses a few other round
//! constants. This module holds the textbook algorithm and the two variants,
//! selected by [`Algo`].
//!
//! The digest is defined here as a mathematical function, [`digest`], over a
//! sequence of bytes. [`MD5::process`] is proved to compute it.

use vstd::prelude::*;

verus! {

/// Which set of constants the digest uses.
#[derive(Clone, Copy, PartialEq, Eq, Structural, Debug)]
pub enum Algo {
    /// The textbook algorithm.
    MD5,
    /// The variant that signs blueprint strings.
    MD5F,
    /// A further variant of the game, with two more constants changed.
    MD5FC,
}

/// A digest: sixteen bytes.
pub type MD5Hash = [u8; 16];

/// The four words that the algorithm carries from block to block.
pub struct State {
    pub a: u32,
    pub b: u32,
    pub c: u32,
    pub d: u32,
}

/// The round constants of the textbook algorithm.
pub open spec fn standard_constants() -> Seq<u32> {
    seq![
        0xd76aa478u32, 0xe8c7b756u32, 0x242070dbu32, 0xc1bdceeeu32,
        0xf57c0fafu32, 0x4787c62au32, 0xa8304613u32, 0xfd469501u32,
        0x698098d8u32, 0x8b44f7afu32, 0xffff5bb1u32, 0x895cd7beu32,
        0x6b901122u32, 0xfd987193u32, 0xa679438eu32, 0x49b40821u32,
        0xf61e2562u32, 0xc040b340u32, 0x265e5a51u32, 0xe9b6c7aau32,
        0xd62f105du32, 0x02441453u32, 0xd8a1e681u32, 0xe7d3fbc8u32,
        0x21e1cde6u32, 0xc33707d6u32, 0xf4d50d87u32, 0x455a14edu32,
        0xa9e3e905u32, 0xfcefa3f8u32, 0x676f02d9u32, 0x8d2a4c8au32,
        0xfffa3942u32, 0x8771f681u32, 0x6d9d6122u32, 0xfde5380cu32,
        0xa4beea44u32, 0x4bdecfa9u32, 0xf6bb4b60u32, 0xbebfbc70u32,
        0x289b7ec6u32, 0xeaa127fau32, 0xd4ef3085u32, 0x04881d05u32,
        0xd9d4d039u32, 0xe6db99e5u32, 0x1fa27cf8u32, 0xc4ac5665u32,
        0xf4292244u32, 0x432aff97u32, 0xab9423a7u32, 0xfc93a039u32,
        0x655b59c3u32, 0x8f0ccc92u32, 0xffeff47du32, 0x85845dd1u32,
        0x6fa87e4fu32, 0xfe2ce6e0u32, 0xa3014314u32, 0x4e0811a1u32,
        0xf7537e82u32, 0xbd3af235u32, 0x2ad7d2bbu32, 0xeb86d391u32,
    ]
}

/// The constant of round `i` that the two variants put in place of the
/// textbook one, where they do so.
pub open spec fn patched_constant(algo: Algo, i: int) -> Option<u32> {
    match algo {
        Algo::MD5 => None,
        Algo::MD5F => if i == 1 {
            Some(0xe8d7b756u32)
        } else if i == 6 {
            Some(0xa8304623u32)
        } else if i == 12 {
            Some(0x6b9f1122u32)
        } else if i == 15 {
            Some(0x39b40821u32)
        } else if i == 19 {
            Some(0xc9b6c7aau32)
        } else if i == 21 {
            Some(0x02443453u32)
        } else if i == 24 {
            Some(0x21f1cde6u32)
        } else if i == 27 {
            Some(0x475a14edu32)
        } else {
            None
        },
        Algo::MD5FC => if i == 1 {
            Some(0xe8d7b756u32)
        } else if i == 3 {
            Some(0xc1bdceefu32)
        } else if i == 6 {
            Some(0xa8304623u32)
        } else if i == 12 {
            Some(0x6b9f1122u32)
        } else if i == 15 {
            Some(0x39b40821u32)
        } else if i == 19 {
            Some(0xc9b6c7aau32)
        } else if i == 21 {
            Some(0x02443453u32)
        } else if i == 24 {
            Some(0x23f1cde6u32)
        } else if i == 27 {
            Some(0x475a14edu32)
        } else if i == 34 {
            Some(0x6d9d6121u32)
        } else {
            None
        },
    }
}

/// The constant that is added in round `i`.
pub open spec fn round_constant(algo: Algo, i: int) -> u32 {
    match patched_constant(algo, i) {
        Some(k) => k,
        None => standard_constants()[i],
    }
}

/// By how many bits round `i` rotates.
pub open spec fn shift_amount(i: int) -> u32 {
    let r = i % 4;
    if i < 16 {
        if r == 0 { 7 } else if r == 1 { 12 } else if r == 2 { 17 } else { 22 }
    } else if i < 32 {
        if r == 0 { 5 } else if r == 1 { 9 } else if r == 2 { 14 } else { 20 }
    } else if i < 48 {
        if r == 0 { 4 } else if r == 1 { 11 } else if r == 2 { 16 } else { 23 }
    } else {
        if r == 0 { 6 } else if r == 1 { 10 } else if r == 2 { 15 } else { 21 }
    }
}

/// The state that the first block starts from.
pub open spec fn initial_state(algo: Algo) -> State {
    match algo {
        Algo::MD5 => State { a: 0x67452301, b: 0xefcdab89, c: 0x98badcfe, d: 0x10325476 },
        _ => State { a: 0x67452301, b: 0xefdcab89, c: 0x98badcfe, d: 0x10325746 },
    }
}

/// `x` rotated to the left by `s` bits, for `0 < s < 32`.
pub open spec fn rotate_left(x: u32, s: u32) -> u32 {
    (x << s) | (x >> ((32 - s) as u32))
}

/// The bitwise function that round `i` applies to three of the state's words.
pub open spec fn mix(i: int, b: u32, c: u32, d: u32) -> u32 {
    if i < 16 {
        (b & c) | (!b & d)
    } else if i < 32 {
        (d & b) | (!d & c)
    } else if i < 48 {
        b ^ c ^ d
    } else {
        c ^ (b | !d)
    }
}

/// Which word of the block round `i` adds.
pub open spec fn word_index(i: int) -> int {
    if i < 16 {
        i
    } else if i < 32 {
        (5 * i + 1) % 16
    } else if i < 48 {
        (3 * i + 5) % 16
    } else {
        (7 * i) % 16
    }
}

/// The state after round `i`, which starts from `st`.
pub open spec fn step(algo: Algo, st: State, words: Seq<u32>, i: int) -> State {
    let f = mix(i, st.b, st.c, st.d).wrapping_add(st.a).wrapping_add(
        round_constant(algo, i),
    ).wrapping_add(words[word_index(i)]);
    State {
        a: st.d,
        b: st.b.wrapping_add(rotate_left(f, shift_amount(i))),
        c: st.b,
        d: st.c,
    }
}

/// The state after the first `n` rounds, which start from `st`.
pub open spec fn rounds(algo: Algo, st: State, words: Seq<u32>, n: nat) -> State
    decreases n,
{
    if n == 0 {
        st
    } else {
        step(algo, rounds(algo, st, words, (n - 1) as nat), words, n - 1)
    }
}

/// The word that the four bytes from `at` on hold, lowest byte first.
pub open spec fn le_word(b: Seq<u8>, at: int) -> u32 {
    (b[at] as u32) | ((b[at + 1] as u32) << 8) | ((b[at + 2] as u32) << 16) | ((b[at + 3] as u32)
        << 24)
}

/// The sixteen words of a block of 64 bytes.
pub open spec fn block_words(block: Seq<u8>) -> Seq<u32> {
    Seq::new(16, |j: int| le_word(block, 4 * j))
}

/// The state after one block of 64 bytes.
#[verifier::opaque]
pub open spec fn compress(algo: Algo, st: State, block: Seq<u8>) -> State {
    let r = rounds(algo, st, block_words(block), 64);
    State {
        a: st.a.wrapping_add(r.a),
        b: st.b.wrapping_add(r.b),
        c: st.c.wrapping_add(r.c),
        d: st.d.wrapping_add(r.d),
    }
}

/// The state after every whole block of `bytes`, taken from the front.
pub open spec fn absorb(algo: Algo, st: State, bytes: Seq<u8>) -> State
    decreases bytes.len(),
{
    if bytes.len() < 64 {
        st
    } else {
        absorb(
            algo,
            compress(algo, st, bytes.subrange(0, 64)),
            bytes.subrange(64, bytes.len() as int),
        )
    }
}

/// How many zero bytes follow the marker byte, so that the message, the marker
/// and the zeros together leave room for exactly the eight length bytes.
pub open spec fn zero_count(len: nat) -> nat {
    ((119 - len % 64) % 64) as nat
}

/// The message's length in bits, modulo 2^64, as eight bytes, lowest first.
pub open spec fn length_bytes(len: nat) -> Seq<u8> {
    let bits = (len as u64).wrapping_mul(8);
    Seq::new(8, |i: int| ((bits >> ((8 * i) as u64)) & 0xff) as u8)
}

/// What is appended to a message of `len` bytes before it is cut into blocks.
pub open spec fn padding(len: nat) -> Seq<u8> {
    seq![0x80u8] + Seq::new(zero_count(len), |i: int| 0u8) + length_bytes(len)
}

/// The four bytes of a word, lowest first.
pub open spec fn word_bytes(w: u32) -> Seq<u8> {
    seq![
        (w & 0xff) as u8,
        ((w >> 8) & 0xff) as u8,
        ((w >> 16) & 0xff) as u8,
        ((w >> 24) & 0xff) as u8,
    ]
}

/// The sixteen bytes of a state.
pub open spec fn state_bytes(st: State) -> Seq<u8> {
    word_bytes(st.a) + word_bytes(st.b) + word_bytes(st.c) + word_bytes(st.d)
}

/// The state that a message leaves when it is absorbed from `st`.
pub open spec fn absorb_message(algo: Algo, st: State, msg: Seq<u8>) -> State {
    absorb(algo, st, msg + padding(msg.len()))
}

/// The digest of a message.
pub open spec fn digest(algo: Algo, msg: Seq<u8>) -> Seq<u8> {
    state_bytes(absorb_message(algo, initial_state(algo), msg))
}

/// A digest has sixteen bytes.
pub proof fn lemma_digest_len(algo: Algo, msg: Seq<u8>)
    ensures
        digest(algo, msg).len() == 16,
{
}

/// The running state of one digest computation.
pub struct MD5 {
    s: [u32; 4],
    algo: Algo,
}

impl MD5 {
    /// The four words that the computation holds.
    pub closed spec fn state(&self) -> State {
        State { a: self.s[0], b: self.s[1], c: self.s[2], d: self.s[3] }
    }

    /// The variant that the computation follows.
    pub closed spec fn algo(&self) -> Algo {
        self.algo
    }

    /// A computation that has absorbed nothing yet.
    pub fn new(algo: Algo) -> (r: Self)
        ensures
            r.state() == initial_state(algo),
            r.algo() == algo,
    {
        let s: [u32; 4] = match algo {
            Algo::MD5 => [0x67452301, 0xefcdab89, 0x98badcfe, 0x10325476],
            _ => [0x67452301, 0xefdcab89, 0x98badcfe, 0x10325746],
        };
        Self { s, algo }
    }

    fn standard_k(i: usize) -> (r: u32)
        requires
            i < 64,
        ensures
            r == standard_constants()[i as int],
    {
        let table: [u32; 64] = [
            0xd76aa478, 0xe8c7b756, 0x242070db, 0xc1bdceee,
            0xf57c0faf, 0x4787c62a, 0xa8304613, 0xfd469501,
            0x698098d8, 0x8b44f7af, 0xffff5bb1, 0x895cd7be,
            0x6b901122, 0xfd987193, 0xa679438e, 0x49b40821,
            0xf61e2562, 0xc040b340, 0x265e5a51, 0xe9b6c7aa,
            0xd62f105d, 0x02441453, 0xd8a1e681, 0xe7d3fbc8,
            0x21e1cde6, 0xc33707d6, 0xf4d50d87, 0x455a14ed,
            0xa9e3e905, 0xfcefa3f8, 0x676f02d9, 0x8d2a4c8a,
            0xfffa3942, 0x8771f681, 0x6d9d6122, 0xfde5380c,
            0xa4beea44, 0x4bdecfa9, 0xf6bb4b60, 0xbebfbc70,
            0x289b7ec6, 0xeaa127fa, 0xd4ef3085, 0x04881d05,
            0xd9d4d039, 0xe6db99e5, 0x1fa27cf8, 0xc4ac5665,
            0xf4292244, 0x432aff97, 0xab9423a7, 0xfc93a039,
            0x655b59c3, 0x8f0ccc92, 0xffeff47d, 0x85845dd1,
            0x6fa87e4f, 0xfe2ce6e0, 0xa3014314, 0x4e0811a1,
            0xf7537e82, 0xbd3af235, 0x2ad7d2bb, 0xeb86d391,
        ];
        table[i]
    }

    /// The constant of round `i`.
    fn k(&self, i: usize) -> (r: u32)
        requires
            i < 64,
        ensures
            r == round_constant(self.algo(), i as int),
    {
        match self.algo {
            Algo::MD5 => Self::standard_k(i),
            Algo::MD5F => match i {
                1 => 0xe8d7b756,
                6 => 0xa8304623,
                12 => 0x6b9f1122,
                15 => 0x39b40821,
                19 => 0xc9b6c7aa,
                21 => 0x02443453,
                24 => 0x21f1cde6,
                27 => 0x475a14ed,
                _ => Self::standard_k(i),
            },
            Algo::MD5FC => match i {
                1 => 0xe8d7b756,
                3 => 0xc1bdceef,
                6 => 0xa8304623,
                12 => 0x6b9f1122,
                15 => 0x39b40821,
                19 => 0xc9b6c7aa,
                21 => 0x02443453,
                24 => 0x23f1cde6,
                27 => 0x475a14ed,
                34 => 0x6d9d6121,
                _ => Self::standard_k(i),
            },
        }
    }

    fn shift(i: usize) -> (r: u32)
        requires
            i < 64,
        ensures
            r == shift_amount(i as int),
            0 < r < 32,
    {
        let r: usize = i % 4;
        if i < 16 {
            if r == 0 { 7 } else if r == 1 { 12 } else if r == 2 { 17 } else { 22 }
        } else if i < 32 {
            if r == 0 { 5 } else if r == 1 { 9 } else if r == 2 { 14 } else { 20 }
        } else if i < 48 {
            if r == 0 { 4 } else if r == 1 { 11 } else if r == 2 { 16 } else { 23 }
        } else {
            if r == 0 { 6 } else if r == 1 { 10 } else if r == 2 { 15 } else { 21 }
        }
    }

    fn word_at(buf: &[u8], at: usize) -> (r: u32)
        requires
            at + 4 <= buf.len(),
        ensures
            r == le_word(buf@, at as int),
    {
        (buf[at] as u32) | ((buf[at + 1] as u32) << 8) | ((buf[at + 2] as u32) << 16) | ((buf[at
            + 3] as u32) << 24)
    }

    /// Absorbs the block of 64 bytes that starts at `from`.
    fn update_block(&mut self, buf: &[u8], from: usize)
        requires
            from + 64 <= buf.len(),
        ensures
            final(self).state() == compress(
                old(self).algo(),
                old(self).state(),
                buf@.subrange(from as int, from + 64),
            ),
            final(self).algo() == old(self).algo(),
    {
        reveal(compress);
        let ghost block = buf@.subrange(from as int, from + 64);
        let ghost start = self.state();
        let mut words: Vec<u32> = Vec::new();
        let mut j: usize = 0;
        while j < 16
            invariant
                j <= 16,
                from + 64 <= buf.len(),
                block == buf@.subrange(from as int, from + 64),
                words@.len() == j,
                forall|n: int| 0 <= n < j ==> words@[n] == le_word(block, 4 * n),
            decreases 16 - j,
        {
            let w = Self::word_at(buf, from + 4 * j);
            words.push(w);
            j += 1;
        }
        let mut a: u32 = self.s[0];
        let mut b: u32 = self.s[1];
        let mut c: u32 = self.s[2];
        let mut d: u32 = self.s[3];
        let mut i: usize = 0;
        while i < 64
            invariant
                i <= 64,
                words@ == block_words(block),
                (State { a, b, c, d }) == rounds(self.algo(), start, words@, i as nat),
            decreases 64 - i,
        {
            let mut f: u32;
            let g: usize;
            if i < 16 {
                f = (b & c) | (!b & d);
                g = i;
            } else if i < 32 {
                f = (d & b) | (!d & c);
                g = (5 * i + 1) % 16;
            } else if i < 48 {
                f = b ^ c ^ d;
                g = (3 * i + 5) % 16;
            } else {
                f = c ^ (b | !d);
                g = (7 * i) % 16;
            }
            f = f.wrapping_add(a).wrapping_add(self.k(i)).wrapping_add(words[g]);
            let s = Self::shift(i);
            let rot = (f << s) | (f >> (32 - s));
            a = d;
            d = c;
            c = b;
            b = b.wrapping_add(rot);
            i += 1;
        }
        self.s = [
            self.s[0].wrapping_add(a),
            self.s[1].wrapping_add(b),
            self.s[2].wrapping_add(c),
            self.s[3].wrapping_add(d),
        ];
    }

    fn push_word(out: &mut Vec<u8>, w: u32)
        ensures
            final(out)@ == old(out)@ + word_bytes(w),
    {
        assert(w & 0xff < 256 && (w >> 8) & 0xff < 256 && (w >> 16) & 0xff < 256 && (w >> 24)
            & 0xff < 256) by (bit_vector);
        out.push((w & 0xff) as u8);
        out.push(((w >> 8) & 0xff) as u8);
        out.push(((w >> 16) & 0xff) as u8);
        out.push(((w >> 24) & 0xff) as u8);
    }

    /// Absorbs every whole block of `buf`, from the front.
    fn absorb_blocks(&mut self, buf: &[u8])
        ensures
            final(self).algo() == old(self).algo(),
            final(self).state() == absorb(old(self).algo(), old(self).state(), buf@),
    {
        let n = buf.len();
        let ghost start = self.state();
        let ghost algo = self.algo();
        let mut from: usize = 0;
        assert(buf@.subrange(0, n as int) =~= buf@);
        while n - from >= 64
            invariant
                from <= n,
                n == buf.len(),
                self.algo() == algo,
                absorb(algo, start, buf@) == absorb(
                    algo,
                    self.state(),
                    buf@.subrange(from as int, n as int),
                ),
            decreases n - from,
        {
            proof {
                let rest = buf@.subrange(from as int, n as int);
                assert(rest.subrange(0, 64) =~= buf@.subrange(from as int, from + 64));
                assert(rest.subrange(64, rest.len() as int) =~= buf@.subrange(from + 64, n as int));
            }
            self.update_block(buf, from);
            from += 64;
        }
    }

    /// The bytes of `data` that follow its last whole block, with the padding.
    fn padded_tail(data: &[u8]) -> (last: Vec<u8>)
        ensures
            last@ == data@.subrange(data@.len() - data@.len() % 64, data@.len() as int) + padding(
                data@.len(),
            ),
            last@.len() % 64 == 0,
    {
        let n = data.len();
        let from: usize = n - n % 64;
        let mut last: Vec<u8> = Vec::new();
        let mut i: usize = from;
        while i < n
            invariant
                from <= i <= n,
                n == data.len(),
                last@ == data@.subrange(from as int, i as int),
            decreases n - i,
        {
            last.push(data[i]);
            i += 1;
        }
        let ghost tail = last@;
        last.push(0x80);
        while last.len() % 64 != 56
            invariant
                tail.len() == n % 64,
                tail.len() + 1 <= last@.len() <= tail.len() + 1 + zero_count(n as nat),
                last@ =~= tail + seq![0x80u8] + Seq::new(
                    (last@.len() - tail.len() - 1) as nat,
                    |i: int| 0u8,
                ),
            decreases tail.len() + 1 + zero_count(n as nat) - last@.len(),
        {
            last.push(0);
        }
        let bits: u64 = (n as u64).wrapping_mul(8);
        let mut t: usize = 0;
        let ghost before = last@;
        while t < 8
            invariant
                t <= 8,
                last@ =~= before + Seq::new(
                    t as nat,
                    |i: int| ((bits >> ((8 * i) as u64)) & 0xff) as u8,
                ),
            decreases 8 - t,
        {
            let sh: u64 = (8 * t) as u64;
            let v: u64 = (bits >> sh) & 0xff;
            assert((bits >> sh) & 0xff < 256) by (bit_vector);
            last.push(v as u8);
            t += 1;
        }
        last
    }

    /// The state as sixteen bytes.
    fn output(&self) -> (out: MD5Hash)
        ensures
            out@ == state_bytes(self.state()),
    {
        let mut bytes: Vec<u8> = Vec::new();
        Self::push_word(&mut bytes, self.s[0]);
        Self::push_word(&mut bytes, self.s[1]);
        Self::push_word(&mut bytes, self.s[2]);
        Self::push_word(&mut bytes, self.s[3]);
        let out: MD5Hash = [
            bytes[0], bytes[1], bytes[2], bytes[3],
            bytes[4], bytes[5], bytes[6], bytes[7],
            bytes[8], bytes[9], bytes[10], bytes[11],
            bytes[12], bytes[13], bytes[14], bytes[15],
        ];
        out
    }

    /// Absorbs a message and returns the digest.
    ///
    /// The computation goes on from the state that it holds: after
    /// [`MD5::new`] the result is the digest of `data`.
    pub fn process(&mut self, data: &[u8]) -> (out: MD5Hash)
        ensures
            final(self).algo() == old(self).algo(),
            final(self).state() == absorb_message(old(self).algo(), old(self).state(), data@),
            out@ == state_bytes(final(self).state()),
            old(self).state() == initial_state(old(self).algo()) ==> out@ == digest(
                old(self).algo(),
                data@,
            ),
    {
        proof {
            lemma_absorb_split(self.algo(), self.state(), data@, padding(data@.len()));
        }
        self.absorb_blocks(data);
        let last = Self::padded_tail(data);
        self.absorb_blocks(last.as_slice());
        self.output()
    }
}

/// Absorbing a message that is made of two parts is absorbing the whole blocks
/// of the first part, and then what is left of it together with the second.
pub proof fn lemma_absorb_split(algo: Algo, st: State, x: Seq<u8>, y: Seq<u8>)
    ensures
        absorb(algo, st, x + y) == absorb(
            algo,
            absorb(algo, st, x),
            x.subrange(x.len() - x.len() % 64, x.len() as int) + y,
        ),
    decreases x.len(),
{
    if x.len() < 64 {
        assert(x.subrange(0, x.len() as int) =~= x);
    } else {
        let rest = x.subrange(64, x.len() as int);
        assert((x + y).subrange(0, 64) =~= x.subrange(0, 64));
        assert((x + y).subrange(64, (x + y).len() as int) =~= rest + y);
        lemma_absorb_split(algo, compress(algo, st, x.subrange(0, 64)), rest, y);
        assert(rest.subrange(rest.len() - rest.len() % 64, rest.len() as int) =~= x.subrange(
            x.len() - x.len() % 64,
            x.len() as int,
        ));
    }
}

} // verus!
