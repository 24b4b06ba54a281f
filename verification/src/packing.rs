//! Bytes laid out in 32-bit words.
//!
//! The payload of a string or an array travels as whole words: byte `i`
//! of the payload is byte `i % 4` of word `i / 4`, counted from the least
//! significant end (the layout of a little-endian host), and the bytes
//! after the payload up to the end of its last word are zero.

use vstd::prelude::*;

verus! {

/// The number of words that hold `n` bytes.
pub open spec fn spec_pad(n: int) -> int {
    (n + 3) / 4
}

/// Byte `k` (0 to 3) of `word`, counted from the least significant end.
pub open spec fn byte_of(word: u32, k: u32) -> u8 {
    ((word >> (8 * k)) & 0xff) as u8
}

/// The word made of four bytes, `b0` the least significant.
pub open spec fn pack4(b0: u8, b1: u8, b2: u8, b3: u8) -> u32 {
    (b0 as u32) | ((b1 as u32) << 8u32) | ((b2 as u32) << 16u32) | ((b3 as u32) << 24u32)
}

/// Byte `i` of `data`, and zero past its end.
pub open spec fn byte_at(data: Seq<u8>, i: int) -> u8 {
    if 0 <= i < data.len() {
        data[i]
    } else {
        0
    }
}

/// The first `nwords` words that hold `data`, padded with zero bytes.
pub open spec fn pack_words(data: Seq<u8>, nwords: nat) -> Seq<u32> {
    Seq::new(
        nwords,
        |w: int|
            pack4(
                byte_at(data, 4 * w),
                byte_at(data, 4 * w + 1),
                byte_at(data, 4 * w + 2),
                byte_at(data, 4 * w + 3),
            ),
    )
}

/// The words that hold `data`, padded with zero bytes.
pub open spec fn pack_bytes(data: Seq<u8>) -> Seq<u32> {
    pack_words(data, spec_pad(data.len() as int) as nat)
}

/// Packing bytes followed by a zero byte is packing the bytes alone.
pub proof fn lemma_pack_trailing_zero(data: Seq<u8>)
    ensures
        pack_bytes(data.push(0u8)) == pack_words(data, spec_pad(data.len() + 1int) as nat),
{
    let d2 = data.push(0u8);
    assert forall|i: int| #[trigger] byte_at(d2, i) == byte_at(data, i) by {}
    assert(pack_bytes(d2) =~= pack_words(data, spec_pad(data.len() + 1int) as nat));
}

/// The first `n` bytes held in `words`.
pub open spec fn unpack_words(words: Seq<u32>, n: int) -> Seq<u8> {
    Seq::new(n as nat, |i: int| byte_of(words[i / 4], (i % 4) as u32))
}

/// The number of words needed to store `size` bytes.
pub fn pad(size: usize) -> (r: usize)
    ensures
        r == spec_pad(size as int),
{
    size / 4 + if size % 4 == 0 {
        0
    } else {
        1
    }
}

proof fn lemma_byte_of_pack4(b0: u8, b1: u8, b2: u8, b3: u8)
    ensures
        byte_of(pack4(b0, b1, b2, b3), 0) == b0,
        byte_of(pack4(b0, b1, b2, b3), 1) == b1,
        byte_of(pack4(b0, b1, b2, b3), 2) == b2,
        byte_of(pack4(b0, b1, b2, b3), 3) == b3,
{
    assert(((((b0 as u32) | ((b1 as u32) << 8u32) | ((b2 as u32) << 16u32) | ((b3 as u32)
        << 24u32)) >> 0u32) & 0xff) as u8 == b0) by (bit_vector);
    assert(((((b0 as u32) | ((b1 as u32) << 8u32) | ((b2 as u32) << 16u32) | ((b3 as u32)
        << 24u32)) >> 8u32) & 0xff) as u8 == b1) by (bit_vector);
    assert(((((b0 as u32) | ((b1 as u32) << 8u32) | ((b2 as u32) << 16u32) | ((b3 as u32)
        << 24u32)) >> 16u32) & 0xff) as u8 == b2) by (bit_vector);
    assert(((((b0 as u32) | ((b1 as u32) << 8u32) | ((b2 as u32) << 16u32) | ((b3 as u32)
        << 24u32)) >> 24u32) & 0xff) as u8 == b3) by (bit_vector);
}

/// Unpacking the packed words of `data`, followed by anything, gives
/// `data` back.
pub proof fn lemma_unpack_pack(data: Seq<u8>, rest: Seq<u32>)
    ensures
        unpack_words(pack_bytes(data) + rest, data.len() as int) == data,
{
    let words = pack_bytes(data) + rest;
    let n = data.len() as int;
    assert forall|i: int| 0 <= i < n implies #[trigger] unpack_words(words, n)[i] == data[i] by {
        let w = i / 4;
        assert(0 <= w < spec_pad(n));
        assert(words[w] == pack_bytes(data)[w]);
        lemma_byte_of_pack4(
            byte_at(data, 4 * w),
            byte_at(data, 4 * w + 1),
            byte_at(data, 4 * w + 2),
            byte_at(data, 4 * w + 3),
        );
        assert(i == 4 * w + i % 4);
    }
    assert(unpack_words(words, n) =~= data);
}

/// Only the words that hold the first `n` bytes matter to unpacking.
pub proof fn lemma_unpack_prefix(words: Seq<u32>, more: Seq<u32>, n: int)
    requires
        0 <= n,
        spec_pad(n) <= words.len(),
    ensures
        unpack_words(words + more, n) == unpack_words(words, n),
{
    assert forall|i: int| 0 <= i < n implies #[trigger] unpack_words(words + more, n)[i]
        == unpack_words(words, n)[i] by {
        assert(i / 4 < spec_pad(n));
    }
    assert(unpack_words(words + more, n) =~= unpack_words(words, n));
}

/// The word that holds bytes `4 * w` to `4 * w + 3` of `data`.
pub fn pack_word(data: &[u8], w: usize) -> (r: u32)
    requires
        4 * w + 3 <= usize::MAX,
    ensures
        r == pack4(
            byte_at(data@, 4 * w),
            byte_at(data@, 4 * w + 1),
            byte_at(data@, 4 * w + 2),
            byte_at(data@, 4 * w + 3),
        ),
{
    let n = data.len();
    let i = 4 * w;
    let b0: u8 = if i < n {
        data[i]
    } else {
        0
    };
    let b1: u8 = if i + 1 < n {
        data[i + 1]
    } else {
        0
    };
    let b2: u8 = if i + 2 < n {
        data[i + 2]
    } else {
        0
    };
    let b3: u8 = if i + 3 < n {
        data[i + 3]
    } else {
        0
    };
    (b0 as u32) | ((b1 as u32) << 8u32) | ((b2 as u32) << 16u32) | ((b3 as u32) << 24u32)
}

/// Byte `i` of the bytes that `words` hold.
pub fn unpack_byte(words: &[u32], i: usize) -> (r: u8)
    requires
        i / 4 < words@.len(),
    ensures
        r == byte_of(words@[(i / 4) as int], (i % 4) as u32),
{
    let k: u32 = (i % 4) as u32;
    ((words[i / 4] >> (8 * k)) & 0xff) as u8
}

/// Fill `dest` with the words that hold `data`, padded with zero bytes.
pub fn pack_into(dest: &mut [u32], data: &[u8])
    requires
        4 * old(dest)@.len() <= usize::MAX,
    ensures
        final(dest)@ == pack_words(data@, old(dest)@.len()),
{
    let words = dest.len();
    let mut w: usize = 0;
    while w < words
        invariant
            words == dest@.len(),
            4 * words <= usize::MAX,
            w <= words,
            forall|j: int| 0 <= j < w ==> dest@[j] == pack_words(data@, words as nat)[j],
        decreases words - w,
    {
        let word = pack_word(data, w);
        dest[w] = word;
        w = w + 1;
    }
    assert(dest@ =~= pack_words(data@, words as nat));
}

/// The first `n` bytes held in `words`.
pub fn unpack_from(words: &[u32], n: usize) -> (r: Vec<u8>)
    requires
        spec_pad(n as int) <= words@.len(),
    ensures
        r@ == unpack_words(words@, n as int),
{
    let mut out: Vec<u8> = Vec::new();
    let mut i: usize = 0;
    while i < n
        invariant
            i <= n,
            spec_pad(n as int) <= words@.len(),
            out@.len() == i,
            forall|j: int| 0 <= j < i ==> out@[j] == unpack_words(words@, n as int)[j],
        decreases n - i,
    {
        let b = unpack_byte(words, i);
        out.push(b);
        i = i + 1;
    }
    assert(out@ =~= unpack_words(words@, n as int));
    out
}

} // verus!
