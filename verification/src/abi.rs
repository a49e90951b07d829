//! The binary payload format of an encoded mint transaction: a tuple of
//! exactly three dynamic byte strings, laid out word-style. The head
//! holds three 32-byte offset words; each tail holds a 32-byte length
//! word, the payload bytes, and zero padding up to a word boundary.
//! Only the canonical layout (offsets in order, exact total length) is
//! accepted, so decoding is the inverse of encoding.

use vstd::prelude::*;

verus! {

/// A run of zero bytes.
pub open spec fn zeros(n: nat) -> Seq<u8> {
    Seq::new(n, |i: int| 0u8)
}

/// The big-endian bytes of a 64-bit value.
pub open spec fn be_u64(n: u64) -> Seq<u8> {
    seq![
        (n >> 56) as u8,
        (n >> 48) as u8,
        (n >> 40) as u8,
        (n >> 32) as u8,
        (n >> 24) as u8,
        (n >> 16) as u8,
        (n >> 8) as u8,
        n as u8,
    ]
}

/// The 64-bit value of 8 big-endian bytes.
pub open spec fn be_u64_val(b: Seq<u8>) -> u64
    recommends
        b.len() == 8,
{
    (((b[0] as u64) << 56) | ((b[1] as u64) << 48) | ((b[2] as u64) << 40) | ((b[3] as u64) << 32)
        | ((b[4] as u64) << 24) | ((b[5] as u64) << 16) | ((b[6] as u64) << 8) | (b[7] as u64))
        as u64
}

/// A 32-byte word holding a value below 2^64.
pub open spec fn abi_word(n: u64) -> Seq<u8> {
    zeros(24) + be_u64(n)
}

/// The length of `n` bytes padded up to a multiple of 32.
pub open spec fn pad_len(n: nat) -> nat {
    ((n + 31) / 32) * 32
}

/// The tail of one dynamic byte string: length word, payload, padding.
pub open spec fn abi_tail(s: Seq<u8>) -> Seq<u8>
    recommends
        s.len() < 0x10000000000000000,
{
    abi_word(s.len() as u64) + s + zeros((pad_len(s.len()) - s.len()) as nat)
}

/// The length of the encoding of a three-string tuple.
pub open spec fn enc_len3(a: nat, b: nat, c: nat) -> nat {
    192 + pad_len(a) + pad_len(b) + pad_len(c)
}

/// The canonical encoding of a tuple of three dynamic byte strings.
pub open spec fn abi_encode3(a: Seq<u8>, b: Seq<u8>, c: Seq<u8>) -> Seq<u8>
    recommends
        enc_len3(a.len(), b.len(), c.len()) < 0x10000000000000000,
{
    let o1 = 128 + pad_len(a.len());
    let o2 = o1 + 32 + pad_len(b.len());
    abi_word(96) + abi_word(o1 as u64) + abi_word(o2 as u64) + abi_tail(a) + abi_tail(b)
        + abi_tail(c)
}

/// The word at `pos`, when it holds a value below 2^64.
pub open spec fn word_u64_at(d: Seq<u8>, pos: int) -> Option<u64>
    recommends
        0 <= pos,
        pos + 32 <= d.len(),
{
    if forall|k: int| pos <= k < pos + 24 ==> d[k] == 0 {
        Some(be_u64_val(d.subrange(pos + 24, pos + 32)))
    } else {
        None
    }
}

/// Whether a tail of payload length `n` at `pos` fits inside `d`.
pub open spec fn tail_fits(d: Seq<u8>, pos: int, n: u64) -> bool {
    pos + 32 + pad_len(n as nat) <= d.len()
}

/// Whether the padding of a tail of payload length `n` at `pos` is zero.
pub open spec fn padding_zero(d: Seq<u8>, pos: int, n: u64) -> bool {
    forall|k: int| pos + 32 + n <= k < pos + 32 + pad_len(n as nat) ==> d[k] == 0
}

/// The payload of a well-formed tail starting at `pos`: a length word,
/// that many payload bytes in range, and zero padding to the boundary.
pub open spec fn tail_at(d: Seq<u8>, pos: int) -> Option<Seq<u8>>
    recommends
        0 <= pos,
{
    if pos + 32 <= d.len() {
        match word_u64_at(d, pos) {
            Some(n) => {
                if tail_fits(d, pos, n) && padding_zero(d, pos, n) {
                    Some(d.subrange(pos + 32, pos + 32 + n))
                } else {
                    None
                }
            },
            None => None,
        }
    } else {
        None
    }
}

/// Decodes the canonical encoding of a three-string tuple; any other
/// byte string is rejected.
pub open spec fn abi_decode3(d: Seq<u8>) -> Option<(Seq<u8>, Seq<u8>, Seq<u8>)> {
    if d.len() < 96 {
        None
    } else {
        match (word_u64_at(d, 0), word_u64_at(d, 32), word_u64_at(d, 64)) {
            (Some(o0), Some(o1), Some(o2)) => {
                if o0 != 96 {
                    None
                } else {
                    match tail_at(d, 96) {
                        Some(a) => {
                            if o1 != 128 + pad_len(a.len()) {
                                None
                            } else {
                                match tail_at(d, o1 as int) {
                                    Some(b) => {
                                        if o2 != o1 + 32 + pad_len(b.len()) {
                                            None
                                        } else {
                                            match tail_at(d, o2 as int) {
                                                Some(c) => {
                                                    if d.len() == o2 + 32 + pad_len(c.len()) {
                                                        Some((a, b, c))
                                                    } else {
                                                        None
                                                    }
                                                },
                                                None => None,
                                            }
                                        }
                                    },
                                    None => None,
                                }
                            }
                        },
                        None => None,
                    }
                }
            },
            _ => None,
        }
    }
}

/// A tail whose padding holds a nonzero byte is rejected.
proof fn lemma_tail_none(d: Seq<u8>, pos: int, n: u64)
    requires
        0 <= pos,
        pos + 32 <= d.len(),
        word_u64_at(d, pos) == Some(n),
        !padding_zero(d, pos, n),
    ensures
        tail_at(d, pos) is None,
{
}

/// Big-endian encoding and decoding of a 64-bit value are inverse.
proof fn lemma_be_u64_round_trip(n: u64)
    ensures
        be_u64_val(be_u64(n)) == n,
{
    assert((((((n >> 56) as u8) as u64) << 56) | ((((n >> 48) as u8) as u64) << 48) | ((((n >> 40)
        as u8) as u64) << 40) | ((((n >> 32) as u8) as u64) << 32) | ((((n >> 24) as u8) as u64)
        << 24) | ((((n >> 16) as u8) as u64) << 16) | ((((n >> 8) as u8) as u64) << 8) | ((n as u8)
        as u64)) == n) by (bit_vector);
}

/// A word written by the encoder reads back as its value.
proof fn lemma_word_at(d: Seq<u8>, pos: int, n: u64)
    requires
        0 <= pos,
        pos + 32 <= d.len(),
        d.subrange(pos, pos + 32) == abi_word(n),
    ensures
        word_u64_at(d, pos) == Some(n),
{
    assert forall|k: int| pos <= k < pos + 24 implies d[k] == 0 by {
        assert(d[k] == d.subrange(pos, pos + 32)[k - pos]);
    }
    assert forall|j: int| 0 <= j < 8 implies #[trigger] d.subrange(pos + 24, pos + 32)[j]
        == be_u64(n)[j] by {
        assert(d[pos + 24 + j] == d.subrange(pos, pos + 32)[24 + j]);
    }
    assert(d.subrange(pos + 24, pos + 32) =~= be_u64(n));
    lemma_be_u64_round_trip(n);
}

/// A tail written by the encoder reads back as its payload.
proof fn lemma_tail_at(d: Seq<u8>, pos: int, s: Seq<u8>)
    requires
        0 <= pos,
        s.len() < 0x10000000000000000,
        pos + 32 + pad_len(s.len()) <= d.len(),
        d.subrange(pos, pos + 32 + pad_len(s.len())) == abi_tail(s),
    ensures
        tail_at(d, pos) == Some(s),
{
    assert(pad_len(s.len()) >= s.len());
    assert(d.subrange(pos, pos + 32) =~= abi_word(s.len() as u64)) by {
        assert forall|k: int| 0 <= k < 32 implies #[trigger] d.subrange(pos, pos + 32)[k]
            == abi_word(s.len() as u64)[k] by {
            assert(d[pos + k] == d.subrange(pos, pos + 32 + pad_len(s.len()))[k]);
        }
    }
    lemma_word_at(d, pos, s.len() as u64);
    assert forall|k: int|
        pos + 32 + s.len() <= k < pos + 32 + pad_len(s.len()) implies d[k] == 0 by {
        assert(d[k] == d.subrange(pos, pos + 32 + pad_len(s.len()))[k - pos]);
        assert(abi_tail(s)[k - pos] == 0);
    }
    assert(tail_at(d, pos) matches Some(t) && t =~= s) by {
        assert forall|k: int| 0 <= k < s.len() implies d.subrange(pos + 32, pos + 32 + s.len())[k]
            == s[k] by {
            assert(d[pos + 32 + k] == d.subrange(pos, pos + 32 + pad_len(s.len()))[32 + k]);
            assert(abi_tail(s)[32 + k] == s[k]);
        }
    }
}

/// Encoding a three-string tuple and decoding the result yields the
/// original strings: the decoder inverts the encoder.
#[verifier::rlimit(100)]
pub proof fn lemma_abi_round_trip(a: Seq<u8>, b: Seq<u8>, c: Seq<u8>)
    requires
        enc_len3(a.len(), b.len(), c.len()) < 0x10000000000000000,
    ensures
        abi_decode3(abi_encode3(a, b, c)) == Some((a, b, c)),
{
    let o1 = 128 + pad_len(a.len());
    let o2 = o1 + 32 + pad_len(b.len());
    let e = abi_encode3(a, b, c);
    assert(e.len() == enc_len3(a.len(), b.len(), c.len()));
    assert(e.subrange(0, 32) =~= abi_word(96));
    assert(e.subrange(32, 64) =~= abi_word(o1 as u64));
    assert(e.subrange(64, 96) =~= abi_word(o2 as u64));
    lemma_word_at(e, 0, 96);
    lemma_word_at(e, 32, o1 as u64);
    lemma_word_at(e, 64, o2 as u64);
    assert(e.subrange(96, (96 + 32 + pad_len(a.len())) as int) =~= abi_tail(a));
    lemma_tail_at(e, 96, a);
    assert(e.subrange(o1 as int, (o1 + 32 + pad_len(b.len())) as int) =~= abi_tail(b));
    lemma_tail_at(e, o1 as int, b);
    assert(e.subrange(o2 as int, (o2 + 32 + pad_len(c.len())) as int) =~= abi_tail(c));
    lemma_tail_at(e, o2 as int, c);
    assert(e.len() == o2 + 32 + pad_len(c.len()));
}

/// Appends one 32-byte word.
fn push_word(v: &mut Vec<u8>, n: u64)
    requires
        old(v)@.len() + 32 <= usize::MAX,
    ensures
        final(v)@ == old(v)@ + abi_word(n),
{
    let ghost v0 = v@;
    let mut k: usize = 0;
    while k < 24
        invariant
            k <= 24,
            v@ == v0 + zeros(k as nat),
        decreases 24 - k,
    {
        v.push(0);
        proof {
            assert(v@ =~= v0 + zeros((k + 1) as nat));
        }
        k = k + 1;
    }
    v.push((n >> 56) as u8);
    v.push((n >> 48) as u8);
    v.push((n >> 40) as u8);
    v.push((n >> 32) as u8);
    v.push((n >> 24) as u8);
    v.push((n >> 16) as u8);
    v.push((n >> 8) as u8);
    v.push(n as u8);
    proof {
        assert(v@ =~= v0 + abi_word(n));
    }
}

/// Appends one dynamic-string tail.
fn push_tail(v: &mut Vec<u8>, s: &Vec<u8>)
    requires
        old(v)@.len() + 32 + pad_len(s@.len()) <= usize::MAX,
    ensures
        final(v)@ == old(v)@ + abi_tail(s@),
{
    let ghost v0 = v@;
    proof {
        assert(pad_len(s@.len()) >= s@.len());
    }
    push_word(v, s.len() as u64);
    let mut j: usize = 0;
    while j < s.len()
        invariant
            j <= s@.len(),
            old(v)@.len() + 32 + pad_len(s@.len()) <= usize::MAX,
            v@ == v0 + abi_word(s@.len() as u64) + s@.take(j as int),
            pad_len(s@.len()) >= s@.len(),
            v0 == old(v)@,
        decreases s@.len() - j,
    {
        v.push(s[j]);
        proof {
            assert(v@ =~= v0 + abi_word(s@.len() as u64) + s@.take(j + 1));
        }
        j = j + 1;
    }
    proof {
        assert(s@.take(s@.len() as int) =~= s@);
    }
    let pad = (s.len() + 31) / 32 * 32;
    let mut k: usize = s.len();
    while k < pad
        invariant
            s@.len() <= k <= pad,
            pad == pad_len(s@.len()),
            old(v)@.len() + 32 + pad_len(s@.len()) <= usize::MAX,
            v@ == v0 + abi_word(s@.len() as u64) + s@ + zeros((k - s@.len()) as nat),
            v0 == old(v)@,
        decreases pad - k,
    {
        v.push(0);
        proof {
            assert(v@ =~= v0 + abi_word(s@.len() as u64) + s@ + zeros((k + 1 - s@.len()) as nat));
        }
        k = k + 1;
    }
    proof {
        assert(v@ =~= v0 + abi_tail(s@));
    }
}

/// Encodes a tuple of three dynamic byte strings canonically.
pub fn abi_encode_three(a: &Vec<u8>, b: &Vec<u8>, c: &Vec<u8>) -> (r: Vec<u8>)
    requires
        enc_len3(a@.len(), b@.len(), c@.len()) <= usize::MAX,
    ensures
        r@ == abi_encode3(a@, b@, c@),
{
    let pa = (a.len() + 31) / 32 * 32;
    let pb = (b.len() + 31) / 32 * 32;
    let o1: usize = 128 + pa;
    let o2: usize = o1 + 32 + pb;
    let mut v: Vec<u8> = Vec::new();
    push_word(&mut v, 96);
    push_word(&mut v, o1 as u64);
    push_word(&mut v, o2 as u64);
    push_tail(&mut v, a);
    push_tail(&mut v, b);
    push_tail(&mut v, c);
    proof {
        assert(v@ =~= abi_encode3(a@, b@, c@));
    }
    v
}

/// Reads the word at `pos` when it holds a value below 2^64.
fn read_word(d: &Vec<u8>, pos: usize) -> (r: Option<u64>)
    requires
        pos + 32 <= d@.len(),
    ensures
        r == word_u64_at(d@, pos as int),
{
    let total = d.len();
    proof {
        assert(d@.len() <= usize::MAX);
    }
    let mut k: usize = 0;
    while k < 24
        invariant
            k <= 24,
            pos + 32 <= d@.len(),
            d@.len() <= usize::MAX,
            forall|j: int| pos <= j < pos + k ==> d@[j] == 0,
        decreases 24 - k,
    {
        if d[pos + k] != 0 {
            proof {
                assert(!(forall|j: int| pos <= j < pos + 24 ==> d@[j] == 0));
            }
            return None;
        }
        k = k + 1;
    }
    let v: u64 = ((d[pos + 24] as u64) << 56) | ((d[pos + 25] as u64) << 48) | ((d[pos + 26]
        as u64) << 40) | ((d[pos + 27] as u64) << 32) | ((d[pos + 28] as u64) << 24) | ((d[pos
        + 29] as u64) << 16) | ((d[pos + 30] as u64) << 8) | (d[pos + 31] as u64);
    proof {
        let sub = d@.subrange(pos + 24, pos + 32);
        assert(sub[0] == d@[pos + 24] && sub[1] == d@[pos + 25] && sub[2] == d@[pos + 26] && sub[3]
            == d@[pos + 27] && sub[4] == d@[pos + 28] && sub[5] == d@[pos + 29] && sub[6] == d@[pos
            + 30] && sub[7] == d@[pos + 31]);
        assert(v == be_u64_val(sub));
    }
    Some(v)
}

/// Copies the byte range `[from, to)`.
fn copy_range(d: &Vec<u8>, from: usize, to: usize) -> (r: Vec<u8>)
    requires
        from <= to <= d@.len(),
    ensures
        r@ == d@.subrange(from as int, to as int),
{
    let mut out: Vec<u8> = Vec::new();
    let mut j: usize = from;
    while j < to
        invariant
            from <= j <= to <= d@.len(),
            out@ == d@.subrange(from as int, j as int),
        decreases to - j,
    {
        out.push(d[j]);
        proof {
            assert(out@ =~= d@.subrange(from as int, j + 1));
        }
        j = j + 1;
    }
    out
}

/// Reads the dynamic-string tail at `pos`.
fn read_tail(d: &Vec<u8>, pos: usize) -> (r: Option<Vec<u8>>)
    requires
        pos + 32 <= d@.len(),
    ensures
        match r {
            Some(v) => tail_at(d@, pos as int) == Some(v@),
            None => tail_at(d@, pos as int) is None,
        },
{
    let total = d.len();
    proof {
        assert(d@.len() <= usize::MAX);
    }
    let n64 = match read_word(d, pos) {
        Some(n) => n,
        None => {
            return None;
        },
    };
    let need: u128 = pos as u128 + 32 + ((n64 as u128 + 31) / 32) * 32;
    if need > d.len() as u128 {
        proof {
            assert(pos + 32 + pad_len(n64 as nat) > d@.len());
        }
        return None;
    }
    proof {
        assert(pad_len(n64 as nat) >= n64 as nat);
        assert(pos + 32 + pad_len(n64 as nat) <= d@.len());
    }
    let n = n64 as usize;
    let data_end = pos + 32 + n;
    let pad_end = pos + 32 + ((n + 31) / 32) * 32;
    let mut k: usize = data_end;
    while k < pad_end
        invariant
            data_end <= k <= pad_end,
            data_end == pos + 32 + (n64 as int),
            pad_end == pos + 32 + pad_len(n64 as nat),
            pad_end <= d@.len(),
            d@.len() <= usize::MAX,
            pos + 32 <= d@.len(),
            word_u64_at(d@, pos as int) == Some(n64),
            forall|j: int| pos + 32 + n64 <= j < k ==> d@[j] == 0,
        decreases pad_end - k,
    {
        if d[k] != 0 {
            proof {
                assert(pos + 32 + n64 <= k < pos + 32 + pad_len(n64 as nat));
                assert(d@[k as int] != 0);
                assert(!padding_zero(d@, pos as int, n64));
                lemma_tail_none(d@, pos as int, n64);
                assert(tail_at(d@, pos as int) is None);
            }
            return None;
        }
        k = k + 1;
    }
    Some(copy_range(d, pos + 32, data_end))
}

/// Decodes a canonical three-string tuple; fails exactly when the spec
/// decoder does.
pub fn abi_decode_three(d: &Vec<u8>) -> (r: Option<(Vec<u8>, Vec<u8>, Vec<u8>)>)
    ensures
        match r {
            Some(t) => abi_decode3(d@) == Some((t.0@, t.1@, t.2@)),
            None => abi_decode3(d@) is None,
        },
{
    if d.len() < 96 {
        return None;
    }
    let o0 = match read_word(d, 0) {
        Some(v) => v,
        None => {
            return None;
        },
    };
    let o1 = match read_word(d, 32) {
        Some(v) => v,
        None => {
            return None;
        },
    };
    let o2 = match read_word(d, 64) {
        Some(v) => v,
        None => {
            return None;
        },
    };
    if o0 != 96 {
        return None;
    }
    if d.len() < 128 {
        proof {
            assert(tail_at(d@, 96) is None);
        }
        return None;
    }
    let a = match read_tail(d, 96) {
        Some(v) => v,
        None => {
            return None;
        },
    };
    if o1 as u128 != 128 + ((a.len() as u128 + 31) / 32) * 32 {
        return None;
    }
    if o1 as u128 + 32 > d.len() as u128 {
        proof {
            assert(tail_at(d@, o1 as int) is None);
        }
        return None;
    }
    let b = match read_tail(d, o1 as usize) {
        Some(v) => v,
        None => {
            return None;
        },
    };
    if o2 as u128 != o1 as u128 + 32 + ((b.len() as u128 + 31) / 32) * 32 {
        return None;
    }
    if o2 as u128 + 32 > d.len() as u128 {
        proof {
            assert(tail_at(d@, o2 as int) is None);
        }
        return None;
    }
    let c = match read_tail(d, o2 as usize) {
        Some(v) => v,
        None => {
            return None;
        },
    };
    if d.len() as u128 != o2 as u128 + 32 + ((c.len() as u128 + 31) / 32) * 32 {
        return None;
    }
    Some((a, b, c))
}

} // verus!
