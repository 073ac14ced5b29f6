//! Byte framing for values kept in the non-volatile store.
//!
//! The store holds raw bytes, so every persisted value is framed by the
//! library itself: a string field becomes an 8-byte little-endian length
//! followed by its UTF-8 bytes, and a decoder checks the frame and refuses
//! anything malformed.  Encoding and decoding are exact inverses, which is
//! what makes a persisted configuration load back unchanged.

use vstd::prelude::*;
use vstd::arithmetic::div_mod::{lemma_fundamental_div_mod, lemma_multiply_divide_lt};
use vstd::utf8::{decode_utf8, encode_utf8, encode_utf8_decode_utf8, encode_utf8_valid_utf8,
    valid_utf8};

verus! {

/// `256^k`: the count of values that `k` bytes can hold.
pub open spec fn pow256(k: nat) -> nat
    decreases k,
{
    if k == 0 {
        1
    } else {
        256 * pow256((k - 1) as nat)
    }
}

/// `256^8` written out, so callers can relate `u64` bounds to `pow256`.
pub proof fn lemma_pow256_8()
    ensures
        pow256(8) == 0x1_0000_0000_0000_0000,
{
    assert(pow256(0) == 1);
    assert(pow256(1) == 256);
    assert(pow256(2) == 0x1_0000);
    assert(pow256(3) == 0x100_0000);
    assert(pow256(4) == 0x1_0000_0000);
    assert(pow256(5) == 0x100_0000_0000);
    assert(pow256(6) == 0x1_0000_0000_0000);
    assert(pow256(7) == 0x100_0000_0000_0000);
    assert(pow256(8) == 0x1_0000_0000_0000_0000);
}

/// Little-endian bytes of `n`, `k` bytes long.  Exact for `n < 256^k`.
pub open spec fn le_bytes(n: nat, k: nat) -> Seq<u8>
    decreases k,
{
    if k == 0 {
        Seq::empty()
    } else {
        seq![(n % 256) as u8] + le_bytes(n / 256, (k - 1) as nat)
    }
}

/// The number whose little-endian bytes are `b`.
pub open spec fn le_value(b: Seq<u8>) -> nat
    decreases b.len(),
{
    if b.len() == 0 {
        0
    } else {
        (b[0] + 256 * le_value(b.drop_first())) as nat
    }
}

/// `le_value` recovers what `le_bytes` wrote, for any number that fits.
pub proof fn lemma_le_round_trip(n: nat, k: nat)
    requires
        n < pow256(k),
    ensures
        le_bytes(n, k).len() == k,
        le_value(le_bytes(n, k)) == n,
    decreases k,
{
    if k > 0 {
        assert(n / 256 < pow256((k - 1) as nat)) by {
            lemma_multiply_divide_lt(n as int, 256, pow256((k - 1) as nat) as int);
        }
        lemma_le_round_trip(n / 256, (k - 1) as nat);
        assert(le_bytes(n, k).drop_first() =~= le_bytes(n / 256, (k - 1) as nat));
        assert(n == 256 * (n as int / 256) + n as int % 256) by {
            lemma_fundamental_div_mod(n as int, 256);
        }
    }
}

/// The 8-byte little-endian frame in front of each string field.
pub open spec fn spec_enc_str(s: Seq<char>) -> Seq<u8> {
    le_bytes(encode_utf8(s).len(), 8) + encode_utf8(s)
}

/// Reads one framed string starting at `b`; returns the string and the
/// remaining bytes, or nothing when the frame is broken.
pub open spec fn spec_take_str(b: Seq<u8>) -> Option<(Seq<char>, Seq<u8>)> {
    if b.len() < 8 {
        None
    } else {
        let n = le_value(b.subrange(0, 8));
        if b.len() - 8 < n {
            None
        } else {
            let payload = b.subrange(8, 8 + n as int);
            if valid_utf8(payload) {
                Some((decode_utf8(payload), b.subrange(8 + n as int, b.len() as int)))
            } else {
                None
            }
        }
    }
}

/// A string whose UTF-8 form fits the 8-byte length frame.  Every string an
/// executing program can hold satisfies this; it only rules out the
/// mathematical strings beyond any machine's memory.
pub open spec fn str_fits(s: Seq<char>) -> bool {
    encode_utf8(s).len() < 0x1_0000_0000_0000_0000
}

/// Taking a framed string back out yields the string and leaves the rest.
pub proof fn lemma_take_enc_str(s: Seq<char>, rest: Seq<u8>)
    requires
        str_fits(s),
    ensures
        spec_take_str(spec_enc_str(s) + rest) == Some((s, rest)),
{
    let payload = encode_utf8(s);
    let n = payload.len();
    lemma_pow256_8();
    lemma_le_round_trip(n, 8);
    let whole = spec_enc_str(s) + rest;
    assert(whole.subrange(0, 8) =~= le_bytes(n, 8));
    assert(whole.subrange(8, 8 + n as int) =~= payload);
    assert(whole.subrange(8 + n as int, whole.len() as int) =~= rest);
    encode_utf8_valid_utf8(s);
    encode_utf8_decode_utf8(s);
}

/// `n` shifted right by `i` whole bytes.
pub open spec fn spec_shr_bytes(n: nat, i: nat) -> nat
    decreases i,
{
    if i == 0 {
        n
    } else {
        spec_shr_bytes(n, (i - 1) as nat) / 256
    }
}

/// Appends the 8-byte little-endian form of `n` to `out`.
pub fn push_le8(out: &mut Vec<u8>, n: u64)
    ensures
        final(out)@ == old(out)@ + le_bytes(n as nat, 8),
{
    let ghost orig = out@;
    let mut v: u64 = n;
    let mut i: usize = 0;
    while i < 8
        invariant
            i <= 8,
            out@ == orig + le_bytes_prefix(n as nat, i as nat),
            v == spec_shr_bytes(n as nat, i as nat),
        decreases 8 - i,
    {
        proof {
            lemma_le_bytes_prefix_snoc(n as nat, i as nat);
        }
        out.push((v % 256) as u8);
        v = v / 256;
        i = i + 1;
    }
    proof {
        lemma_le_bytes_prefix_full(n as nat, 8);
    }
}

/// The first `i` bytes of the little-endian form of `n`, grown from the
/// front: what `push_le8` has written after `i` iterations.
pub open spec fn le_bytes_prefix(n: nat, i: nat) -> Seq<u8>
    decreases i,
{
    if i == 0 {
        Seq::empty()
    } else {
        le_bytes_prefix(n, (i - 1) as nat) + seq![
            (spec_shr_bytes(n, (i - 1) as nat) % 256) as u8,
        ]
    }
}

/// Writing one more byte extends the prefix by the low byte of the
/// remaining value.
proof fn lemma_le_bytes_prefix_snoc(n: nat, i: nat)
    ensures
        le_bytes_prefix(n, i + 1) == le_bytes_prefix(n, i) + seq![
            (spec_shr_bytes(n, i) % 256) as u8,
        ],
{
}

/// The byte-by-byte prefix agrees with the recursive definition once all
/// `k` bytes are written.
proof fn lemma_le_bytes_prefix_full(n: nat, k: nat)
    ensures
        le_bytes_prefix(n, k) =~= le_bytes(n, k),
    decreases k,
{
    if k > 0 {
        lemma_le_bytes_prefix_shift(n, (k - 1) as nat);
        lemma_le_bytes_prefix_full(n / 256, (k - 1) as nat);
        assert(le_bytes_prefix(n, k) =~= seq![(n % 256) as u8] + le_bytes_prefix(
            n / 256,
            (k - 1) as nat,
        ));
    }
}

/// A prefix of `n` past the first byte is the matching prefix of `n / 256`,
/// shifted one place.
proof fn lemma_le_bytes_prefix_shift(n: nat, i: nat)
    ensures
        le_bytes_prefix(n, i + 1) =~= seq![(n % 256) as u8] + le_bytes_prefix(n / 256, i),
    decreases i,
{
    if i > 0 {
        lemma_le_bytes_prefix_shift(n, (i - 1) as nat);
        assert(spec_shr_bytes(n, i) == spec_shr_bytes(n / 256, (i - 1) as nat)) by {
            lemma_shr_bytes_shift(n, i);
        }
    } else {
        assert(spec_shr_bytes(n, 0) == n);
        assert(le_bytes_prefix(n, 1) == le_bytes_prefix(n, 0) + seq![
            (spec_shr_bytes(n, 0) % 256) as u8,
        ]);
        assert(le_bytes_prefix(n, 1) =~= seq![(n % 256) as u8]);
    }
}

/// Shifting by `i` bytes then dividing equals dividing then shifting.
proof fn lemma_shr_bytes_shift(n: nat, i: nat)
    requires
        i >= 1,
    ensures
        spec_shr_bytes(n, i) == spec_shr_bytes(n / 256, (i - 1) as nat),
    decreases i,
{
    if i > 1 {
        lemma_shr_bytes_shift(n, (i - 1) as nat);
    } else {
        assert(spec_shr_bytes(n, 1) == spec_shr_bytes(n, 0) / 256);
        assert(spec_shr_bytes(n, 0) == n);
        assert(spec_shr_bytes(n / 256, 0) == n / 256);
    }
}

/// Reads the 8-byte little-endian number at `off`.
pub fn read_le8(b: &Vec<u8>, off: usize) -> (r: u64)
    requires
        off + 8 <= b@.len(),
    ensures
        r as nat == le_value(b@.subrange(off as int, off as int + 8)),
{
    let ghost window = b@.subrange(off as int, off as int + 8);
    let blen = b.len();
    let mut acc: u64 = 0;
    let mut i: usize = 8;
    while i > 0
        invariant
            i <= 8,
            off + 8 <= blen,
            blen == b@.len(),
            window == b@.subrange(off as int, off as int + 8),
            acc as nat == le_value(window.subrange(i as int, 8)),
            acc < pow256((8 - i) as nat),
        decreases i,
    {
        proof {
            assert(window.subrange(i as int - 1, 8).drop_first() =~= window.subrange(i as int, 8));
            assert(window.subrange(i as int - 1, 8)[0] == b@[off + i - 1]);
            lemma_pow256_bound((8 - i) as nat);
        }
        i = i - 1;
        acc = acc * 256 + (b[off + i] as u64);
    }
    proof {
        assert(window.subrange(0, 8) =~= window);
    }
    acc
}

/// `256 * 256^k` stays within `2^64` for `k < 8`.
proof fn lemma_pow256_bound(k: nat)
    requires
        k < 8,
    ensures
        256 * pow256(k) <= 0x1_0000_0000_0000_0000,
        pow256(k + 1) == 256 * pow256(k),
    decreases k,
{
    lemma_pow256_8();
    lemma_pow256_monotone(k + 1, 8);
}

/// `pow256` grows with its exponent.
proof fn lemma_pow256_monotone(a: nat, b: nat)
    requires
        a <= b,
    ensures
        pow256(a) <= pow256(b),
    decreases b,
{
    if a < b {
        lemma_pow256_monotone(a, (b - 1) as nat);
        assert(pow256(b) == 256 * pow256((b - 1) as nat));
    }
}

/// Relies on std `str::from_utf8`: it succeeds exactly on valid UTF-8 and
/// reinterprets the bytes as the characters they encode.
#[verifier::external_body]
fn string_from_utf8(bytes: &Vec<u8>) -> (r: Option<String>)
    ensures
        r matches Some(s) ==> valid_utf8(bytes@) && s@ == decode_utf8(bytes@),
        r is None ==> !valid_utf8(bytes@),
{
    std::str::from_utf8(bytes).ok().map(|s| s.to_owned())
}

/// Appends one framed string field to `out`.
pub fn push_str_field(out: &mut Vec<u8>, s: &str)
    ensures
        final(out)@ == old(out)@ + spec_enc_str(s@),
{
    let bytes = s.as_bytes_vec();
    let len64: u64 = bytes.len() as u64;
    push_le8(out, len64);
    let ghost mid = out@;
    let mut j: usize = 0;
    while j < bytes.len()
        invariant
            j <= bytes@.len(),
            bytes@ == encode_utf8(s@),
            out@ == mid + bytes@.subrange(0, j as int),
            mid == old(out)@ + le_bytes(encode_utf8(s@).len(), 8),
        decreases bytes@.len() - j,
    {
        out.push(bytes[j]);
        j = j + 1;
        proof {
            assert(bytes@.subrange(0, j as int) =~= bytes@.subrange(0, j - 1).push(
                bytes@[j - 1],
            ));
        }
    }
    proof {
        assert(bytes@.subrange(0, bytes@.len() as int) =~= bytes@);
        assert(old(out)@ + le_bytes(encode_utf8(s@).len(), 8) + encode_utf8(s@) =~= old(out)@
            + spec_enc_str(s@));
    }
}

/// Reads one framed string field at `off`; returns the string and the
/// offset just past it, or nothing when the frame is broken.
pub fn take_str_field(b: &Vec<u8>, off: usize) -> (r: Option<(String, usize)>)
    requires
        off <= b@.len(),
    ensures
        match r {
            Some((s, next)) => {
                &&& off <= next <= b@.len()
                &&& spec_take_str(b@.subrange(off as int, b@.len() as int)) matches Some(taken)
                    && taken.0 == s@ && taken.1 == b@.subrange(next as int, b@.len() as int)
            },
            None => spec_take_str(b@.subrange(off as int, b@.len() as int)) is None,
        },
{
    let ghost tail = b@.subrange(off as int, b@.len() as int);
    let blen = b.len();
    if blen - off < 8 {
        return None;
    }
    let n64 = read_le8(b, off);
    proof {
        assert(tail.subrange(0, 8) =~= b@.subrange(off as int, off as int + 8));
    }
    let rem = blen - (off + 8);
    if n64 > rem as u64 {
        return None;
    }
    let n = n64 as usize;
    let mut payload: Vec<u8> = Vec::new();
    let mut j: usize = 0;
    while j < n
        invariant
            j <= n,
            off + 8 + n <= blen,
            blen == b@.len(),
            payload@ == b@.subrange(off + 8, off + 8 + j as int),
        decreases n - j,
    {
        payload.push(b[off + 8 + j]);
        j = j + 1;
        proof {
            assert(b@.subrange(off + 8, off + 8 + j as int) =~= b@.subrange(
                off + 8,
                off + 8 + j - 1,
            ).push(b@[off + 8 + j - 1]));
        }
    }
    proof {
        assert(tail.subrange(8, 8 + n as int) =~= b@.subrange(off + 8, off + 8 + n));
    }
    match string_from_utf8(&payload) {
        Some(s) => {
            proof {
                assert(tail.subrange(8 + n as int, tail.len() as int) =~= b@.subrange(
                    off + 8 + n,
                    b@.len() as int,
                ));
            }
            Some((s, off + 8 + n))
        },
        None => None,
    }
}

/// The encoding of a record of one string field.
pub open spec fn spec_enc1(a: Seq<char>) -> Seq<u8> {
    spec_enc_str(a)
}

/// The encoding of a record of two string fields.
pub open spec fn spec_enc2(a: Seq<char>, b: Seq<char>) -> Seq<u8> {
    spec_enc_str(a) + spec_enc_str(b)
}

/// Decodes a record of one string field; the bytes must hold exactly one
/// frame and nothing after it.
pub open spec fn spec_fields1(bytes: Seq<u8>) -> Option<Seq<char>> {
    match spec_take_str(bytes) {
        None => None,
        Some((f1, r1)) => if r1.len() == 0 {
            Some(f1)
        } else {
            None
        },
    }
}

/// Decodes a record of two string fields; the bytes must hold exactly two
/// frames and nothing after them.
pub open spec fn spec_fields2(bytes: Seq<u8>) -> Option<(Seq<char>, Seq<char>)> {
    match spec_take_str(bytes) {
        None => None,
        Some((f1, r1)) => match spec_take_str(r1) {
            None => None,
            Some((f2, r2)) => if r2.len() == 0 {
                Some((f1, f2))
            } else {
                None
            },
        },
    }
}

/// Decoding a one-field encoding yields the field.
pub proof fn lemma_fields1_round(a: Seq<char>)
    requires
        str_fits(a),
    ensures
        spec_fields1(spec_enc1(a)) == Some(a),
{
    assert(spec_enc1(a) =~= spec_enc_str(a) + Seq::<u8>::empty());
    lemma_take_enc_str(a, Seq::<u8>::empty());
}

/// Decoding a two-field encoding yields both fields.
pub proof fn lemma_fields2_round(a: Seq<char>, b: Seq<char>)
    requires
        str_fits(a),
        str_fits(b),
    ensures
        spec_fields2(spec_enc2(a, b)) == Some((a, b)),
{
    lemma_take_enc_str(a, spec_enc_str(b));
    assert(spec_enc_str(b) =~= spec_enc_str(b) + Seq::<u8>::empty());
    lemma_take_enc_str(b, Seq::<u8>::empty());
}

/// Encodes a record of one string field.
pub fn encode1(a: &str) -> (r: Vec<u8>)
    ensures
        r@ == spec_enc1(a@),
{
    let mut out: Vec<u8> = Vec::new();
    push_str_field(&mut out, a);
    proof {
        assert(out@ =~= spec_enc1(a@));
    }
    out
}

/// Encodes a record of two string fields.
pub fn encode2(a: &str, b: &str) -> (r: Vec<u8>)
    ensures
        r@ == spec_enc2(a@, b@),
{
    let mut out: Vec<u8> = Vec::new();
    push_str_field(&mut out, a);
    push_str_field(&mut out, b);
    proof {
        assert(out@ =~= spec_enc2(a@, b@));
    }
    out
}

/// Decodes a record of one string field.
pub fn decode1(bytes: &Vec<u8>) -> (r: Option<String>)
    ensures
        match r {
            Some(x) => spec_fields1(bytes@) == Some(x@),
            None => spec_fields1(bytes@) is None,
        },
{
    proof {
        assert(bytes@.subrange(0, bytes@.len() as int) =~= bytes@);
    }
    match take_str_field(bytes, 0) {
        None => None,
        Some((x, next)) => {
            if next == bytes.len() {
                Some(x)
            } else {
                None
            }
        },
    }
}

/// Decodes a record of two string fields.
pub fn decode2(bytes: &Vec<u8>) -> (r: Option<(String, String)>)
    ensures
        match r {
            Some(xy) => spec_fields2(bytes@) == Some((xy.0@, xy.1@)),
            None => spec_fields2(bytes@) is None,
        },
{
    proof {
        assert(bytes@.subrange(0, bytes@.len() as int) =~= bytes@);
    }
    match take_str_field(bytes, 0) {
        None => None,
        Some((x, next)) => {
            match take_str_field(bytes, next) {
                None => None,
                Some((y, next2)) => {
                    if next2 == bytes.len() {
                        Some((x, y))
                    } else {
                        None
                    }
                },
            }
        },
    }
}

/// A value the library persists as raw bytes and checks on the way back in.
///
/// `encoded` and `decoded` are exact inverses at the level of views:
/// decoding accepts exactly the byte strings some value encodes to, and the
/// decoded value carries the views the encoded one had.
pub trait Persist: Sized {
    /// The bytes this value is persisted as.
    spec fn spec_encoded(&self) -> Seq<u8>;

    /// Every field fits its length frame; true of every value an executing
    /// program can hold.
    spec fn spec_fits(&self) -> bool;

    /// The decoder accepts these bytes.
    spec fn spec_decodable(bytes: Seq<u8>) -> bool;

    /// Decoding these bytes yields exactly this value's views.
    spec fn spec_matches(bytes: Seq<u8>, v: &Self) -> bool;

    /// Field-by-field view equality: both values persist identically.
    spec fn spec_same(&self, other: &Self) -> bool;

    fn encoded(&self) -> (r: Vec<u8>)
        ensures
            r@ == self.spec_encoded(),
    ;

    fn decoded(bytes: &Vec<u8>) -> (r: Option<Self>)
        ensures
            match r {
                Some(v) => Self::spec_decodable(bytes@) && Self::spec_matches(bytes@, &v),
                None => !Self::spec_decodable(bytes@),
            },
    ;

    /// Round trip: the bytes a value encodes to decode back to that value.
    proof fn lemma_round_trip(&self)
        requires
            self.spec_fits(),
        ensures
            Self::spec_decodable(self.spec_encoded()),
            forall|w: Self|
                Self::spec_matches(self.spec_encoded(), &w) ==> #[trigger] self.spec_same(&w),
    ;
}

} // verus!
