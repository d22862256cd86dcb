//! Big-endian byte strings as natural numbers, and the fixed-width
//! arithmetic that key derivation needs on them.
use vstd::arithmetic::div_mod::*;
use vstd::prelude::*;

verus! {

/// `256^k`.
pub open spec fn pow256(k: nat) -> nat
    decreases k,
{
    if k == 0 {
        1
    } else {
        256 * pow256((k - 1) as nat)
    }
}

/// The number that a big-endian byte string denotes.
pub open spec fn be_value(s: Seq<u8>) -> nat
    decreases s.len(),
{
    if s.len() == 0 {
        0
    } else {
        be_value(s.drop_last()) * 256 + s.last() as nat
    }
}

/// The `len` low-order bytes of `v`, most significant first.
pub open spec fn be_bytes(v: nat, len: nat) -> Seq<u8>
    decreases len,
{
    if len == 0 {
        Seq::empty()
    } else {
        be_bytes(v / 256, (len - 1) as nat).push((v % 256) as u8)
    }
}

/// The order `n` of the secp256k1 group, as 32 big-endian bytes.
pub open spec fn curve_order_seq() -> Seq<u8> {
    seq![
        0xffu8, 0xff, 0xff, 0xff, 0xff, 0xff, 0xff, 0xff,
        0xff, 0xff, 0xff, 0xff, 0xff, 0xff, 0xff, 0xfe,
        0xba, 0xae, 0xdc, 0xe6, 0xaf, 0x48, 0xa0, 0x3b,
        0xbf, 0xd2, 0x5e, 0x8c, 0xd0, 0x36, 0x41, 0x41,
    ]
}

/// The order `n` of the secp256k1 group.
pub open spec fn curve_order() -> nat {
    be_value(curve_order_seq())
}

/// A secp256k1 secret key: 32 bytes denoting a number in `[1, n - 1]`.
pub open spec fn valid_secret_key(k: Seq<u8>) -> bool {
    &&& k.len() == 32
    &&& 0 < be_value(k)
    &&& be_value(k) < curve_order()
}

/// Lower-case hexadecimal digit of `d` (`d < 16`).
pub open spec fn hex_digit(d: nat) -> char {
    if d < 10 {
        (48 + d) as char
    } else {
        (87 + d) as char
    }
}

/// Lower-case hexadecimal text of a byte string, two digits per byte.
pub open spec fn hex_lower(s: Seq<u8>) -> Seq<char>
    decreases s.len(),
{
    if s.len() == 0 {
        Seq::empty()
    } else {
        hex_lower(s.drop_last()) + seq![hex_digit(s.last() as nat / 16), hex_digit(s.last() as nat % 16)]
    }
}

/// Hex text has two digits per byte.
pub proof fn lemma_hex_lower_len(s: Seq<u8>)
    ensures
        hex_lower(s).len() == 2 * s.len(),
    decreases s.len(),
{
    if s.len() > 0 {
        lemma_hex_lower_len(s.drop_last());
    }
}

pub proof fn lemma_pow256_pos(k: nat)
    ensures
        pow256(k) > 0,
    decreases k,
{
    if k > 0 {
        lemma_pow256_pos((k - 1) as nat);
    }
}

pub proof fn lemma_pow256_adds(a: nat, b: nat)
    ensures
        pow256(a + b) == pow256(a) * pow256(b),
    decreases b,
{
    if b == 0 {
        assert(pow256(0) == 1);
        assert(a + b == a);
    } else {
        lemma_pow256_adds(a, (b - 1) as nat);
        assert((a + b - 1) as nat == a + (b - 1) as nat);
        assert(pow256(a + b) == 256 * pow256((a + b - 1) as nat));
        assert(pow256(b) == 256 * pow256((b - 1) as nat));
        assert(256 * (pow256(a) * pow256((b - 1) as nat)) == pow256(a) * (256 * pow256(
            (b - 1) as nat,
        ))) by (nonlinear_arith);
    }
}

/// The value of a concatenation: the high part is shifted by the length of the low part.
pub proof fn lemma_be_concat(x: Seq<u8>, y: Seq<u8>)
    ensures
        be_value(x + y) == be_value(x) * pow256(y.len()) + be_value(y),
    decreases y.len(),
{
    if y.len() == 0 {
        assert(x + y =~= x);
        assert(pow256(0) == 1);
        assert(be_value(y) == 0);
    } else {
        let yd = y.drop_last();
        assert((x + y).drop_last() =~= x + yd);
        assert((x + y).last() == y.last());
        lemma_be_concat(x, yd);
        assert(be_value(x + y) == be_value(x + yd) * 256 + y.last() as nat);
        assert(be_value(y) == be_value(yd) * 256 + y.last() as nat);
        assert(pow256(y.len()) == 256 * pow256((y.len() - 1) as nat));
        let bx = be_value(x);
        let p = pow256(yd.len());
        assert(pow256(y.len()) == 256 * p);
        assert((bx * p + be_value(yd)) * 256 + y.last() == bx * (256 * p) + (be_value(yd) * 256
            + y.last())) by (nonlinear_arith);
    }
}

pub proof fn lemma_be_single(b: u8)
    ensures
        be_value(seq![b]) == b,
{
    let s = seq![b];
    assert(s.drop_last() =~= Seq::<u8>::empty());
    assert(s.last() == b);
    assert(be_value(s) == be_value(s.drop_last()) * 256 + s.last() as nat);
}

/// Prepending one byte adds it at weight `256^len`.
pub proof fn lemma_be_prepend(b: u8, s: Seq<u8>)
    ensures
        be_value(seq![b] + s) == b * pow256(s.len()) + be_value(s),
{
    lemma_be_concat(seq![b], s);
    lemma_be_single(b);
}

pub proof fn lemma_be_bound(s: Seq<u8>)
    ensures
        be_value(s) < pow256(s.len()),
    decreases s.len(),
{
    if s.len() > 0 {
        let sd = s.drop_last();
        lemma_be_bound(sd);
        let p = pow256(sd.len());
        assert(be_value(sd) + 1 <= p);
        assert(be_value(sd) * 256 + 255 < 256 * p) by (nonlinear_arith)
            requires
                be_value(sd) + 1 <= p,
        ;
    }
}

/// A byte string of length `len` is the `len`-byte encoding of its value.
pub proof fn lemma_be_bytes_of_value(s: Seq<u8>)
    ensures
        s == be_bytes(be_value(s), s.len()),
    decreases s.len(),
{
    if s.len() > 0 {
        let sd = s.drop_last();
        let v = be_value(s);
        lemma_fundamental_div_mod_converse(v as int, 256, be_value(sd) as int, s.last() as int);
        lemma_be_bytes_of_value(sd);
        assert(be_bytes(v, s.len()) =~= be_bytes(v / 256, sd.len()).push((v % 256) as u8));
        assert(s =~= sd.push(s.last()));
    }
}

/// The encoding of `v` in `len` bytes has `len` bytes and, when `v` fits, the value `v`.
pub proof fn lemma_be_bytes_value(v: nat, len: nat)
    ensures
        be_bytes(v, len).len() == len,
        v < pow256(len) ==> be_value(be_bytes(v, len)) == v,
    decreases len,
{
    if len > 0 {
        lemma_be_bytes_value(v / 256, (len - 1) as nat);
        let s = be_bytes(v, len);
        assert(s.drop_last() =~= be_bytes(v / 256, (len - 1) as nat));
        if v < pow256(len) {
            assert(v / 256 < pow256((len - 1) as nat)) by {
                lemma_div_by_multiple_is_strongly_ordered(v as int, pow256(len) as int, pow256((len - 1) as nat) as int, 256);
            }
            lemma_fundamental_div_mod(v as int, 256);
        }
    }
}

/// The group order is a positive 32-byte number.
pub proof fn lemma_curve_order_bounds()
    ensures
        0 < curve_order() < pow256(32),
{
    let s = curve_order_seq();
    assert(s.len() == 32);
    assert(s.last() == 0x41);
    lemma_be_bound(s);
}

/// Adds two big-endian numbers of the same width; the result has one more byte.
pub fn add_be(a: &[u8], b: &[u8]) -> (sum: Vec<u8>)
    requires
        a@.len() == b@.len(),
        a@.len() < usize::MAX,
    ensures
        sum@.len() == a@.len() + 1,
        be_value(sum@) == be_value(a@) + be_value(b@),
{
    let n = a.len();
    let mut out: Vec<u8> = vec![0u8; n + 1];
    let mut carry: u16 = 0;
    let mut i = n;
    proof {
        assert(a@.subrange(n as int, n as int) =~= Seq::<u8>::empty());
        assert(b@.subrange(n as int, n as int) =~= Seq::<u8>::empty());
        assert(out@.subrange(n as int + 1, n as int + 1) =~= Seq::<u8>::empty());
    }
    while i > 0
        invariant
            n == a@.len(),
            n == b@.len(),
            out@.len() == n + 1,
            i <= n,
            carry <= 1,
            be_value(out@.subrange(i as int + 1, n as int + 1)) + carry * pow256((n - i) as nat)
                == be_value(a@.subrange(i as int, n as int)) + be_value(
                b@.subrange(i as int, n as int),
            ),
        decreases i,
    {
        let j = i - 1;
        let t: u16 = a[j] as u16 + b[j] as u16 + carry;
        let digit = (t % 256) as u8;
        let next: u16 = t / 256;
        let ghost old_out = out@;
        out.set(j + 1, digit);
        proof {
            let p = pow256((n - i) as nat);
            let sa = a@.subrange(i as int, n as int);
            let sb = b@.subrange(i as int, n as int);
            let so = old_out.subrange(i as int + 1, n as int + 1);
            assert(a@.subrange(j as int, n as int) =~= seq![a@[j as int]] + sa);
            assert(b@.subrange(j as int, n as int) =~= seq![b@[j as int]] + sb);
            assert(out@.subrange(j as int + 1, n as int + 1) =~= seq![digit] + so);
            lemma_be_prepend(a@[j as int], sa);
            lemma_be_prepend(b@[j as int], sb);
            lemma_be_prepend(digit, so);
            assert(sa.len() == n - i);
            assert(pow256((n - j) as nat) == 256 * p);
            assert(t == digit + 256 * next);
            assert((digit + 256 * next) * p == digit * p + next * (256 * p)) by (nonlinear_arith);
            assert(t * p == a@[j as int] * p + b@[j as int] * p + carry * p) by (nonlinear_arith)
                requires
                    t == a@[j as int] + b@[j as int] + carry,
            ;
        }
        carry = next;
        i = j;
    }
    let ghost before = out@;
    out.set(0, carry as u8);
    proof {
        assert(out@.subrange(1, n as int + 1) =~= before.subrange(1, n as int + 1));
        assert(a@.subrange(0, n as int) =~= a@);
        assert(b@.subrange(0, n as int) =~= b@);
        let rest = out@.subrange(1, n as int + 1);
        assert(out@ =~= seq![carry as u8] + rest);
        lemma_be_prepend(carry as u8, rest);
    }
    out
}

/// Subtracts two big-endian numbers of the same width, modulo `256^len`;
/// `borrow` tells whether the true difference was negative.
pub fn sub_be(x: &[u8], y: &[u8]) -> (res: (Vec<u8>, bool))
    requires
        x@.len() == y@.len(),
    ensures
        res.0@.len() == x@.len(),
        be_value(x@) + (if res.1 {
            pow256(x@.len())
        } else {
            0
        }) == be_value(res.0@) + be_value(y@),
        res.1 <==> be_value(x@) < be_value(y@),
{
    let n = x.len();
    let mut out: Vec<u8> = vec![0u8; n];
    let mut borrow: u16 = 0;
    let mut i = n;
    proof {
        assert(x@.subrange(n as int, n as int) =~= Seq::<u8>::empty());
        assert(y@.subrange(n as int, n as int) =~= Seq::<u8>::empty());
        assert(out@.subrange(n as int, n as int) =~= Seq::<u8>::empty());
    }
    while i > 0
        invariant
            n == x@.len(),
            n == y@.len(),
            out@.len() == n,
            i <= n,
            borrow <= 1,
            be_value(x@.subrange(i as int, n as int)) + borrow * pow256((n - i) as nat)
                == be_value(out@.subrange(i as int, n as int)) + be_value(
                y@.subrange(i as int, n as int),
            ),
        decreases i,
    {
        let j = i - 1;
        let t: u16 = x[j] as u16 + 256 - y[j] as u16 - borrow;
        let digit = (t % 256) as u8;
        let next: u16 = 1 - t / 256;
        let ghost old_out = out@;
        out.set(j, digit);
        proof {
            let p = pow256((n - i) as nat);
            let sx = x@.subrange(i as int, n as int);
            let sy = y@.subrange(i as int, n as int);
            let so = old_out.subrange(i as int, n as int);
            assert(x@.subrange(j as int, n as int) =~= seq![x@[j as int]] + sx);
            assert(y@.subrange(j as int, n as int) =~= seq![y@[j as int]] + sy);
            assert(out@.subrange(j as int, n as int) =~= seq![digit] + so);
            lemma_be_prepend(x@[j as int], sx);
            lemma_be_prepend(y@[j as int], sy);
            lemma_be_prepend(digit, so);
            assert(sx.len() == n - i);
            assert(pow256((n - j) as nat) == 256 * p);
            assert(x@[j as int] + 256 * next == digit + y@[j as int] + borrow);
            assert(x@[j as int] * p + next * (256 * p) == digit * p + y@[j as int] * p + borrow * p)
                by (nonlinear_arith)
                requires
                    x@[j as int] + 256 * next == digit + y@[j as int] + borrow,
            ;
        }
        borrow = next;
        i = j;
    }
    proof {
        assert(x@.subrange(0, n as int) =~= x@);
        assert(y@.subrange(0, n as int) =~= y@);
        assert(out@.subrange(0, n as int) =~= out@);
        lemma_be_bound(out@);
        lemma_be_bound(y@);
        lemma_be_bound(x@);
    }
    (out, borrow == 1)
}

/// Reduces a big-endian number modulo a positive big-endian number of the same width.
pub fn mod_be(s: Vec<u8>, m: &[u8]) -> (r: Vec<u8>)
    requires
        s@.len() == m@.len(),
        be_value(m@) > 0,
    ensures
        r@.len() == s@.len(),
        be_value(r@) == be_value(s@) % be_value(m@),
{
    let mut cur = s;
    let ghost target = be_value(cur@) % be_value(m@);
    loop
        invariant
            cur@.len() == m@.len(),
            s@.len() == m@.len(),
            target == be_value(s@) % be_value(m@),
            be_value(m@) > 0,
            be_value(cur@) % be_value(m@) == target,
        decreases be_value(cur@),
    {
        let (d, borrow) = sub_be(cur.as_slice(), m);
        if borrow {
            proof {
                lemma_small_mod(be_value(cur@), be_value(m@));
            }
            return cur;
        }
        proof {
            lemma_mod_sub_multiples_vanish(be_value(cur@) as int, be_value(m@) as int);
            assert(be_value(d@) == -(be_value(m@) as int) + be_value(cur@));
        }
        cur = d;
    }
}

/// `(a + b) mod m` on 32-byte big-endian numbers.
pub fn add_mod_32(a: &[u8; 32], b: &[u8; 32], m: &[u8; 32]) -> (r: [u8; 32])
    requires
        be_value(m@) > 0,
    ensures
        be_value(r@) == (be_value(a@) + be_value(b@)) % be_value(m@),
{
    let sum = add_be(a.as_slice(), b.as_slice());
    let mut wide: Vec<u8> = Vec::new();
    wide.push(0u8);
    let mut k: usize = 0;
    while k < 32
        invariant
            0 <= k <= 32,
            wide@ =~= seq![0u8] + m@.subrange(0, k as int),
        decreases 32 - k,
    {
        wide.push(m[k]);
        proof {
            assert(m@.subrange(0, k as int + 1) =~= m@.subrange(0, k as int).push(m@[k as int]));
        }
        k += 1;
    }
    proof {
        assert(m@.subrange(0, 32) =~= m@);
        lemma_be_prepend(0u8, m@);
    }
    let red = mod_be(sum, wide.as_slice());
    let mut out = [0u8; 32];
    let mut i: usize = 0;
    while i < 32
        invariant
            0 <= i <= 32,
            red@.len() == 33,
            forall|q: int| 0 <= q < i ==> out@[q] == red@[q + 1],
        decreases 32 - i,
    {
        out[i] = red[i + 1];
        i += 1;
    }
    proof {
        let tail = red@.subrange(1, 33);
        assert(out@ =~= tail);
        assert(red@ =~= seq![red@[0]] + tail);
        lemma_be_prepend(red@[0], tail);
        lemma_be_bound(m@);
        lemma_mod_bound((be_value(a@) + be_value(b@)) as int, be_value(m@) as int);
        lemma_pow256_pos(32);
        if red@[0] > 0 {
            assert(red@[0] * pow256(32) >= pow256(32)) by (nonlinear_arith)
                requires
                    red@[0] > 0,
            ;
        }
    }
    out
}

/// Whether 32 bytes form a valid secp256k1 secret key (`0 < k < order`).
pub fn is_valid_secret_key(k: &[u8; 32]) -> (ok: bool)
    ensures
        ok == valid_secret_key(k@),
{
    let order = crate::primitives::secp256k1_curve_order();
    let zero = [0u8; 32];
    let (_d1, positive) = sub_be(zero.as_slice(), k.as_slice());
    let (_d2, below) = sub_be(k.as_slice(), order.as_slice());
    proof {
        assert(zero@ =~= Seq::new(32, |q: int| 0u8));
        lemma_be_zero(zero@);
    }
    positive && below
}

pub proof fn lemma_be_zero(s: Seq<u8>)
    requires
        forall|q: int| 0 <= q < s.len() ==> s[q] == 0,
    ensures
        be_value(s) == 0,
    decreases s.len(),
{
    if s.len() > 0 {
        lemma_be_zero(s.drop_last());
    }
}

/// Big-endian bytes of a `u32`.
pub fn u32_to_be(v: u32) -> (r: [u8; 4])
    ensures
        r@ == be_bytes(v as nat, 4),
{
    let r = [(v / 16777216) as u8, (v / 65536 % 256) as u8, (v / 256 % 256) as u8, (v % 256) as u8];
    proof {
        let n = v as nat;
        assert(n / 256 / 256 == n / 65536) by {
            lemma_div_denominator(n as int, 256, 256);
        }
        assert(n / 65536 / 256 == n / 16777216) by {
            lemma_div_denominator(n as int, 65536, 256);
        }
        assert(n / 16777216 < 256) by {
            lemma_div_by_multiple_is_strongly_ordered(n as int, 0x1_0000_0000, 16777216, 256);
        }
        assert(be_bytes(n, 4) =~= seq![(n / 16777216) as u8, (n / 65536 % 256) as u8, (n / 256 % 256) as u8, (n % 256) as u8]) by {
            reveal_with_fuel(be_bytes, 5);
            assert(n / 16777216 / 256 == 0);
        }
    }
    r
}

/// Little-endian value of four bytes.
pub open spec fn le_u32_value(s: Seq<u8>) -> nat {
    (s[0] + 256 * s[1] + 65536 * s[2] + 16777216 * s[3]) as nat
}

/// Reads a `u32` from the first four bytes of `s`, least significant first.
pub fn u32_from_le(s: &[u8]) -> (v: u32)
    requires
        s@.len() >= 4,
    ensures
        v == le_u32_value(s@),
{
    s[0] as u32 + 256 * (s[1] as u32) + 65536 * (s[2] as u32) + 16777216 * (s[3] as u32)
}

/// Copies `s[start..end]` into a new vector.
pub fn copy_range(s: &[u8], start: usize, end: usize) -> (r: Vec<u8>)
    requires
        start <= end <= s@.len(),
    ensures
        r@ == s@.subrange(start as int, end as int),
{
    let mut r: Vec<u8> = Vec::new();
    let mut i = start;
    while i < end
        invariant
            start <= i <= end,
            end <= s@.len(),
            r@ =~= s@.subrange(start as int, i as int),
        decreases end - i,
    {
        r.push(s[i]);
        i += 1;
    }
    r
}

/// Copies 32 bytes starting at `start` into an array.
pub fn array32_at(s: &[u8], start: usize) -> (r: [u8; 32])
    requires
        start + 32 <= s@.len(),
    ensures
        r@ == s@.subrange(start as int, start + 32),
{
    let mut out = [0u8; 32];
    let mut i: usize = 0;
    let len = s.len();
    while i < 32
        invariant
            0 <= i <= 32,
            len == s@.len(),
            start + 32 <= s@.len(),
            forall|q: int| 0 <= q < i ==> out@[q] == s@[start + q],
        decreases 32 - i,
    {
        out[i] = s[start + i];
        i += 1;
    }
    proof {
        assert(out@ =~= s@.subrange(start as int, start + 32));
    }
    out
}

} // verus!
