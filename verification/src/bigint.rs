//! Natural numbers of any size, held as big-endian bytes.
use curv::arithmetic::traits::{Converter, Samplable};
use vstd::prelude::*;

verus! {

/// The number that a byte string denotes when read most significant byte first.
/// Leading zero bytes do not change it, and the empty string denotes zero.
pub open spec fn be_value(bytes: Seq<u8>) -> nat
    decreases bytes.len(),
{
    if bytes.len() == 0 {
        0
    } else {
        be_value(bytes.drop_last()) * 256 + bytes.last() as nat
    }
}

/// `2^bits`, as the bound of a sample of that many bits.
pub open spec fn two_to(bits: nat) -> nat
    decreases bits,
{
    if bits == 0 {
        1
    } else {
        2 * two_to((bits - 1) as nat)
    }
}

/// A natural number of any size. The bytes are its big-endian digits; two
/// values with different bytes may denote the same number.
#[derive(Debug)]
pub struct BigInt {
    pub bytes: Vec<u8>,
}

impl View for BigInt {
    type V = nat;

    open spec fn view(&self) -> nat {
        be_value(self.bytes@)
    }
}

impl Clone for BigInt {
    fn clone(&self) -> (r: Self)
        ensures
            r.bytes@ == self.bytes@,
            r@ == self@,
    {
        BigInt { bytes: self.bytes.clone() }
    }
}

impl BigInt {
    /// The number whose big-endian digits are `bytes`.
    pub fn from_bytes(bytes: Vec<u8>) -> (r: BigInt)
        ensures
            r.bytes@ == bytes@,
            r@ == be_value(bytes@),
    {
        BigInt { bytes }
    }

    /// The digits this value holds, most significant first.
    pub fn to_bytes(&self) -> (r: Vec<u8>)
        ensures
            r@ == self.bytes@,
            be_value(r@) == self@,
    {
        self.bytes.clone()
    }

    /// Whether two values denote the same number.
    pub fn same_value(&self, other: &BigInt) -> (r: bool)
        ensures
            r == (self@ == other@),
    {
        !bytes_lt(self.bytes.as_slice(), other.bytes.as_slice()) && !bytes_lt(
            other.bytes.as_slice(),
            self.bytes.as_slice(),
        )
    }

    /// Whether this number is smaller than `other`.
    pub fn lt(&self, other: &BigInt) -> (r: bool)
        ensures
            r == (self@ < other@),
    {
        bytes_lt(self.bytes.as_slice(), other.bytes.as_slice())
    }
}

/// A string of zero bytes denotes zero.
pub proof fn lemma_be_value_zeros(s: Seq<u8>)
    requires
        forall|i: int| 0 <= i < s.len() ==> s[i] == 0,
    ensures
        be_value(s) == 0,
    decreases s.len(),
{
    if s.len() > 0 {
        lemma_be_value_zeros(s.drop_last());
    }
}

/// `256^n`: one more than the largest number of `n` bytes.
pub open spec fn pow256(n: nat) -> nat
    decreases n,
{
    if n == 0 {
        1
    } else {
        256 * pow256((n - 1) as nat)
    }
}

/// `256^n` grows with `n`.
pub proof fn lemma_pow256_monotonic(a: nat, b: nat)
    requires
        a <= b,
    ensures
        pow256(a) <= pow256(b),
    decreases b,
{
    if a < b {
        lemma_pow256_monotonic(a, (b - 1) as nat);
    }
}

/// A string of `n` bytes denotes a number under `256^n`.
pub proof fn lemma_be_value_bound(s: Seq<u8>)
    ensures
        be_value(s) < pow256(s.len()),
    decreases s.len(),
{
    if s.len() > 0 {
        lemma_be_value_bound(s.drop_last());
    }
}

/// A string of `n` bytes whose first byte is not zero denotes a number of at
/// least `256^(n - 1)`.
pub proof fn lemma_be_value_lower(s: Seq<u8>)
    requires
        s.len() > 0,
        s[0] != 0,
    ensures
        be_value(s) >= pow256((s.len() - 1) as nat),
    decreases s.len(),
{
    if s.len() > 1 {
        lemma_be_value_lower(s.drop_last());
    } else {
        assert(be_value(s.drop_last()) == 0);
    }
}

/// A leading zero byte does not change the number.
pub proof fn lemma_be_value_leading_zero(s: Seq<u8>)
    requires
        s.len() > 0,
        s[0] == 0,
    ensures
        be_value(s) == be_value(s.drop_first()),
    decreases s.len(),
{
    if s.len() > 1 {
        lemma_be_value_leading_zero(s.drop_last());
        assert(s.drop_first().drop_last() =~= s.drop_last().drop_first());
    } else {
        assert(be_value(s.drop_last()) == 0);
    }
}

/// Of two strings of one length, the one with the smaller byte at the first
/// place where they differ denotes the smaller number.
pub proof fn lemma_be_value_lexicographic(a: Seq<u8>, b: Seq<u8>, i: int)
    requires
        a.len() == b.len(),
        0 <= i < a.len(),
        forall|j: int| 0 <= j < i ==> a[j] == b[j],
        a[i] < b[i],
    ensures
        be_value(a) < be_value(b),
    decreases a.len(),
{
    if i == a.len() - 1 {
        assert(a.drop_last() =~= b.drop_last());
    } else {
        lemma_be_value_lexicographic(a.drop_last(), b.drop_last(), i);
    }
}

/// The number of leading zero bytes: what follows them denotes the same
/// number and does not begin with a zero byte.
fn leading_zeros(a: &[u8]) -> (k: usize)
    ensures
        k <= a@.len(),
        be_value(a@.subrange(k as int, a@.len() as int)) == be_value(a@),
        k < a@.len() ==> a@[k as int] != 0,
{
    let mut k: usize = 0;
    assert(a@.subrange(0, a@.len() as int) =~= a@);
    while k < a.len() && a[k] == 0
        invariant
            k <= a@.len(),
            be_value(a@.subrange(k as int, a@.len() as int)) == be_value(a@),
        decreases a@.len() - k,
    {
        proof {
            let rest = a@.subrange(k as int, a@.len() as int);
            lemma_be_value_leading_zero(rest);
            assert(rest.drop_first() =~= a@.subrange(k + 1, a@.len() as int));
        }
        k = k + 1;
    }
    k
}

/// Whether the number that `a` denotes is smaller than the one that `b`
/// denotes. Leading zeros are passed over; then the shorter string is the
/// smaller number, and strings of one length compare byte by byte.
pub fn bytes_lt(a: &[u8], b: &[u8]) -> (r: bool)
    ensures
        r == (be_value(a@) < be_value(b@)),
{
    let i = leading_zeros(a);
    let j = leading_zeros(b);
    let la = a.len() - i;
    let lb = b.len() - j;
    proof {
        let sa = a@.subrange(i as int, a@.len() as int);
        let sb = b@.subrange(j as int, b@.len() as int);
        lemma_be_value_bound(sa);
        lemma_be_value_bound(sb);
        if la > 0 {
            lemma_be_value_lower(sa);
        }
        if lb > 0 {
            lemma_be_value_lower(sb);
        }
        if la < lb {
            lemma_pow256_monotonic(la as nat, (lb - 1) as nat);
        }
        if lb < la {
            lemma_pow256_monotonic(lb as nat, (la - 1) as nat);
        }
    }
    if la != lb {
        return la < lb;
    }
    assert(a@.len() == a.len() && b@.len() == b.len());
    let mut k: usize = 0;
    while k < la
        invariant
            k <= la,
            la == lb,
            i + la == a@.len(),
            j + lb == b@.len(),
            a@.len() <= usize::MAX,
            b@.len() <= usize::MAX,
            be_value(a@.subrange(i as int, a@.len() as int)) == be_value(a@),
            be_value(b@.subrange(j as int, b@.len() as int)) == be_value(b@),
            forall|t: int|
                0 <= t < k ==> a@.subrange(i as int, a@.len() as int)[t] == b@.subrange(
                    j as int,
                    b@.len() as int,
                )[t],
        decreases la - k,
    {
        let x = a[i + k];
        let y = b[j + k];
        if x != y {
            proof {
                let sa = a@.subrange(i as int, a@.len() as int);
                let sb = b@.subrange(j as int, b@.len() as int);
                if x < y {
                    lemma_be_value_lexicographic(sa, sb, k as int);
                } else {
                    lemma_be_value_lexicographic(sb, sa, k as int);
                }
            }
            return x < y;
        }
        k = k + 1;
    }
    assert(a@.subrange(i as int, a@.len() as int) =~= b@.subrange(j as int, b@.len() as int));
    false
}

/// Trusted: `curv::BigInt`'s `*`. The contract says that the product of the
/// two numbers comes back, as big-endian bytes from `to_bytes`.
#[verifier::external_body]
pub(crate) fn big_mul(a: &BigInt, b: &BigInt) -> (r: BigInt)
    ensures
        r@ == a@ * b@,
{
    let p = curv::BigInt::from_bytes(&a.bytes) * curv::BigInt::from_bytes(&b.bytes);
    BigInt { bytes: p.to_bytes() }
}

/// Trusted: `curv::BigInt`'s `+`. The contract says that the sum of the two
/// numbers comes back, as big-endian bytes from `to_bytes`.
#[verifier::external_body]
pub(crate) fn big_add(a: &BigInt, b: &BigInt) -> (r: BigInt)
    ensures
        r@ == a@ + b@,
{
    let s = curv::BigInt::from_bytes(&a.bytes) + curv::BigInt::from_bytes(&b.bytes);
    BigInt { bytes: s.to_bytes() }
}

/// Trusted: `curv::BigInt::sample_below`, which draws from the operating
/// system's generator until a number under `upper` comes up, and panics when
/// `upper` is zero. Only the range is promised of the outcome.
#[verifier::external_body]
pub(crate) fn big_sample_below(upper: &BigInt) -> (r: BigInt)
    requires
        upper@ > 0,
    ensures
        r@ < upper@,
{
    let n = curv::BigInt::sample_below(&curv::BigInt::from_bytes(&upper.bytes));
    BigInt { bytes: n.to_bytes() }
}

/// Trusted: `curv::BigInt::sample`, which fills `bits` bits from the operating
/// system's generator. Only the range is promised of the outcome.
#[verifier::external_body]
pub(crate) fn big_sample(bits: usize) -> (r: BigInt)
    ensures
        r@ < two_to(bits as nat),
{
    BigInt { bytes: curv::BigInt::sample(bits).to_bytes() }
}

} // verus!
