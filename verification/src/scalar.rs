//! Scalars of secp256k1: the integers modulo the order of the curve's group.
use crate::bigint::{be_value, bytes_lt, lemma_be_value_zeros, BigInt};
use curv::arithmetic::traits::Converter;
use curv::elliptic::curves::{Scalar, Secp256k1};
use vstd::prelude::*;

verus! {

/// The order of the group of secp256k1, a prime.
pub open spec fn group_order() -> nat {
    0xFFFFFFFFFFFFFFFFFFFFFFFFFFFFFFFEBAAEDCE6AF48A03BBFD25E8CD0364141nat
}

/// The largest scalar that counts as low: `(q - 1) / 2`.
pub open spec fn half_order() -> nat {
    ((group_order() - 1) / 2) as nat
}

/// `(a + b) mod q`.
pub open spec fn fe_add(a: nat, b: nat) -> nat {
    (a + b) % group_order()
}

/// `(a - b) mod q`.
pub open spec fn fe_sub(a: nat, b: nat) -> nat {
    ((a - b) % (group_order() as int)) as nat
}

/// `(a * b) mod q`.
pub open spec fn fe_mul(a: nat, b: nat) -> nat {
    (a * b) % group_order()
}

/// `(-a) mod q`.
pub open spec fn fe_neg(a: nat) -> nat {
    fe_sub(0, a)
}

/// Whether `a` and `b` are inverse to each other modulo `q`.
pub open spec fn fe_inverse_of(a: nat, b: nat) -> bool {
    a < group_order() && b < group_order() && (a * b) % group_order() == 1
}

/// Whether `a` has an inverse modulo `q`.
pub open spec fn fe_invertible(a: nat) -> bool {
    exists|b: nat| fe_inverse_of(a, b)
}

/// The inverse of `a` modulo `q`, where `a` has one.
pub open spec fn fe_inv(a: nat) -> nat {
    choose|b: nat| fe_inverse_of(a, b)
}

/// The representative that ECDSA calls low: of `t` and `-t`, the smaller.
pub open spec fn fe_low(t: nat) -> nat {
    if t <= fe_neg(t) {
        t
    } else {
        fe_neg(t)
    }
}

/// A scalar: an integer `0 <= s < q`, held as 32 big-endian bytes.
#[derive(Clone, Copy, Debug)]
pub struct FE {
    pub(crate) bytes: [u8; 32],
}

impl View for FE {
    type V = nat;

    closed spec fn view(&self) -> nat {
        be_value(self.bytes@)
    }
}

impl FE {
    /// A scalar is well formed when its value is under the group order.
    pub open spec fn wf(&self) -> bool {
        self@ < group_order()
    }

    /// A fresh scalar drawn at random; it is never zero.
    pub fn new_random() -> (r: FE)
        ensures
            r.wf(),
            r@ != 0,
    {
        fe_random()
    }

    /// The scalar `n mod q`.
    pub fn from_bigint(n: &BigInt) -> (r: FE)
        ensures
            r.wf(),
            r@ == n@ % group_order(),
    {
        fe_reduce(n.bytes.as_slice())
    }

    /// The value of the scalar as a number.
    pub fn to_bigint(&self) -> (r: BigInt)
        ensures
            r@ == self@,
            r.bytes@.len() == 32,
    {
        let mut bytes: Vec<u8> = Vec::new();
        let mut i: usize = 0;
        while i < 32
            invariant
                i <= 32,
                bytes@ == self.bytes@.subrange(0, i as int),
            decreases 32 - i,
        {
            bytes.push(self.bytes[i]);
            i = i + 1;
        }
        assert(bytes@ == self.bytes@);
        BigInt { bytes }
    }

    /// The order of the group, as a number.
    pub fn q() -> (r: BigInt)
        ensures
            r@ == group_order(),
    {
        fe_group_order()
    }

    /// The scalar zero.
    pub fn zero() -> (r: FE)
        ensures
            r.wf(),
            r@ == 0,
    {
        let r = FE { bytes: [0u8; 32] };
        proof {
            lemma_be_value_zeros(r.bytes@);
        }
        r
    }

    /// Whether two scalars are the same number.
    pub fn equals(&self, other: &FE) -> (r: bool)
        ensures
            r == (self@ == other@),
    {
        !bytes_lt(self.bytes.as_slice(), other.bytes.as_slice()) && !bytes_lt(
            other.bytes.as_slice(),
            self.bytes.as_slice(),
        )
    }

    /// Whether `self <= other` as numbers.
    pub fn le(&self, other: &FE) -> (r: bool)
        ensures
            r == (self@ <= other@),
    {
        !bytes_lt(other.bytes.as_slice(), self.bytes.as_slice())
    }

    /// `(self + other) mod q`.
    pub fn add(&self, other: &FE) -> (r: FE)
        requires
            self.wf(),
            other.wf(),
        ensures
            r.wf(),
            r@ == fe_add(self@, other@),
    {
        fe_add_exec(self, other)
    }

    /// `(self - other) mod q`.
    pub fn sub(&self, other: &FE) -> (r: FE)
        requires
            self.wf(),
            other.wf(),
        ensures
            r.wf(),
            r@ == fe_sub(self@, other@),
    {
        fe_sub_exec(self, other)
    }

    /// `(self * other) mod q`.
    pub fn mul(&self, other: &FE) -> (r: FE)
        requires
            self.wf(),
            other.wf(),
        ensures
            r.wf(),
            r@ == fe_mul(self@, other@),
    {
        fe_mul_exec(self, other)
    }

    /// `(-self) mod q`.
    pub fn neg(&self) -> (r: FE)
        requires
            self.wf(),
        ensures
            r.wf(),
            r@ == fe_neg(self@),
    {
        let z = FE::zero();
        fe_sub_exec(&z, self)
    }

    /// The inverse modulo `q`; zero has none.
    pub fn invert(&self) -> (r: Option<FE>)
        requires
            self.wf(),
        ensures
            r is None <==> self@ == 0,
            r matches Some(i) ==> i.wf() && fe_inverse_of(self@, i@) && i@ == fe_inv(self@),
    {
        let r = fe_invert_exec(self);
        proof {
            if let Some(i) = r {
                lemma_inverse_unique(self@, i@, fe_inv(self@));
            }
        }
        r
    }

    /// Of `self` and `-self`, the smaller: the low representative.
    pub fn low(&self) -> (r: FE)
        requires
            self.wf(),
        ensures
            r.wf(),
            r@ == fe_low(self@),
            r@ <= half_order(),
    {
        let n = self.neg();
        if self.le(&n) {
            *self
        } else {
            n
        }
    }

    /// Whether the scalar is low: `self <= (q - 1) / 2`.
    pub fn is_low(&self) -> (r: bool)
        requires
            self.wf(),
        ensures
            r == (self@ <= half_order()),
    {
        let n = self.neg();
        self.le(&n)
    }
}

/// A number has at most one inverse modulo `q`.
pub proof fn lemma_inverse_unique(a: nat, b: nat, c: nat)
    requires
        fe_inverse_of(a, b),
    ensures
        fe_inverse_of(a, c) ==> b == c,
        fe_invertible(a),
        fe_inverse_of(a, fe_inv(a)),
        fe_inv(a) == b,
{
    let q = group_order() as int;
    assert forall|c2: nat| fe_inverse_of(a, c2) implies b == c2 by {
        // b = b * (a * c2) = (b * a) * c2 = c2  (mod q)
        vstd::arithmetic::div_mod::lemma_mul_mod_noop_right(b as int, (a * c2) as int, q);
        vstd::arithmetic::div_mod::lemma_mul_mod_noop_left((b * a) as int, c2 as int, q);
        vstd::arithmetic::mul::lemma_mul_is_associative(b as int, a as int, c2 as int);
        vstd::arithmetic::mul::lemma_mul_is_commutative(a as int, b as int);
        assert((b * ((a * c2) % (q as nat))) % (q as nat) == (b * (a * c2)) % (q as nat));
        assert((((b * a) % (q as nat)) * c2) % (q as nat) == ((b * a) * c2) % (q as nat));
        assert(b * 1 == b);
        assert(1 * c2 == c2);
        vstd::arithmetic::div_mod::lemma_small_mod(b, q as nat);
        vstd::arithmetic::div_mod::lemma_small_mod(c2, q as nat);
    }
}

/// Multiplication modulo `q` is commutative.
pub proof fn lemma_fe_mul_commutative(a: nat, b: nat)
    ensures
        fe_mul(a, b) == fe_mul(b, a),
{
    vstd::arithmetic::mul::lemma_mul_is_commutative(a as int, b as int);
}

/// Multiplication modulo `q` is associative.
pub proof fn lemma_fe_mul_associative(a: nat, b: nat, c: nat)
    ensures
        fe_mul(a, fe_mul(b, c)) == fe_mul(fe_mul(a, b), c),
{
    let q = group_order() as int;
    vstd::arithmetic::div_mod::lemma_mul_mod_noop_right(a as int, (b * c) as int, q);
    vstd::arithmetic::div_mod::lemma_mul_mod_noop_left((a * b) as int, c as int, q);
    vstd::arithmetic::mul::lemma_mul_is_associative(a as int, b as int, c as int);
}

/// One is the unit of the multiplication modulo `q`.
pub proof fn lemma_fe_mul_one(c: nat)
    requires
        c < group_order(),
    ensures
        fe_mul(1, c) == c,
        fe_mul(c, 1) == c,
{
    assert(1 * c == c);
    assert(c * 1 == c);
    vstd::arithmetic::div_mod::lemma_small_mod(c, group_order());
}

/// A factor and its inverse cancel: `(1 / s) (s c) = c`.
pub proof fn lemma_fe_mul_cancel(s: nat, si: nat, c: nat)
    requires
        fe_inverse_of(s, si),
        c < group_order(),
    ensures
        fe_mul(si, fe_mul(s, c)) == c,
{
    lemma_fe_mul_associative(si, s, c);
    lemma_fe_mul_commutative(si, s);
    lemma_fe_mul_one(c);
}

/// Adding and then taking away the same scalar changes nothing.
pub proof fn lemma_fe_add_sub_cancel(a: nat, y: nat)
    requires
        a < group_order(),
        y < group_order(),
    ensures
        fe_sub(fe_add(a, y), y) == a,
{
    let q = group_order() as int;
    vstd::arithmetic::div_mod::lemma_sub_mod_noop((a + y) as int, y as int, q);
    vstd::arithmetic::div_mod::lemma_small_mod(y, group_order());
    vstd::arithmetic::div_mod::lemma_small_mod(a, group_order());
}

/// Negating twice changes nothing.
pub proof fn lemma_fe_neg_neg(x: nat)
    requires
        x < group_order(),
    ensures
        fe_neg(fe_neg(x)) == x,
{
}

/// A product with a negated factor is the negated product.
pub proof fn lemma_fe_mul_neg(a: nat, x: nat)
    requires
        a < group_order(),
        x < group_order(),
    ensures
        fe_mul(a, fe_neg(x)) == fe_neg(fe_mul(a, x)),
{
    let q = group_order() as int;
    let p = (a * x) as int;
    if x == 0 {
        assert(a * 0 == 0);
    } else {
        // a (q - x) = a q - a x, and multiples of q vanish
        assert(fe_neg(x) == q - x);
        assert(a * (q - x) == a * q - a * x) by (nonlinear_arith);
        vstd::arithmetic::div_mod::lemma_mod_multiples_vanish(a as int, -p, q);
        assert(a * q + (-p) == a * (q - x));
        assert((a * (q - x)) % q == (-p) % q);
        vstd::arithmetic::div_mod::lemma_sub_mod_noop_right(0, p, q);
        assert((0 - (p % q)) % q == (0 - p) % q);
    }
}

/// The inverse of a product is the product of the inverses.
pub proof fn lemma_fe_mul_inverse(a: nat, ai: nat, b: nat, bi: nat)
    requires
        fe_inverse_of(a, ai),
        fe_inverse_of(b, bi),
    ensures
        fe_inverse_of(fe_mul(a, b), fe_mul(ai, bi)),
{
    let q = group_order();
    // (a b)(ai bi) = a (b (ai bi)) = a (ai (b bi)) = a ai = 1
    lemma_fe_mul_associative(a, b, fe_mul(ai, bi));
    lemma_fe_mul_commutative(ai, bi);
    lemma_fe_mul_cancel(b, bi, ai);
    assert(fe_mul(bi, fe_mul(b, ai)) == ai);
    lemma_fe_mul_associative(b, bi, ai);
    lemma_fe_mul_associative(bi, b, ai);
    lemma_fe_mul_commutative(b, bi);
    assert(fe_mul(b, fe_mul(bi, ai)) == ai);
    assert(fe_mul(fe_mul(a, b), fe_mul(ai, bi)) == fe_mul(a, ai));
    assert((fe_mul(a, b) * fe_mul(ai, bi)) % q == 1);
}

/// A scalar with an inverse is not zero.
pub proof fn lemma_invertible_nonzero(a: nat)
    requires
        fe_invertible(a),
    ensures
        a != 0,
        a < group_order(),
        fe_inverse_of(a, fe_inv(a)),
{
    let b = fe_inv(a);
    if a == 0 {
        assert(0 * b == 0);
    }
}


/// The negation of an inverse is the inverse of the negation.
pub proof fn lemma_fe_neg_inverse(a: nat, b: nat)
    requires
        fe_inverse_of(a, b),
    ensures
        fe_inverse_of(fe_neg(a), fe_neg(b)),
{
    lemma_fe_mul_neg(fe_neg(a), b);
    lemma_fe_mul_commutative(fe_neg(a), b);
    lemma_fe_mul_neg(b, a);
    lemma_fe_mul_commutative(b, a);
    assert(fe_mul(a, b) == 1);
    lemma_fe_neg_neg(1);
    assert(fe_mul(fe_neg(a), fe_neg(b)) == 1);
}

/// The low form of a quotient `w / c`, multiplied by `c` again, is `w` or
/// `-w`; and it has an inverse where `w` has one.
pub proof fn lemma_fe_low_opens(w: nat, c: nat)
    requires
        fe_invertible(w),
        fe_invertible(c),
    ensures
        fe_mul(fe_low(fe_mul(w, fe_inv(c))), c) == w || fe_mul(fe_low(fe_mul(w, fe_inv(c))), c)
            == fe_neg(w),
        fe_invertible(fe_low(fe_mul(w, fe_inv(c)))),
{
    lemma_invertible_nonzero(w);
    lemma_invertible_nonzero(c);
    let ci = fe_inv(c);
    let t = fe_mul(w, ci);
    // t c = w
    lemma_fe_mul_commutative(t, c);
    lemma_fe_mul_commutative(w, ci);
    assert(fe_inverse_of(ci, c)) by {
        vstd::arithmetic::mul::lemma_mul_is_commutative(ci as int, c as int);
    }
    lemma_fe_mul_cancel(ci, c, w);
    lemma_fe_mul_associative(c, ci, w);
    lemma_fe_mul_associative(ci, c, w);
    lemma_fe_mul_commutative(c, ci);
    assert(fe_mul(t, c) == w);
    // (-t) c = -w
    lemma_fe_mul_neg(c, t);
    lemma_fe_mul_commutative(c, fe_neg(t));
    assert(fe_mul(fe_neg(t), c) == fe_neg(w));
    // t has the inverse c / w
    lemma_fe_mul_inverse(w, fe_inv(w), ci, c);
    assert(fe_inverse_of(t, fe_mul(fe_inv(w), c)));
    lemma_fe_neg_inverse(t, fe_mul(fe_inv(w), c));
}

/// Trusted: `Scalar::<Secp256k1>::group_order`, which the library reads from
/// the curve's constants. The contract says that it is the order of secp256k1.
#[verifier::external_body]
fn fe_group_order() -> (r: BigInt)
    ensures
        r@ == group_order(),
{
    BigInt { bytes: Scalar::<Secp256k1>::group_order().to_bytes() }
}

/// Trusted: `Scalar::<Secp256k1>::random`, which draws secret keys until one
/// is not zero. Only that much is promised of the outcome.
#[verifier::external_body]
fn fe_random() -> (r: FE)
    ensures
        r.wf(),
        r@ != 0,
{
    FE { bytes: Scalar::<Secp256k1>::random().to_bigint().to_bytes_array::<32>().unwrap() }
}

/// Trusted: `Scalar::<Secp256k1>::from_bigint` on the number that
/// `curv::BigInt::from_bytes` reads from the bytes. The source reduces the
/// number modulo the group order; the contract says so.
#[verifier::external_body]
fn fe_reduce(bytes: &[u8]) -> (r: FE)
    ensures
        r.wf(),
        r@ == be_value(bytes@) % group_order(),
{
    let s = Scalar::<Secp256k1>::from_bigint(&curv::BigInt::from_bytes(bytes));
    FE { bytes: s.to_bigint().to_bytes_array::<32>().unwrap() }
}

/// Trusted: `+` of `Scalar<Secp256k1>`, addition modulo the group order.
#[verifier::external_body]
fn fe_add_exec(a: &FE, b: &FE) -> (r: FE)
    requires
        a.wf(),
        b.wf(),
    ensures
        r.wf(),
        r@ == fe_add(a@, b@),
{
    let x = Scalar::<Secp256k1>::from_bigint(&curv::BigInt::from_bytes(&a.bytes));
    let y = Scalar::<Secp256k1>::from_bigint(&curv::BigInt::from_bytes(&b.bytes));
    FE { bytes: (x + y).to_bigint().to_bytes_array::<32>().unwrap() }
}

/// Trusted: `-` of `Scalar<Secp256k1>`, subtraction modulo the group order.
#[verifier::external_body]
fn fe_sub_exec(a: &FE, b: &FE) -> (r: FE)
    requires
        a.wf(),
        b.wf(),
    ensures
        r.wf(),
        r@ == fe_sub(a@, b@),
{
    let x = Scalar::<Secp256k1>::from_bigint(&curv::BigInt::from_bytes(&a.bytes));
    let y = Scalar::<Secp256k1>::from_bigint(&curv::BigInt::from_bytes(&b.bytes));
    FE { bytes: (x - y).to_bigint().to_bytes_array::<32>().unwrap() }
}

/// Trusted: `*` of `Scalar<Secp256k1>`, multiplication modulo the group order.
#[verifier::external_body]
fn fe_mul_exec(a: &FE, b: &FE) -> (r: FE)
    requires
        a.wf(),
        b.wf(),
    ensures
        r.wf(),
        r@ == fe_mul(a@, b@),
{
    let x = Scalar::<Secp256k1>::from_bigint(&curv::BigInt::from_bytes(&a.bytes));
    let y = Scalar::<Secp256k1>::from_bigint(&curv::BigInt::from_bytes(&b.bytes));
    FE { bytes: (x * y).to_bigint().to_bytes_array::<32>().unwrap() }
}

/// Trusted: `Scalar::<Secp256k1>::invert`, documented to return the inverse
/// modulo the group order, or `None` if the scalar is zero.
#[verifier::external_body]
fn fe_invert_exec(a: &FE) -> (r: Option<FE>)
    requires
        a.wf(),
    ensures
        r is None <==> a@ == 0,
        r matches Some(i) ==> fe_inverse_of(a@, i@),
{
    let x = Scalar::<Secp256k1>::from_bigint(&curv::BigInt::from_bytes(&a.bytes));
    x.invert().map(|i| FE { bytes: i.to_bigint().to_bytes_array::<32>().unwrap() })
}

} // verus!
