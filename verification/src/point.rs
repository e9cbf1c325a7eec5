//! Points of secp256k1, held in their uncompressed encoding.
use crate::bigint::{be_value, BigInt};
use crate::scalar::{group_order, FE};
use curv::arithmetic::traits::Converter;
use curv::elliptic::curves::{Point, Scalar, Secp256k1};
use vstd::prelude::*;

verus! {

/// The prime of the field over which secp256k1 is defined.
pub open spec fn field_prime() -> nat {
    0xFFFFFFFFFFFFFFFFFFFFFFFFFFFFFFFFFFFFFFFFFFFFFFFFFFFFFFFEFFFFFC2Fnat
}

/// The encoding of the point at infinity: 65 zero bytes.
pub open spec fn zero_point() -> Seq<u8> {
    Seq::new(65, |i: int| 0u8)
}

/// The x coordinate that an encoding holds in bytes 1 to 32.
pub open spec fn point_x(enc: Seq<u8>) -> nat {
    be_value(enc.subrange(1, 33))
}

/// The y coordinate that an encoding holds in bytes 33 to 64.
pub open spec fn point_y(enc: Seq<u8>) -> nat {
    be_value(enc.subrange(33, 65))
}

/// Whether `(x, y)` satisfies the curve equation `y^2 = x^3 + 7` in the field.
pub open spec fn on_curve(x: nat, y: nat) -> bool {
    x < field_prime() && y < field_prime() && (y * y) % field_prime() == (x * x * x + 7)
        % field_prime()
}

/// Whether 65 bytes encode a point of the group: the point at infinity, or the
/// byte 4 followed by the coordinates of a point on the curve.
pub open spec fn valid_point(enc: Seq<u8>) -> bool {
    enc.len() == 65 && (enc == zero_point() || (enc[0] == 4 && on_curve(
        point_x(enc),
        point_y(enc),
    )))
}

/// The encoding of the generator of the group.
pub open spec fn generator_point() -> Seq<u8> {
    seq![
        0x04u8, 0x79, 0xbe, 0x66, 0x7e, 0xf9, 0xdc, 0xbb, 0xac, 0x55, 0xa0, 0x62, 0x95, 0xce, 0x87,
        0x0b, 0x07, 0x02, 0x9b, 0xfc, 0xdb, 0x2d, 0xce, 0x28, 0xd9, 0x59, 0xf2, 0x81, 0x5b, 0x16,
        0xf8, 0x17, 0x98, 0x48, 0x3a, 0xda, 0x77, 0x26, 0xa3, 0xc4, 0x65, 0x5d, 0xa4, 0xfb, 0xfc,
        0x0e, 0x11, 0x08, 0xa8, 0xfd, 0x17, 0xb4, 0x48, 0xa6, 0x85, 0x54, 0x19, 0x9c, 0x47, 0xd0,
        0x8f, 0xfb, 0x10, 0xd4, 0xb8,
    ]
}

/// The encoding of `scalar * point`, as the curve library computes it.
pub uninterp spec fn ec_mul(point: Seq<u8>, scalar: nat) -> Seq<u8>;

/// The encoding of `a + b`, as the curve library computes it.
pub uninterp spec fn ec_add(a: Seq<u8>, b: Seq<u8>) -> Seq<u8>;

/// The encoding of `k * G`.
pub open spec fn ec_base(k: nat) -> Seq<u8> {
    ec_mul(generator_point(), k)
}

/// A point of the group, the point at infinity included.
#[derive(Clone, Copy, Debug)]
pub struct GE {
    pub(crate) bytes: [u8; 65],
}

impl View for GE {
    type V = Seq<u8>;

    closed spec fn view(&self) -> Seq<u8> {
        self.bytes@
    }
}

impl GE {
    /// A point is well formed when its bytes encode a point of the group.
    pub open spec fn wf(&self) -> bool {
        valid_point(self@)
    }

    /// The generator of the group.
    pub fn generator() -> (r: GE)
        ensures
            r.wf(),
            r@ == generator_point(),
    {
        ge_generator()
    }

    /// The point at infinity.
    pub fn zero() -> (r: GE)
        ensures
            r.wf(),
            r@ == zero_point(),
    {
        let r = GE { bytes: [0u8; 65] };
        assert(r.bytes@ =~= zero_point());
        r
    }

    /// The point that 65 bytes encode, if they encode one: either 65 zero
    /// bytes, or the byte 4 and the two coordinates of a point on the curve.
    pub fn from_bytes(bytes: &[u8]) -> (r: Option<GE>)
        ensures
            r is Some <==> valid_point(bytes@),
            r matches Some(p) ==> p.wf() && p@ == bytes@,
    {
        if bytes.len() != 65 {
            return None;
        }
        let mut all_zero = true;
        let mut i: usize = 0;
        while i < 65
            invariant
                i <= 65,
                bytes@.len() == 65,
                all_zero == (forall|j: int| 0 <= j < i ==> bytes@[j] == 0),
            decreases 65 - i,
        {
            if bytes[i] != 0 {
                all_zero = false;
            }
            i = i + 1;
        }
        if all_zero {
            let z = GE::zero();
            assert(bytes@ =~= zero_point());
            return Some(z);
        }
        assert(bytes@ != zero_point()) by {
            if bytes@ == zero_point() {
                assert(forall|j: int| 0 <= j < 65 ==> bytes@[j] == zero_point()[j]);
            }
        }
        if bytes[0] != 4 {
            return None;
        }
        ge_parse(bytes)
    }

    /// The 65 bytes of the encoding.
    pub fn to_bytes(&self) -> (r: Vec<u8>)
        ensures
            r@ == self@,
    {
        let mut out: Vec<u8> = Vec::new();
        let mut i: usize = 0;
        while i < 65
            invariant
                i <= 65,
                out@ == self.bytes@.subrange(0, i as int),
            decreases 65 - i,
        {
            out.push(self.bytes[i]);
            i = i + 1;
        }
        assert(out@ == self.bytes@);
        out
    }

    /// Whether two points are the same point.
    pub fn equals(&self, other: &GE) -> (r: bool)
        ensures
            r == (self@ == other@),
    {
        let mut i: usize = 0;
        while i < 65
            invariant
                i <= 65,
                forall|j: int| 0 <= j < i ==> self.bytes@[j] == other.bytes@[j],
            decreases 65 - i,
        {
            if self.bytes[i] != other.bytes[i] {
                return false;
            }
            i = i + 1;
        }
        assert(self.bytes@ =~= other.bytes@);
        true
    }

    /// Whether this is the point at infinity.
    pub fn is_zero(&self) -> (r: bool)
        ensures
            r == (self@ == zero_point()),
    {
        let z = GE::zero();
        self.equals(&z)
    }

    /// The x coordinate as a number; the point at infinity has none.
    pub fn x_coor(&self) -> (r: Option<BigInt>)
        ensures
            r is None <==> self@ == zero_point(),
            r matches Some(x) ==> x@ == point_x(self@),
    {
        if self.is_zero() {
            return None;
        }
        let mut out: Vec<u8> = Vec::new();
        let mut i: usize = 1;
        while i < 33
            invariant
                1 <= i <= 33,
                out@ == self.bytes@.subrange(1, i as int),
            decreases 33 - i,
        {
            out.push(self.bytes[i]);
            i = i + 1;
        }
        Some(BigInt { bytes: out })
    }

    /// `scalar * self`.
    pub fn scalar_mul(&self, scalar: &FE) -> (r: GE)
        requires
            self.wf(),
            scalar.wf(),
        ensures
            r.wf(),
            r@ == ec_mul(self@, scalar@),
    {
        ge_mul(self, scalar)
    }

    /// `self + other`. Where both are multiples of the generator, so is the
    /// sum, by the sum of the factors.
    pub fn add(&self, other: &GE) -> (r: GE)
        requires
            self.wf(),
            other.wf(),
        ensures
            r.wf(),
            r@ == ec_add(self@, other@),
            forall|j: nat, k: nat|
                #![trigger ec_base(j), ec_base(k)]
                j < group_order() && k < group_order() && self@ == ec_base(j) && other@ == ec_base(
                    k,
                ) ==> r@ == ec_mul(generator_point(), (j + k) % group_order()),
    {
        ge_add(self, other)
    }
}

/// Trusted: `Point::<Secp256k1>::generator`, taken as a point and encoded by
/// `to_bytes(false)`. The contract says that this is the standard generator
/// of secp256k1 in uncompressed form.
#[verifier::external_body]
fn ge_generator() -> (r: GE)
    ensures
        r.wf(),
        r@ == generator_point(),
{
    GE { bytes: (*Point::<Secp256k1>::generator().to_point().to_bytes(false)).try_into().unwrap() }
}

/// Trusted: `Point::<Secp256k1>::from_bytes` on 65 bytes that begin with the
/// byte 4. The library parses the two coordinates and accepts them if both are
/// under the field prime and satisfy the curve equation; the group has
/// cofactor one, so every such point belongs to it.
#[verifier::external_body]
fn ge_parse(bytes: &[u8]) -> (r: Option<GE>)
    requires
        bytes@.len() == 65,
        bytes@[0] == 4,
    ensures
        r is Some <==> on_curve(point_x(bytes@), point_y(bytes@)),
        r matches Some(p) ==> p.wf() && p@ == bytes@,
{
    Point::<Secp256k1>::from_bytes(bytes).ok().map(
        |p| GE { bytes: (*p.to_bytes(false)).try_into().unwrap() },
    )
}

/// Trusted: `*` of `Point<Secp256k1>` and `Scalar<Secp256k1>`. What it
/// returns is named `ec_mul`; the result is again a point of the group.
#[verifier::external_body]
fn ge_mul(p: &GE, s: &FE) -> (r: GE)
    requires
        p.wf(),
        s.wf(),
    ensures
        r.wf(),
        r@ == ec_mul(p@, s@),
{
    let x = Point::<Secp256k1>::from_bytes(&p.bytes).unwrap();
    let k = Scalar::<Secp256k1>::from_bigint(&curv::BigInt::from_bytes(&s.bytes));
    GE { bytes: (*(x * k).to_bytes(false)).try_into().unwrap() }
}

/// Trusted: `+` of `Point<Secp256k1>`. What it returns is named `ec_add`; the
/// result is again a point of the group. The last clause is the group law as
/// the library's source states it for points of the group: `aG + bG = (a +
/// b)G`.
#[verifier::external_body]
fn ge_add(a: &GE, b: &GE) -> (r: GE)
    requires
        a.wf(),
        b.wf(),
    ensures
        r.wf(),
        r@ == ec_add(a@, b@),
        forall|j: nat, k: nat|
            #![trigger ec_base(j), ec_base(k)]
            j < group_order() && k < group_order() && a@ == ec_base(j) && b@ == ec_base(k) ==> r@
                == ec_mul(generator_point(), (j + k) % group_order()),
{
    let x = Point::<Secp256k1>::from_bytes(&a.bytes).unwrap();
    let y = Point::<Secp256k1>::from_bytes(&b.bytes).unwrap();
    GE { bytes: (*(x + y).to_bytes(false)).try_into().unwrap() }
}

} // verus!
