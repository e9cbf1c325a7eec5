//! The release cascade: from the signature of the next hop, a hop derives its
//! own. And the verification of an ECDSA signature in low form.
use crate::chain::{ChainLink, ChainLinkUn};
use crate::error::LockError;
use crate::point::{ec_add, ec_base, ec_mul, point_x, zero_point, GE};
use crate::scalar::{fe_inv, fe_low, fe_mul, fe_neg, fe_sub, half_order, FE};
use vstd::prelude::*;

verus! {

/// The left side of a hop: the signature it is to produce. `w_0` is `r`, the
/// x coordinate of the nonce; `w_1` is the pre-signature, still locked by the
/// adaptor point to the left; `pk` is the joint public key.
#[derive(Clone, Copy, Debug)]
pub struct SL {
    pub w_0: FE,
    pub w_1: FE,
    pub pk: GE,
}

/// The right side of a hop: the pre-signature of the lock to the right, and
/// the message.
#[derive(Clone, Copy, Debug)]
pub struct SR {
    pub s_tag: FE,
    pub message: FE,
}

/// An ECDSA signature `(r, s)`.
#[derive(Clone, Copy, Debug)]
pub struct K {
    pub r: FE,
    pub s: FE,
}

/// What a signature is verified against: the message and the public key.
#[derive(Clone, Copy, Debug)]
pub struct L {
    pub m: FE,
    pub pk: GE,
}

/// The release cascade.
#[derive(Clone, Copy, Debug)]
pub struct Release {}

impl SL {
    /// Well formed when the scalars and the point are.
    pub open spec fn wf(&self) -> bool {
        self.w_0.wf() && self.w_1.wf() && self.pk.wf()
    }
}

impl SR {
    /// Well formed when the scalars are.
    pub open spec fn wf(&self) -> bool {
        self.s_tag.wf() && self.message.wf()
    }
}

impl K {
    /// Well formed when the scalars are.
    pub open spec fn wf(&self) -> bool {
        self.r.wf() && self.s.wf()
    }
}

impl L {
    /// Well formed when the scalar and the point are.
    pub open spec fn wf(&self) -> bool {
        self.m.wf() && self.pk.wf()
    }
}

/// The point `(m / s) G + (r / s) pk`, given the inverse of `s`.
pub open spec fn signature_point(m: nat, pk: Seq<u8>, r: nat, s_inv: nat) -> Seq<u8> {
    ec_add(ec_mul(ec_base(m), s_inv), ec_mul(ec_mul(pk, r), s_inv))
}

/// Whether `(r, s)` is a signature of `m` under `pk` in low form: `s` is not
/// zero and at most `(q - 1) / 2`, and the signature point has `r` as its x
/// coordinate, compared as integers.
pub open spec fn accepts(m: nat, pk: Seq<u8>, r: nat, s: nat) -> bool {
    &&& s != 0
    &&& s <= half_order()
    &&& signature_point(m, pk, r, fe_inv(s)) != zero_point()
    &&& point_x(signature_point(m, pk, r, fe_inv(s))) == r
}

/// The signature scalar that one sign of the release proposes: with `ratio`
/// the quotient of the pre-signature to the right by the signature to the
/// right, `w_1 / (ratio - y)` in low form. There is none where `ratio` is `y`.
pub open spec fn release_candidate(w_1: nat, ratio: nat, y: nat) -> Option<nat> {
    if fe_sub(ratio, y) == 0 {
        None
    } else {
        Some(fe_low(fe_mul(w_1, fe_inv(fe_sub(ratio, y)))))
    }
}

/// The scalar that the release returns: the candidate of the quotient `s_tag
/// / s` if `vf` accepts it with `w_0`, else the candidate of the negated
/// quotient if `vf` accepts that, else none. A zero `s` has no quotient.
pub open spec fn released(
    y: nat,
    s: nat,
    s_tag: nat,
    w_0: nat,
    w_1: nat,
    m: nat,
    pk: Seq<u8>,
) -> Option<nat> {
    if s == 0 {
        None
    } else {
        let ratio = fe_mul(fe_inv(s), s_tag);
        let first = release_candidate(w_1, ratio, y);
        let second = release_candidate(w_1, fe_neg(ratio), y);
        if first is Some && accepts(m, pk, w_0, first->0) {
            first
        } else if second is Some && accepts(m, pk, w_0, second->0) {
            second
        } else {
            None
        }
    }
}

/// The scalar that the release of the last hop returns: the pre-signature of
/// the last lock is first opened with the inverse of the chain's full secret.
pub open spec fn released_last(
    y: nat,
    k_n: nat,
    w_1_n: nat,
    s_tag: nat,
    w_0: nat,
    w_1: nat,
    m: nat,
    pk: Seq<u8>,
) -> Option<nat> {
    if k_n == 0 {
        None
    } else {
        released(y, fe_mul(fe_inv(k_n), w_1_n), s_tag, w_0, w_1, m, pk)
    }
}

/// Verifies the signature `k` against `l`, in low form only.
pub fn vf(l: &L, k: &K) -> (r: Result<(), LockError>)
    requires
        l.wf(),
        k.wf(),
    ensures
        r is Ok <==> accepts(l.m@, l.pk@, k.r@, k.s@),
        r matches Err(e) ==> e == LockError::InvalidSignature,
{
    let s_inv = match k.s.invert() {
        Some(i) => i,
        None => {
            return Err(LockError::InvalidSignature);
        },
    };
    let g = GE::generator();
    let m_s_inv_g = g.scalar_mul(&l.m).scalar_mul(&s_inv);
    let r_s_inv_pk = l.pk.scalar_mul(&k.r).scalar_mul(&s_inv);
    let rhs = m_s_inv_g.add(&r_s_inv_pk);
    assert(rhs@ == signature_point(l.m@, l.pk@, k.r@, fe_inv(k.s@)));
    match rhs.x_coor() {
        Some(x) => {
            if k.r.to_bigint().same_value(&x) && k.s.is_low() {
                Ok(())
            } else {
                Err(LockError::InvalidSignature)
            }
        },
        None => Err(LockError::InvalidSignature),
    }
}

impl Release {
    /// One sign of the release: the candidate for `ratio`, if there is one
    /// and `vf` accepts it.
    fn try_candidate(l: &L, s_L: &SL, ratio: &FE, y: &FE) -> (r: Option<FE>)
        requires
            l.wf(),
            s_L.wf(),
            ratio.wf(),
            y.wf(),
        ensures
            match r {
                Some(t) => t.wf() && release_candidate(s_L.w_1@, ratio@, y@) == Some(t@)
                    && accepts(l.m@, l.pk@, s_L.w_0@, t@),
                None => release_candidate(s_L.w_1@, ratio@, y@) matches Some(t) ==> !accepts(
                    l.m@,
                    l.pk@,
                    s_L.w_0@,
                    t,
                ),
            },
    {
        let d = ratio.sub(y);
        match d.invert() {
            None => None,
            Some(d_inv) => {
                let t = s_L.w_1.mul(&d_inv).low();
                let k = K { r: s_L.w_0, s: t };
                if vf(l, &k).is_ok() {
                    Some(t)
                } else {
                    None
                }
            },
        }
    }

    /// The release from the signature scalar `s` of the lock to the right.
    fn release_from(y: &FE, s: &FE, s_L: &SL, s_R: &SR) -> (r: Result<K, LockError>)
        requires
            y.wf(),
            s.wf(),
            s_L.wf(),
            s_R.wf(),
        ensures
            match r {
                Ok(k) => k.wf() && k.r@ == 0 && released(
                    y@,
                    s@,
                    s_R.s_tag@,
                    s_L.w_0@,
                    s_L.w_1@,
                    s_R.message@,
                    s_L.pk@,
                ) == Some(k.s@),
                Err(e) => e == LockError::ReleaseFailed && released(
                    y@,
                    s@,
                    s_R.s_tag@,
                    s_L.w_0@,
                    s_L.w_1@,
                    s_R.message@,
                    s_L.pk@,
                ) is None,
            },
    {
        let l = L { m: s_R.message, pk: s_L.pk };
        let s_inv = match s.invert() {
            Some(i) => i,
            None => {
                return Err(LockError::ReleaseFailed);
            },
        };
        let ratio = s_inv.mul(&s_R.s_tag);
        match Release::try_candidate(&l, s_L, &ratio, y) {
            Some(t) => Ok(K { r: FE::zero(), s: t }),
            None => {
                let ratio_neg = ratio.neg();
                match Release::try_candidate(&l, s_L, &ratio_neg, y) {
                    Some(t) => Ok(K { r: FE::zero(), s: t }),
                    None => Err(LockError::ReleaseFailed),
                }
            },
        }
    }

    /// The release at hop `i`: from the signature `k_i_plus_1` of the next
    /// hop, the hop's own. Of the signature that comes back only `s` is set;
    /// `r` is zero and is to be taken from `s_L.w_0`, with which `vf` accepts
    /// it.
    pub fn release_i(chain_i: &ChainLink, k_i_plus_1: K, s_L: &SL, s_R: &SR) -> (r: Result<
        K,
        LockError,
    >)
        requires
            chain_i.wf(),
            k_i_plus_1.wf(),
            s_L.wf(),
            s_R.wf(),
        ensures
            match r {
                Ok(k) => k.wf() && k.r@ == 0 && released(
                    chain_i.y_i@,
                    k_i_plus_1.s@,
                    s_R.s_tag@,
                    s_L.w_0@,
                    s_L.w_1@,
                    s_R.message@,
                    s_L.pk@,
                ) == Some(k.s@),
                Err(e) => e == LockError::ReleaseFailed && released(
                    chain_i.y_i@,
                    k_i_plus_1.s@,
                    s_R.s_tag@,
                    s_L.w_0@,
                    s_L.w_1@,
                    s_R.message@,
                    s_L.pk@,
                ) is None,
            },
            r matches Ok(k) ==> k.s@ <= half_order() && accepts(
                s_R.message@,
                s_L.pk@,
                s_L.w_0@,
                k.s@,
            ),
    {
        Release::release_from(&chain_i.y_i, &k_i_plus_1.s, s_L, s_R)
    }

    /// The release at the last hop but one: the pre-signature `s_L_n.w_1` of
    /// the last lock is opened with the chain's full secret `chain_n.k_n`, and
    /// the release goes on from there as at any hop.
    pub fn release_n_minus_1(
        chain_n_minus_1: &ChainLink,
        chain_n: &ChainLinkUn,
        s_L_n: &SL,
        s_L_n_minus_1: &SL,
        s_R: &SR,
    ) -> (r: Result<K, LockError>)
        requires
            chain_n_minus_1.wf(),
            chain_n.wf(),
            s_L_n.wf(),
            s_L_n_minus_1.wf(),
            s_R.wf(),
        ensures
            match r {
                Ok(k) => k.wf() && k.r@ == 0 && released_last(
                    chain_n_minus_1.y_i@,
                    chain_n.k_n@,
                    s_L_n.w_1@,
                    s_R.s_tag@,
                    s_L_n_minus_1.w_0@,
                    s_L_n_minus_1.w_1@,
                    s_R.message@,
                    s_L_n_minus_1.pk@,
                ) == Some(k.s@),
                Err(e) => e == LockError::ReleaseFailed && released_last(
                    chain_n_minus_1.y_i@,
                    chain_n.k_n@,
                    s_L_n.w_1@,
                    s_R.s_tag@,
                    s_L_n_minus_1.w_0@,
                    s_L_n_minus_1.w_1@,
                    s_R.message@,
                    s_L_n_minus_1.pk@,
                ) is None,
            },
            r matches Ok(k) ==> k.s@ <= half_order() && accepts(
                s_R.message@,
                s_L_n_minus_1.pk@,
                s_L_n_minus_1.w_0@,
                k.s@,
            ),
    {
        let k_n_inv = match chain_n.k_n.invert() {
            Some(i) => i,
            None => {
                return Err(LockError::ReleaseFailed);
            },
        };
        let s = k_n_inv.mul(&s_L_n.w_1);
        Release::release_from(&chain_n_minus_1.y_i, &s, s_L_n_minus_1, s_R)
    }
}

} // verus!
