//! What holds of the library as a whole: properties that relate several of
//! its functions, stated over the same spec functions as their contracts.
use crate::chain::{cumulative, MultiHopLock};
use crate::error::LockError;
use crate::lock::{
    nonce_proof_accepted, nonce_x, party0_outcome, presig_check, DecommitLockParty1Message1,
    LockParty0Message1,
};
use crate::paillier::paillier_plaintext;
use crate::point::{ec_base, ec_mul, zero_point};
use crate::release::{accepts, release_candidate, released, released_last};
use crate::scalar::{
    fe_add, fe_inv, fe_inverse_of, fe_invertible, fe_low, fe_mul, fe_neg, group_order, half_order,
    lemma_fe_add_sub_cancel, lemma_fe_low_opens, lemma_fe_mul_associative, lemma_fe_mul_cancel,
    lemma_fe_mul_commutative, lemma_fe_mul_inverse, lemma_fe_mul_neg, lemma_fe_neg_neg,
    lemma_inverse_unique, lemma_invertible_nonzero,
};
use vstd::prelude::*;

verus! {

/// Every link of a chain that setup has built passes the check of its hop:
/// `verify_setup` returns `Ok` exactly on the links that are `valid`.
pub proof fn lemma_chain_links_verify(lock: MultiHopLock, i: int)
    requires
        lock.well_built(),
        0 <= i < lock.setup_chain@.len(),
    ensures
        lock.setup_chain@[i].valid(),
{
}

/// In a chain that setup has built, each link starts where the one before it
/// ends, and the end of the chain starts where the last link ends.
pub proof fn lemma_chain_links_connect(lock: MultiHopLock, i: int)
    requires
        lock.well_built(),
        0 <= i < lock.setup_chain@.len(),
    ensures
        i + 1 < lock.setup_chain@.len() ==> lock.setup_chain@[i + 1].Y_i_minus_1@
            == lock.setup_chain@[i].Y_i@,
        i + 1 == lock.setup_chain@.len() ==> lock.setup_chain_link_u_n.Y_i_minus_1@
            == lock.setup_chain@[i].Y_i@,
{
    if i + 1 < lock.setup_chain@.len() {
        assert(lock.setup_chain@[i + 1].Y_i_minus_1@ == ec_base(lock.secret_at((i + 1) as nat)));
    }
}

/// Where the last step of party 0 succeeds, the pre-signature it decrypted
/// satisfies `s R_1 = m G + r_x pk`, and the scalar it hands on is that
/// pre-signature divided by its nonce.
pub proof fn lemma_lock_binds_presignature(
    p: nat,
    q: nat,
    decomm: DecommitLockParty1Message1,
    c_tag: nat,
    comm: nat,
    m: nat,
    r_0: nat,
    Y: Seq<u8>,
    pk: Seq<u8>,
)
    requires
        party0_outcome(p, q, decomm, c_tag, comm, m, r_0, Y, pk) is Ok,
    ensures
        presig_check(
            paillier_plaintext(p, q, c_tag) % group_order(),
            decomm.R_1@,
            m % group_order(),
            nonce_x(decomm.R_1_tag@, r_0),
            pk,
        ),
        party0_outcome(p, q, decomm, c_tag, comm, m, r_0, Y, pk) == Ok::<nat, LockError>(
            fe_mul(paillier_plaintext(p, q, c_tag) % group_order(), fe_inv(r_0)),
        ),
        decomm.commitment() == comm,
        nonce_proof_accepted(decomm.ddh_proof, decomm.R_1@, Y, decomm.R_1_tag@),
{
}

/// A decommitment that does not reproduce the commitment is refused as such,
/// whatever else it holds; and none that does is refused for that reason.
pub proof fn lemma_commitment_decides_first(
    p: nat,
    q: nat,
    decomm: DecommitLockParty1Message1,
    c_tag: nat,
    comm: nat,
    m: nat,
    r_0: nat,
    Y: Seq<u8>,
    pk: Seq<u8>,
)
    ensures
        decomm.commitment() != comm <==> party0_outcome(p, q, decomm, c_tag, comm, m, r_0, Y, pk)
            == Err::<nat, LockError>(LockError::BadCommitment),
{
}

/// The first message of party 0 carries a proof that party 1 accepts: what
/// `first_message` makes for a nonce and an adaptor point passes the check of
/// `second_message` for the same adaptor point, unless the joint nonce is the
/// point at infinity or the nonce of party 1 is zero.
pub proof fn lemma_first_message_passes(msg: LockParty0Message1, Y: Seq<u8>, r_0: nat, r_1: nat)
    requires
        msg.made_from(Y, r_0),
    ensures
        msg.passes(Y, r_1) <==> ec_mul(ec_mul(Y, r_0), r_1) != zero_point() && r_1 != 0,
{
}

/// The decommitment of party 1 carries a proof that party 0 accepts: with the
/// commitment that `first_message` made for it, the last step of party 0
/// fails neither on the commitment nor, unless the joint nonce is the point at
/// infinity or the nonce of party 0 is zero, on the proof.
pub proof fn lemma_decommitment_passes(
    p: nat,
    q: nat,
    decomm: DecommitLockParty1Message1,
    c_tag: nat,
    m: nat,
    r_0: nat,
    r_1: nat,
    Y: Seq<u8>,
    pk: Seq<u8>,
)
    requires
        decomm.made_from(Y, r_1),
    ensures
        party0_outcome(p, q, decomm, c_tag, decomm.commitment(), m, r_0, Y, pk) != Err::<
            nat,
            LockError,
        >(LockError::BadCommitment),
        party0_outcome(p, q, decomm, c_tag, decomm.commitment(), m, r_0, Y, pk) == Err::<
            nat,
            LockError,
        >(LockError::BadNIZK) <==> ec_mul(ec_mul(Y, r_1), r_0) == zero_point() || r_0 == 0,
{
}

/// Every scalar that the release returns is in low form, and `vf` accepts it
/// with `w_0` as `r`.
pub proof fn lemma_released_is_low(
    y: nat,
    s: nat,
    s_tag: nat,
    w_0: nat,
    w_1: nat,
    m: nat,
    pk: Seq<u8>,
)
    requires
        released(y, s, s_tag, w_0, w_1, m, pk) is Some,
    ensures
        released(y, s, s_tag, w_0, w_1, m, pk)->0 <= half_order(),
        accepts(m, pk, w_0, released(y, s, s_tag, w_0, w_1, m, pk)->0),
{
}

/// The same of the release at the last hop but one.
pub proof fn lemma_released_last_is_low(
    y: nat,
    k_n: nat,
    w_1_n: nat,
    s_tag: nat,
    w_0: nat,
    w_1: nat,
    m: nat,
    pk: Seq<u8>,
)
    requires
        released_last(y, k_n, w_1_n, s_tag, w_0, w_1, m, pk) is Some,
    ensures
        released_last(y, k_n, w_1_n, s_tag, w_0, w_1, m, pk)->0 <= half_order(),
        accepts(m, pk, w_0, released_last(y, k_n, w_1_n, s_tag, w_0, w_1, m, pk)->0),
{
}

/// The release at a hop succeeds on honest input. Let `c` be the secret of
/// the adaptor point to the left of the hop, so that `c + y` is the secret to
/// the right. If the signature `s` to the right is the pre-signature `s_tag`
/// to the right opened with `c + y`, in either sign, and the pre-signature
/// `w_1` to the left opens with `c` to a signature that `vf` accepts, then
/// the release returns a signature, and `vf` accepts it.
pub proof fn lemma_release_complete(
    y: nat,
    s: nat,
    s_tag: nat,
    w_0: nat,
    w_1: nat,
    m: nat,
    pk: Seq<u8>,
    c: nat,
)
    requires
        y < group_order(),
        s_tag < group_order(),
        w_1 < group_order(),
        fe_invertible(s),
        fe_invertible(c),
        fe_mul(s, fe_add(c, y)) == s_tag || fe_mul(s, fe_add(c, y)) == fe_neg(s_tag),
        accepts(m, pk, w_0, fe_low(fe_mul(w_1, fe_inv(c)))),
    ensures
        released(y, s, s_tag, w_0, w_1, m, pk) is Some,
        accepts(m, pk, w_0, released(y, s, s_tag, w_0, w_1, m, pk)->0),
        fe_mul(s, fe_add(c, y)) == s_tag ==> released(y, s, s_tag, w_0, w_1, m, pk) == Some(
            fe_low(fe_mul(w_1, fe_inv(c))),
        ),
{
    lemma_invertible_nonzero(s);
    lemma_invertible_nonzero(c);
    let si = fe_inv(s);
    let right = fe_add(c, y);
    let ratio = fe_mul(si, s_tag);
    let opened = fe_mul(s, right);
    lemma_fe_mul_cancel(s, si, right);
    lemma_fe_add_sub_cancel(c, y);
    let good = Some(fe_low(fe_mul(w_1, fe_inv(c))));
    if opened == s_tag {
        assert(ratio == right);
        assert(release_candidate(w_1, ratio, y) == good);
    } else {
        lemma_fe_neg_neg(s_tag);
        assert(s_tag == fe_neg(opened));
        lemma_fe_mul_neg(si, opened);
        assert(ratio == fe_neg(right));
        lemma_fe_neg_neg(right);
        assert(release_candidate(w_1, fe_neg(ratio), y) == good);
    }
}

/// The release at the last hop but one succeeds on honest input. Let `c` be
/// the secret of the adaptor point to the left, so that the chain's full
/// secret is `k_n = c + y`. If the pre-signature of the last lock is the same
/// on both sides and the pre-signature `w_1` to the left opens with `c` to a
/// signature that `vf` accepts, then the release returns that signature.
pub proof fn lemma_release_last_complete(
    y: nat,
    k_n: nat,
    s_tag: nat,
    w_0: nat,
    w_1: nat,
    m: nat,
    pk: Seq<u8>,
    c: nat,
)
    requires
        y < group_order(),
        w_1 < group_order(),
        k_n == fe_add(c, y),
        fe_invertible(k_n),
        fe_invertible(s_tag),
        fe_invertible(c),
        accepts(m, pk, w_0, fe_low(fe_mul(w_1, fe_inv(c)))),
    ensures
        released_last(y, k_n, s_tag, s_tag, w_0, w_1, m, pk) == Some(
            fe_low(fe_mul(w_1, fe_inv(c))),
        ),
        accepts(m, pk, w_0, fe_low(fe_mul(w_1, fe_inv(c)))),
{
    lemma_invertible_nonzero(k_n);
    lemma_invertible_nonzero(s_tag);
    let ki = fe_inv(k_n);
    let s = fe_mul(ki, s_tag);
    // s has the inverse k_n / s_tag
    lemma_fe_mul_inverse(ki, k_n, s_tag, fe_inv(s_tag));
    assert(fe_inverse_of(ki, k_n)) by {
        vstd::arithmetic::mul::lemma_mul_is_commutative(ki as int, k_n as int);
    }
    lemma_inverse_unique(s, fe_mul(k_n, fe_inv(s_tag)), 0);
    // s k_n = s_tag
    lemma_fe_mul_commutative(s, k_n);
    lemma_fe_mul_commutative(ki, s_tag);
    lemma_fe_mul_associative(k_n, s_tag, ki);
    lemma_fe_mul_commutative(fe_mul(k_n, s_tag), ki);
    lemma_fe_mul_cancel(k_n, ki, s_tag);
    assert(fe_mul(s, k_n) == s_tag);
    lemma_release_complete(y, s, s_tag, w_0, w_1, m, pk, c);
}


/// The signature scalar that the pre-signature `w_1` opens to with the secret
/// `c`: `w_1 / c` in low form.
pub open spec fn opened(w_1: nat, c: nat) -> nat {
    fe_low(fe_mul(w_1, fe_inv(c)))
}

/// The release at a hop returns exactly the opened pre-signature where that
/// is the only signature that `vf` accepts with `w_0`.
pub proof fn lemma_release_exact(
    y: nat,
    s: nat,
    s_tag: nat,
    w_0: nat,
    w_1: nat,
    m: nat,
    pk: Seq<u8>,
    c: nat,
)
    requires
        y < group_order(),
        s_tag < group_order(),
        w_1 < group_order(),
        fe_invertible(s),
        fe_invertible(c),
        fe_mul(s, fe_add(c, y)) == s_tag || fe_mul(s, fe_add(c, y)) == fe_neg(s_tag),
        accepts(m, pk, w_0, opened(w_1, c)),
        forall|t: nat| #[trigger] accepts(m, pk, w_0, t) ==> t == opened(w_1, c),
    ensures
        released(y, s, s_tag, w_0, w_1, m, pk) == Some(opened(w_1, c)),
{
    lemma_release_complete(y, s, s_tag, w_0, w_1, m, pk, c);
}

/// The signature scalar that the cascade releases at hop `i` of a path of
/// `ys.len() + 1` hops, if every release from the last hop down to `i`
/// succeeds. Hop `j` holds the lock with `w_0s[j]` and the pre-signature
/// `w_1s[j]`; the link from hop `j` to hop `j + 1` has the secret `ys[j]`. The
/// last hop but one releases from the pre-signature of the last lock and the
/// chain's full secret; each hop before it from the signature released at the
/// next hop.
pub open spec fn cascade(
    y_0: nat,
    ys: Seq<nat>,
    w_0s: Seq<nat>,
    w_1s: Seq<nat>,
    m: nat,
    pk: Seq<u8>,
    i: int,
) -> Option<nat>
    decreases ys.len() - i,
{
    let last = ys.len() as int;
    if i < 0 || i >= last {
        None
    } else if i == last - 1 {
        released_last(
            ys[i],
            cumulative(y_0, ys, last as nat),
            w_1s[last],
            w_1s[last],
            w_0s[i],
            w_1s[i],
            m,
            pk,
        )
    } else {
        match cascade(y_0, ys, w_0s, w_1s, m, pk, i + 1) {
            Some(s) => released(ys[i], s, w_1s[i + 1], w_0s[i], w_1s[i], m, pk),
            None => None,
        }
    }
}

/// Whether the locks of a path are honest: every cumulative secret and every
/// pre-signature has an inverse, and at each hop the pre-signature opens with
/// the hop's cumulative secret to a signature that `vf` accepts with the
/// hop's `w_0`, and to the only such.
pub open spec fn honest_path(
    y_0: nat,
    ys: Seq<nat>,
    w_0s: Seq<nat>,
    w_1s: Seq<nat>,
    m: nat,
    pk: Seq<u8>,
) -> bool {
    &&& w_0s.len() == ys.len() + 1
    &&& w_1s.len() == ys.len() + 1
    &&& y_0 < group_order()
    &&& forall|j: int| 0 <= j < ys.len() ==> #[trigger] ys[j] < group_order()
    &&& forall|j: int|
        0 <= j <= ys.len() ==> {
            &&& #[trigger] w_1s[j] < group_order()
            &&& fe_invertible(w_1s[j])
            &&& fe_invertible(cumulative(y_0, ys, j as nat))
            &&& accepts(m, pk, w_0s[j], opened(w_1s[j], cumulative(y_0, ys, j as nat)))
            &&& forall|t: nat| #[trigger]
                accepts(m, pk, w_0s[j], t) ==> t == opened(
                    w_1s[j],
                    cumulative(y_0, ys, j as nat),
                )
        }
}

/// The cascade is complete: on an honest path every release succeeds, from
/// the last hop but one down to the first, and the signature released at a
/// hop is the hop's opened pre-signature, which `vf` accepts.
pub proof fn lemma_cascade_complete(
    y_0: nat,
    ys: Seq<nat>,
    w_0s: Seq<nat>,
    w_1s: Seq<nat>,
    m: nat,
    pk: Seq<u8>,
    i: int,
)
    requires
        honest_path(y_0, ys, w_0s, w_1s, m, pk),
        0 <= i < ys.len(),
    ensures
        cascade(y_0, ys, w_0s, w_1s, m, pk, i) == Some(
            opened(w_1s[i], cumulative(y_0, ys, i as nat)),
        ),
        accepts(m, pk, w_0s[i], opened(w_1s[i], cumulative(y_0, ys, i as nat))),
        opened(w_1s[i], cumulative(y_0, ys, i as nat)) <= half_order(),
    decreases ys.len() - i,
{
    let last = ys.len() as int;
    let c = cumulative(y_0, ys, i as nat);
    let c_next = cumulative(y_0, ys, (i + 1) as nat);
    assert(c_next == fe_add(c, ys[i]));
    assert(w_1s[i] < group_order());
    assert(w_1s[i + 1] < group_order());
    if i == last - 1 {
        lemma_release_last_complete(ys[i], c_next, w_1s[last], w_0s[i], w_1s[i], m, pk, c);
    } else {
        lemma_cascade_complete(y_0, ys, w_0s, w_1s, m, pk, i + 1);
        let s = opened(w_1s[i + 1], c_next);
        lemma_fe_low_opens(w_1s[i + 1], c_next);
        lemma_release_exact(ys[i], s, w_1s[i + 1], w_0s[i], w_1s[i], m, pk, c);
    }
}

} // verus!
