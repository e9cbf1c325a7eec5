//! Chain setup: the adaptor points of a path, one per hop, each the previous
//! one moved by the hop's secret.
use crate::error::LockError;
use crate::point::{ec_add, ec_base, generator_point, GE};
use crate::proofs::DLogProof;
use crate::scalar::{fe_add, FE};
use vstd::prelude::*;

verus! {

/// The link of hop `i`: the secret `y_i` that moves `Y_i_minus_1` to `Y_i`,
/// with a proof that the discrete logarithm of `Y_i` is known.
#[derive(Clone, Copy, Debug)]
pub struct ChainLink {
    pub Y_i_minus_1: GE,
    pub Y_i: GE,
    pub y_i: FE,
    pub proof: DLogProof,
}

/// The end of the chain: the last point, and its discrete logarithm `k_n` in
/// the clear.
#[derive(Clone, Copy, Debug)]
pub struct ChainLinkUn {
    pub Y_i_minus_1: GE,
    pub k_n: FE,
}

/// A chain for `num_parties` hops: the first secret, the links of the hops
/// `1..num_parties`, and the end of the chain.
#[derive(Debug)]
pub struct MultiHopLock {
    pub num_parties: usize,
    pub y_0: FE,
    pub setup_chain: Vec<ChainLink>,
    pub setup_chain_link_u_n: ChainLinkUn,
}

/// The values of a sequence of scalars.
pub open spec fn fe_values(s: Seq<FE>) -> Seq<nat> {
    Seq::new(s.len(), |i: int| s[i]@)
}

/// The cumulative secret of hop `i`: `c_0 = y_0` and `c_i = c_{i-1} + ys[i-1]`
/// modulo the group order.
pub open spec fn cumulative(y_0: nat, ys: Seq<nat>, i: nat) -> nat
    decreases i,
{
    if i == 0 {
        y_0
    } else {
        fe_add(cumulative(y_0, ys, (i - 1) as nat), ys[i - 1])
    }
}

impl ChainLink {
    /// A link is well formed when its points, its secret and its proof are.
    pub open spec fn wf(&self) -> bool {
        self.Y_i_minus_1.wf() && self.Y_i.wf() && self.y_i.wf() && self.proof.wf()
    }

    /// What a hop checks of its link: the proof holds and is about `Y_i`, and
    /// `y_i * G + Y_i_minus_1` is `Y_i`.
    pub open spec fn valid(&self) -> bool {
        &&& self.proof.accepted()
        &&& self.proof.pk@ == self.Y_i@
        &&& ec_add(ec_base(self.y_i@), self.Y_i_minus_1@) == self.Y_i@
    }
}

impl ChainLinkUn {
    /// The end of the chain is well formed when its point and its scalar are.
    pub open spec fn wf(&self) -> bool {
        self.Y_i_minus_1.wf() && self.k_n.wf()
    }
}

impl MultiHopLock {
    /// A chain is well formed when all its parts are.
    pub open spec fn wf(&self) -> bool {
        &&& self.y_0.wf()
        &&& forall|i: int| 0 <= i < self.setup_chain@.len() ==> (#[trigger] self.setup_chain@[i]).wf()
        &&& self.setup_chain_link_u_n.wf()
    }

    /// The secrets of the links, in order.
    pub open spec fn secrets(&self) -> Seq<nat> {
        Seq::new(self.setup_chain@.len(), |i: int| self.setup_chain@[i].y_i@)
    }

    /// The cumulative secret of hop `i`.
    pub open spec fn secret_at(&self, i: nat) -> nat {
        cumulative(self.y_0@, self.secrets(), i)
    }

    /// What setup builds: link `i` leads from `c_i * G` to `c_{i+1} * G`, it
    /// passes the hop's check, and the end of the chain holds the last point
    /// with its discrete logarithm.
    pub open spec fn well_built(&self) -> bool {
        &&& self.num_parties == self.setup_chain@.len() + 1
        &&& forall|i: int|
            0 <= i < self.setup_chain@.len() ==> {
                let link = #[trigger] self.setup_chain@[i];
                &&& link.Y_i_minus_1@ == ec_base(self.secret_at(i as nat))
                &&& link.Y_i@ == ec_base(self.secret_at((i + 1) as nat))
                &&& link.valid()
            }
        &&& self.setup_chain_link_u_n.Y_i_minus_1@ == ec_base(
            self.secret_at(self.setup_chain@.len()),
        )
        &&& self.setup_chain_link_u_n.k_n@ == self.secret_at(self.setup_chain@.len())
    }

    /// Sets up a chain for `n` hops from fresh random secrets.
    pub fn setup(n: usize) -> (r: MultiHopLock)
        requires
            n >= 1,
        ensures
            r.wf(),
            r.num_parties == n,
            r.well_built(),
            r.y_0@ != 0,
            forall|i: int| 0 <= i < r.setup_chain@.len() ==> (#[trigger] r.setup_chain@[i]).y_i@ != 0,
    {
        let y_0 = FE::new_random();
        let mut secrets: Vec<FE> = Vec::new();
        let mut i: usize = 1;
        while i < n
            invariant
                1 <= i <= n,
                secrets@.len() == i - 1,
                forall|j: int| 0 <= j < secrets@.len() ==> (#[trigger] secrets@[j]).wf(),
                forall|j: int| 0 <= j < secrets@.len() ==> (#[trigger] secrets@[j])@ != 0,
            decreases n - i,
        {
            secrets.push(FE::new_random());
            i = i + 1;
        }
        MultiHopLock::setup_with(&y_0, &secrets)
    }

    /// Sets up a chain from the first secret and the secrets of the links. The
    /// chain has one hop more than there are link secrets.
    pub fn setup_with(y_0: &FE, secrets: &Vec<FE>) -> (r: MultiHopLock)
        requires
            y_0.wf(),
            forall|j: int| 0 <= j < secrets@.len() ==> (#[trigger] secrets@[j]).wf(),
            secrets@.len() < usize::MAX,
        ensures
            r.wf(),
            r.num_parties == secrets@.len() + 1,
            r.y_0@ == y_0@,
            r.setup_chain@.len() == secrets@.len(),
            forall|j: int|
                0 <= j < secrets@.len() ==> (#[trigger] r.setup_chain@[j]).y_i@ == secrets@[j]@,
            r.well_built(),
    {
        let g = GE::generator();
        let mut c = *y_0;
        let mut Y_prev = g.scalar_mul(&c);
        let mut chain: Vec<ChainLink> = Vec::new();
        let mut i: usize = 0;
        while i < secrets.len()
            invariant
                i <= secrets@.len(),
                g.wf(),
                g@ == generator_point(),
                y_0.wf(),
                forall|j: int| 0 <= j < secrets@.len() ==> (#[trigger] secrets@[j]).wf(),
                c.wf(),
                c@ == cumulative(y_0@, fe_values(secrets@), i as nat),
                Y_prev.wf(),
                Y_prev@ == ec_base(c@),
                chain@.len() == i,
                forall|j: int|
                    0 <= j < i ==> {
                        let link = #[trigger] chain@[j];
                        &&& link.wf()
                        &&& link.y_i@ == secrets@[j]@
                        &&& link.Y_i_minus_1@ == ec_base(
                            cumulative(y_0@, fe_values(secrets@), j as nat),
                        )
                        &&& link.Y_i@ == ec_base(
                            cumulative(y_0@, fe_values(secrets@), (j + 1) as nat),
                        )
                        &&& link.valid()
                    },
            decreases secrets@.len() - i,
        {
            let y = secrets[i];
            // The next point is reached by adding `y G`, so that the link's
            // equation holds of what was computed; by the group law it is
            // also the multiple of `G` by the next cumulative secret, which
            // is what the proof is about.
            let y_G = g.scalar_mul(&y);
            assert(y_G@ == ec_base(y@));
            let Y = y_G.add(&Y_prev);
            let c_next = c.add(&y);
            assert(Y@ == ec_base(c_next@));
            let proof = DLogProof::prove(&c_next);
            chain.push(ChainLink { Y_i_minus_1: Y_prev, Y_i: Y, y_i: y, proof });
            c = c_next;
            Y_prev = Y;
            i = i + 1;
        }
        let r = MultiHopLock {
            num_parties: secrets.len() + 1,
            y_0: *y_0,
            setup_chain: chain,
            setup_chain_link_u_n: ChainLinkUn { Y_i_minus_1: Y_prev, k_n: c },
        };
        proof {
            assert(r.secrets() =~= fe_values(secrets@));
        }
        r
    }

    /// The check a hop makes of its link before it accepts the payment.
    pub fn verify_setup(chain_i: &ChainLink) -> (r: Result<(), LockError>)
        requires
            chain_i.wf(),
        ensures
            r is Ok <==> chain_i.valid(),
            r matches Err(e) ==> e == LockError::ChainLinkInvalid,
    {
        let verified = DLogProof::verify(&chain_i.proof);
        let g = GE::generator();
        let y_i_G = g.scalar_mul(&chain_i.y_i);
        if verified && chain_i.proof.pk.equals(&chain_i.Y_i) && y_i_G.add(
            &chain_i.Y_i_minus_1,
        ).equals(&chain_i.Y_i) {
            Ok(())
        } else {
            Err(LockError::ChainLinkInvalid)
        }
    }
}

} // verus!
