//! The locked signing of two parties: four messages after which party 0 holds
//! a pre-signature that is bound to the adaptor point of the hop.
use crate::bigint::{big_add, big_mul, big_sample, big_sample_below, two_to, BigInt};
use crate::commitment::{commit_to_points, commitment_to};
use crate::error::LockError;
use crate::paillier::{
    combine, decrypt, encrypt_with, paillier_ciphertext, paillier_plaintext, paillier_scaled,
    paillier_sum, scale, DecryptionKey, EncryptionKey,
};
use crate::point::{ec_add, ec_base, ec_mul, generator_point, point_x, zero_point, GE};
use crate::proofs::{ddh_accepts, ECDDHProof, ECDDHStatement};
use crate::scalar::{fe_inv, fe_mul, group_order, FE};
use vstd::prelude::*;

verus! {

/// What party 0 sends first: its nonce point `R_0 = r_0 G`, the same nonce on
/// the adaptor point, `R_0_tag = r_0 Y`, and a proof that the two agree.
#[derive(Clone, Copy, Debug)]
pub struct LockParty0Message1 {
    pub ddh_proof: ECDDHProof,
    pub R_0: GE,
    pub R_0_tag: GE,
}

/// What party 1 sends first: a commitment to its nonce points.
#[derive(Debug)]
pub struct LockParty1Message1 {
    pub comm: BigInt,
}

impl Clone for LockParty1Message1 {
    fn clone(&self) -> (r: Self)
        ensures
            r.comm@ == self.comm@,
    {
        LockParty1Message1 { comm: self.comm.clone() }
    }
}

/// What opens the commitment of party 1: the blinding factor, the nonce
/// points `R_1 = r_1 G` and `R_1_tag = r_1 Y`, and the proof that they agree.
#[derive(Debug)]
pub struct DecommitLockParty1Message1 {
    pub blind_factor: BigInt,
    pub R_1: GE,
    pub R_1_tag: GE,
    pub ddh_proof: ECDDHProof,
}

impl Clone for DecommitLockParty1Message1 {
    fn clone(&self) -> (r: Self)
        ensures
            r.blind_factor@ == self.blind_factor@,
            r.R_1 == self.R_1,
            r.R_1_tag == self.R_1_tag,
            r.ddh_proof == self.ddh_proof,
    {
        DecommitLockParty1Message1 {
            blind_factor: self.blind_factor.clone(),
            R_1: self.R_1,
            R_1_tag: self.R_1_tag,
            ddh_proof: self.ddh_proof,
        }
    }
}

/// The encrypted partial signature of party 1, a Paillier ciphertext.
#[derive(Debug)]
pub struct PartialSig {
    pub c_tag: BigInt,
}

impl Clone for PartialSig {
    fn clone(&self) -> (r: Self)
        ensures
            r.c_tag@ == self.c_tag@,
    {
        PartialSig { c_tag: self.c_tag.clone() }
    }
}

/// What party 1 sends second: the decommitment and the partial signature.
#[derive(Debug)]
pub struct LockParty1Message2 {
    pub decomm: DecommitLockParty1Message1,
    pub partial_sig: PartialSig,
}

impl Clone for LockParty1Message2 {
    fn clone(&self) -> (r: Self)
        ensures
            r.decomm.blind_factor@ == self.decomm.blind_factor@,
            r.decomm.R_1 == self.decomm.R_1,
            r.decomm.R_1_tag == self.decomm.R_1_tag,
            r.decomm.ddh_proof == self.decomm.ddh_proof,
            r.partial_sig.c_tag@ == self.partial_sig.c_tag@,
    {
        LockParty1Message2 { decomm: self.decomm.clone(), partial_sig: self.partial_sig.clone() }
    }
}

/// What party 0 sends last: the pre-signature.
#[derive(Clone, Copy, Debug)]
pub struct LockParty0Message2 {
    pub s_tag: FE,
}

/// Whether `proof` shows that `R` and `R_tag` hold the same nonce, on the
/// generator and on the adaptor point `Y`.
pub open spec fn nonce_proof_accepted(
    proof: ECDDHProof,
    R: Seq<u8>,
    Y: Seq<u8>,
    R_tag: Seq<u8>,
) -> bool {
    ddh_accepts(generator_point(), R, Y, R_tag, proof.a1@, proof.a2@, proof.z@)
}

/// The scalar `r_x`: the x coordinate of the joint nonce `r * R_tag`, reduced
/// modulo the group order.
pub open spec fn nonce_x(R_tag: Seq<u8>, r: nat) -> nat {
    point_x(ec_mul(R_tag, r)) % group_order()
}

/// The check that binds a pre-signature `s` to the nonce point `R`:
/// `s R = m G + r_x pk`.
pub open spec fn presig_check(s: nat, R: Seq<u8>, m: nat, r_x: nat, pk: Seq<u8>) -> bool {
    ec_mul(R, s) == ec_add(ec_base(m), ec_mul(pk, r_x))
}

/// The ciphertext that party 1 sends: under the modulus `n`, the encryption
/// with randomness `rand` of `rho q + m / r_1`, added to the encrypted share
/// scaled by `r_x x_1 / r_1`.
pub open spec fn partial_sig_ciphertext(
    n: nat,
    share: nat,
    m: nat,
    r_1: nat,
    r_x: nat,
    x_1: nat,
    rho: nat,
    rand: nat,
) -> nat {
    let masked = rho * group_order() + fe_mul(fe_inv(r_1), m % group_order());
    let v = fe_mul(fe_inv(r_1), fe_mul(r_x, x_1));
    paillier_sum(n, paillier_scaled(n, share, v), paillier_ciphertext(n, masked, rand))
}

/// How the last step of party 0 ends, and with which pre-signature: the
/// commitment is checked first, then the proof and the joint nonce, then the
/// decrypted scalar against the nonce point of party 1.
pub open spec fn party0_outcome(
    p: nat,
    q: nat,
    decomm: DecommitLockParty1Message1,
    c_tag: nat,
    comm: nat,
    m: nat,
    r_0: nat,
    Y: Seq<u8>,
    pk: Seq<u8>,
) -> Result<nat, LockError> {
    let s = paillier_plaintext(p, q, c_tag) % group_order();
    if decomm.commitment() != comm {
        Err(LockError::BadCommitment)
    } else if !nonce_proof_accepted(decomm.ddh_proof, decomm.R_1@, Y, decomm.R_1_tag@) || ec_mul(
        decomm.R_1_tag@,
        r_0,
    ) == zero_point() || r_0 == 0 {
        Err(LockError::BadNIZK)
    } else if !presig_check(
        s,
        decomm.R_1@,
        m % group_order(),
        nonce_x(decomm.R_1_tag@, r_0),
        pk,
    ) {
        Err(LockError::BadPreSig)
    } else {
        Ok(fe_mul(s, fe_inv(r_0)))
    }
}

impl LockParty0Message1 {
    /// Well formed when the points and the proof are.
    pub open spec fn wf(&self) -> bool {
        self.ddh_proof.wf() && self.R_0.wf() && self.R_0_tag.wf()
    }

    /// What the message of party 0 is for the nonce `r_0` and the adaptor
    /// point `Y`: the two nonce points, with a proof that holds.
    pub open spec fn made_from(&self, Y: Seq<u8>, r_0: nat) -> bool {
        &&& self.R_0@ == ec_base(r_0)
        &&& self.R_0_tag@ == ec_mul(Y, r_0)
        &&& nonce_proof_accepted(self.ddh_proof, self.R_0@, Y, self.R_0_tag@)
    }

    /// What party 1 asks of the message before it answers: the proof holds for
    /// the adaptor point `Y`, and the joint nonce `r_1 R_0_tag` is a point with
    /// coordinates, which takes an `r_1` that is not zero.
    pub open spec fn passes(&self, Y: Seq<u8>, r_1: nat) -> bool {
        &&& nonce_proof_accepted(self.ddh_proof, self.R_0@, Y, self.R_0_tag@)
        &&& ec_mul(self.R_0_tag@, r_1) != zero_point()
        &&& r_1 != 0
    }

    /// The first message of party 0 for the adaptor point `Y_0`, from a fresh
    /// nonce, which is returned with it.
    pub fn first_message(Y_0: &GE) -> (r: (FE, LockParty0Message1))
        requires
            Y_0.wf(),
        ensures
            r.0.wf(),
            r.0@ != 0,
            r.1.wf(),
            r.1.made_from(Y_0@, r.0@),
    {
        let r_0 = FE::new_random();
        let msg = LockParty0Message1::first_message_with(Y_0, &r_0);
        (r_0, msg)
    }

    /// The first message of party 0 for the adaptor point `Y_0` and the nonce
    /// `r_0`.
    pub fn first_message_with(Y_0: &GE, r_0: &FE) -> (r: LockParty0Message1)
        requires
            Y_0.wf(),
            r_0.wf(),
        ensures
            r.wf(),
            r.made_from(Y_0@, r_0@),
    {
        let g = GE::generator();
        let R_0 = g.scalar_mul(r_0);
        let R_0_tag = Y_0.scalar_mul(r_0);
        let delta = ECDDHStatement { g1: g, h1: R_0, g2: *Y_0, h2: R_0_tag };
        let ddh_proof = ECDDHProof::prove(r_0, &delta);
        LockParty0Message1 { ddh_proof, R_0, R_0_tag }
    }
}

impl DecommitLockParty1Message1 {
    /// Well formed when the points and the proof are.
    pub open spec fn wf(&self) -> bool {
        self.R_1.wf() && self.R_1_tag.wf() && self.ddh_proof.wf()
    }

    /// The commitment that this decommitment opens: to the two nonce points
    /// and the two points of the proof, under the blinding factor.
    pub open spec fn commitment(&self) -> nat {
        commitment_to(
            self.R_1@,
            self.R_1_tag@,
            self.ddh_proof.a1@,
            self.ddh_proof.a2@,
            self.blind_factor@,
        )
    }

    /// What the decommitment of party 1 is for the nonce `r_1` and the
    /// adaptor point `Y`: the two nonce points, with a proof that holds.
    pub open spec fn made_from(&self, Y: Seq<u8>, r_1: nat) -> bool {
        &&& self.R_1@ == ec_base(r_1)
        &&& self.R_1_tag@ == ec_mul(Y, r_1)
        &&& nonce_proof_accepted(self.ddh_proof, self.R_1@, Y, self.R_1_tag@)
    }
}

impl LockParty1Message1 {
    /// The first message of party 1 for the adaptor point `Y_1_tag`, from a
    /// fresh nonce and a fresh blinding factor of 256 bits. The nonce and the
    /// decommitment, which party 1 keeps for now, are returned with it.
    pub fn first_message(Y_1_tag: &GE) -> (r: (FE, DecommitLockParty1Message1, LockParty1Message1))
        requires
            Y_1_tag.wf(),
        ensures
            r.0.wf(),
            r.0@ != 0,
            r.1.wf(),
            r.1.made_from(Y_1_tag@, r.0@),
            r.1.blind_factor@ < two_to(256),
            r.2.comm@ == r.1.commitment(),
    {
        let r_1 = FE::new_random();
        let blind = big_sample(256);
        let (decommit, msg) = LockParty1Message1::first_message_with(Y_1_tag, &r_1, blind);
        (r_1, decommit, msg)
    }

    /// The first message of party 1 for the adaptor point `Y_1_tag`, the
    /// nonce `r_1` and the blinding factor `blind`.
    pub fn first_message_with(Y_1_tag: &GE, r_1: &FE, blind: BigInt) -> (r: (
        DecommitLockParty1Message1,
        LockParty1Message1,
    ))
        requires
            Y_1_tag.wf(),
            r_1.wf(),
        ensures
            r.0.wf(),
            r.0.made_from(Y_1_tag@, r_1@),
            r.0.blind_factor@ == blind@,
            r.1.comm@ == r.0.commitment(),
    {
        let g = GE::generator();
        let R_1 = g.scalar_mul(r_1);
        let R_1_tag = Y_1_tag.scalar_mul(r_1);
        let delta = ECDDHStatement { g1: g, h1: R_1, g2: *Y_1_tag, h2: R_1_tag };
        let ddh_proof = ECDDHProof::prove(r_1, &delta);
        let commitment = commit_to_points(&R_1, &R_1_tag, &ddh_proof.a1, &ddh_proof.a2, &blind);
        let decommit = DecommitLockParty1Message1 { blind_factor: blind, R_1, R_1_tag, ddh_proof };
        (decommit, LockParty1Message1 { comm: commitment })
    }
}

impl LockParty1Message2 {
    /// Well formed when the decommitment is.
    pub open spec fn wf(&self) -> bool {
        self.decomm.wf()
    }

    /// The second message of party 1: it checks the proof of party 0 and
    /// sends its decommitment with the encrypted partial signature, masked by
    /// a fresh `rho` under `q^2` and encrypted with fresh randomness under the
    /// modulus. `encrypted_secret_share` is the share of party 0 under its own
    /// Paillier key, as key generation left it; nothing here checks that. A
    /// joint nonce at infinity, or a zero `r_1`, is refused like a bad proof.
    pub fn second_message(
        lock_party0_message1: &LockParty0Message1,
        decom_message1: DecommitLockParty1Message1,
        ek: &EncryptionKey,
        x_1: &FE,
        encrypted_secret_share: &BigInt,
        message: &BigInt,
        r_1: &FE,
        Y_i_minus_1: &GE,
    ) -> (r: Result<LockParty1Message2, LockError>)
        requires
            lock_party0_message1.wf(),
            decom_message1.wf(),
            ek.wf(),
            x_1.wf(),
            r_1.wf(),
            Y_i_minus_1.wf(),
        ensures
            r is Ok <==> lock_party0_message1.passes(Y_i_minus_1@, r_1@),
            r matches Err(e) ==> e == LockError::BadNIZK,
            r matches Ok(m2) ==> m2.wf() && m2.decomm == decom_message1 && exists|
                rho: nat,
                rand: nat,
            |
                rho < group_order() * group_order() && rand < ek.n@ && m2.partial_sig.c_tag@
                    == #[trigger] partial_sig_ciphertext(
                    ek.n@,
                    encrypted_secret_share@,
                    message@,
                    r_1@,
                    nonce_x(lock_party0_message1.R_0_tag@, r_1@),
                    x_1@,
                    rho,
                    rand,
                ),
    {
        let q = FE::q();
        let q_squared = big_mul(&q, &q);
        assert(q_squared@ > 0) by (nonlinear_arith)
            requires
                q_squared@ == q@ * q@,
                q@ > 0,
        ;
        let rho = big_sample_below(&q_squared);
        let rand = big_sample_below(&ek.n);
        LockParty1Message2::second_message_with(
            lock_party0_message1,
            decom_message1,
            ek,
            x_1,
            encrypted_secret_share,
            message,
            r_1,
            Y_i_minus_1,
            &rho,
            &rand,
        )
    }

    /// The second message of party 1 with the mask `rho` and the encryption
    /// randomness `rand` given.
    pub fn second_message_with(
        lock_party0_message1: &LockParty0Message1,
        decom_message1: DecommitLockParty1Message1,
        ek: &EncryptionKey,
        x_1: &FE,
        encrypted_secret_share: &BigInt,
        message: &BigInt,
        r_1: &FE,
        Y_i_minus_1: &GE,
        rho: &BigInt,
        rand: &BigInt,
    ) -> (r: Result<LockParty1Message2, LockError>)
        requires
            lock_party0_message1.wf(),
            decom_message1.wf(),
            ek.wf(),
            x_1.wf(),
            r_1.wf(),
            Y_i_minus_1.wf(),
        ensures
            r is Ok <==> lock_party0_message1.passes(Y_i_minus_1@, r_1@),
            r matches Err(e) ==> e == LockError::BadNIZK,
            r matches Ok(m2) ==> m2.wf() && m2.decomm == decom_message1 && m2.partial_sig.c_tag@
                == partial_sig_ciphertext(
                ek.n@,
                encrypted_secret_share@,
                message@,
                r_1@,
                nonce_x(lock_party0_message1.R_0_tag@, r_1@),
                x_1@,
                rho@,
                rand@,
            ),
    {
        let g = GE::generator();
        let delta = ECDDHStatement {
            g1: g,
            h1: lock_party0_message1.R_0,
            g2: *Y_i_minus_1,
            h2: lock_party0_message1.R_0_tag,
        };
        if !lock_party0_message1.ddh_proof.verify(&delta) {
            return Err(LockError::BadNIZK);
        }
        let R = lock_party0_message1.R_0_tag.scalar_mul(r_1);
        let rx = match R.x_coor() {
            Some(x) => FE::from_bigint(&x),
            None => {
                return Err(LockError::BadNIZK);
            },
        };
        let q = FE::q();
        let r_1_inv = match r_1.invert() {
            Some(i) => i,
            None => {
                return Err(LockError::BadNIZK);
            },
        };
        let e = FE::from_bigint(message);
        let masked = big_add(&big_mul(rho, &q), &r_1_inv.mul(&e).to_bigint());
        let c1 = encrypt_with(ek, &masked, rand);
        let v = r_1_inv.mul(&rx.mul(x_1));
        let c2 = scale(ek, encrypted_secret_share, &v.to_bigint());
        let c_tag = combine(ek, &c2, &c1);
        Ok(LockParty1Message2 { decomm: decom_message1, partial_sig: PartialSig { c_tag } })
    }
}

impl LockParty0Message2 {
    /// Well formed when the pre-signature is.
    pub open spec fn wf(&self) -> bool {
        self.s_tag.wf()
    }

    /// The last step of party 0: it checks the decommitment against the
    /// commitment, then the proof of party 1, decrypts the partial signature
    /// and checks it against the nonce point of party 1, and returns the
    /// pre-signature `s / r_0`. A joint nonce at infinity, or a zero `r_0`, is
    /// refused like a bad proof.
    pub fn second_message(
        dk: &DecryptionKey,
        lock_party1_message2: LockParty1Message2,
        lock_party1_message1: LockParty1Message1,
        message: &BigInt,
        r_0: FE,
        Y_i: &GE,
        pubkey: &GE,
    ) -> (r: Result<(FE, LockParty0Message2), LockError>)
        requires
            dk.wf(),
            lock_party1_message2.wf(),
            r_0.wf(),
            Y_i.wf(),
            pubkey.wf(),
        ensures
            match r {
                Ok((s, m2)) => s.wf() && m2.s_tag@ == s@ && party0_outcome(
                    dk.p@,
                    dk.q@,
                    lock_party1_message2.decomm,
                    lock_party1_message2.partial_sig.c_tag@,
                    lock_party1_message1.comm@,
                    message@,
                    r_0@,
                    Y_i@,
                    pubkey@,
                ) == Ok::<nat, LockError>(s@),
                Err(e) => party0_outcome(
                    dk.p@,
                    dk.q@,
                    lock_party1_message2.decomm,
                    lock_party1_message2.partial_sig.c_tag@,
                    lock_party1_message1.comm@,
                    message@,
                    r_0@,
                    Y_i@,
                    pubkey@,
                ) == Err::<nat, LockError>(e),
            },
            r is Ok ==> presig_check(
                paillier_plaintext(dk.p@, dk.q@, lock_party1_message2.partial_sig.c_tag@)
                    % group_order(),
                lock_party1_message2.decomm.R_1@,
                message@ % group_order(),
                nonce_x(lock_party1_message2.decomm.R_1_tag@, r_0@),
                pubkey@,
            ),
    {
        let decomm = &lock_party1_message2.decomm;
        let commitment = commit_to_points(
            &decomm.R_1,
            &decomm.R_1_tag,
            &decomm.ddh_proof.a1,
            &decomm.ddh_proof.a2,
            &decomm.blind_factor,
        );
        if !commitment.same_value(&lock_party1_message1.comm) {
            return Err(LockError::BadCommitment);
        }
        let g = GE::generator();
        let delta = ECDDHStatement { g1: g, h1: decomm.R_1, g2: *Y_i, h2: decomm.R_1_tag };
        if !decomm.ddh_proof.verify(&delta) {
            return Err(LockError::BadNIZK);
        }
        let R = decomm.R_1_tag.scalar_mul(&r_0);
        let r_x_fe = match R.x_coor() {
            Some(x) => FE::from_bigint(&x),
            None => {
                return Err(LockError::BadNIZK);
            },
        };
        let r_0_inv = match r_0.invert() {
            Some(i) => i,
            None => {
                return Err(LockError::BadNIZK);
            },
        };
        let s = decrypt(dk, &lock_party1_message2.partial_sig.c_tag);
        let s_fe = FE::from_bigint(&s);
        let s_R_1 = decomm.R_1.scalar_mul(&s_fe);
        let r_x_pk = pubkey.scalar_mul(&r_x_fe);
        let e_fe = FE::from_bigint(message);
        let e_g = g.scalar_mul(&e_fe);
        if !s_R_1.equals(&e_g.add(&r_x_pk)) {
            return Err(LockError::BadPreSig);
        }
        let s_tag = s_fe.mul(&r_0_inv);
        Ok((s_tag, LockParty0Message2 { s_tag }))
    }

    /// The check of party 1 on the pre-signature it receives: with the joint
    /// nonce recomputed from its own `r_1`, `s_tag r_1 R_0 = m G + r_x pk`. It
    /// returns the pre-signature and `r_x`.
    pub fn verify(
        &self,
        lock_party0_message1: LockParty0Message1,
        r_1: &FE,
        pubkey: &GE,
        message: &BigInt,
    ) -> (r: Result<(FE, FE), LockError>)
        requires
            self.wf(),
            lock_party0_message1.wf(),
            r_1.wf(),
            pubkey.wf(),
        ensures
            r is Ok <==> ec_mul(lock_party0_message1.R_0_tag@, r_1@) != zero_point()
                && presig_check(
                self.s_tag@,
                ec_mul(lock_party0_message1.R_0@, r_1@),
                message@ % group_order(),
                nonce_x(lock_party0_message1.R_0_tag@, r_1@),
                pubkey@,
            ),
            r matches Err(e) ==> e == LockError::BadPreSig,
            r matches Ok((s, r_x)) ==> s.wf() && r_x.wf() && s@ == self.s_tag@ && r_x@ == nonce_x(
                lock_party0_message1.R_0_tag@,
                r_1@,
            ),
    {
        let g = GE::generator();
        let R = lock_party0_message1.R_0_tag.scalar_mul(r_1);
        let r_x_fe = match R.x_coor() {
            Some(x) => FE::from_bigint(&x),
            None => {
                return Err(LockError::BadPreSig);
            },
        };
        let r_x_pk = pubkey.scalar_mul(&r_x_fe);
        let s_tag_r_1_R_0 = lock_party0_message1.R_0.scalar_mul(r_1).scalar_mul(&self.s_tag);
        let e_fe = FE::from_bigint(message);
        let e_g = g.scalar_mul(&e_fe);
        if s_tag_r_1_R_0.equals(&e_g.add(&r_x_pk)) {
            Ok((self.s_tag, r_x_fe))
        } else {
            Err(LockError::BadPreSig)
        }
    }
}

} // verus!
