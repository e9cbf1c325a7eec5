//! The two zero-knowledge proofs of the protocol: knowledge of a discrete
//! logarithm (Schnorr), and equality of two discrete logarithms
//! (Chaum-Pedersen). Both are made and checked by the curve library.
use crate::point::{ec_base, ec_mul, GE};
use crate::scalar::FE;
use curv::arithmetic::traits::Converter;
use curv::cryptographic_primitives::proofs::sigma_dlog::DLogProof as SchnorrProof;
use curv::cryptographic_primitives::proofs::sigma_ec_ddh::ECDDHProof as ChaumPedersenProof;
use curv::cryptographic_primitives::proofs::sigma_ec_ddh::ECDDHStatement as ChaumPedersenStatement;
use curv::cryptographic_primitives::proofs::sigma_ec_ddh::ECDDHWitness as ChaumPedersenWitness;
use curv::elliptic::curves::{Point, Scalar, Secp256k1};
use curv::HashChoice;
use sha2::Sha256;
use vstd::prelude::*;

verus! {

/// Whether the verifier of the discrete-logarithm proof accepts the proof
/// `(pk, commitment, response)`.
pub uninterp spec fn dlog_accepts(pk: Seq<u8>, commitment: Seq<u8>, response: nat) -> bool;

/// Whether the verifier of the equality proof accepts `(a1, a2, z)` for the
/// statement `(g1, h1, g2, h2)`.
pub uninterp spec fn ddh_accepts(
    g1: Seq<u8>,
    h1: Seq<u8>,
    g2: Seq<u8>,
    h2: Seq<u8>,
    a1: Seq<u8>,
    a2: Seq<u8>,
    z: nat,
) -> bool;

/// A proof of knowledge of the discrete logarithm of `pk`.
#[derive(Clone, Copy, Debug)]
pub struct DLogProof {
    pub pk: GE,
    pub pk_t_rand_commitment: GE,
    pub challenge_response: FE,
}

/// A proof that `h1` and `h2` have the same discrete logarithm to the bases
/// `g1` and `g2`.
#[derive(Clone, Copy, Debug)]
pub struct ECDDHProof {
    pub a1: GE,
    pub a2: GE,
    pub z: FE,
}

/// What an equality proof is about: `h1 = x * g1` and `h2 = x * g2`.
#[derive(Clone, Copy, Debug)]
pub struct ECDDHStatement {
    pub g1: GE,
    pub h1: GE,
    pub g2: GE,
    pub h2: GE,
}

impl DLogProof {
    /// A proof is well formed when its points and its scalar are.
    pub open spec fn wf(&self) -> bool {
        self.pk.wf() && self.pk_t_rand_commitment.wf() && self.challenge_response.wf()
    }

    /// Whether the verifier accepts this proof.
    pub open spec fn accepted(&self) -> bool {
        dlog_accepts(self.pk@, self.pk_t_rand_commitment@, self.challenge_response@)
    }

    /// Proves knowledge of `sk` for the point `sk * G`. The proof that comes
    /// back is one that `verify` accepts.
    pub fn prove(sk: &FE) -> (r: DLogProof)
        requires
            sk.wf(),
        ensures
            r.wf(),
            r.pk@ == ec_base(sk@),
            r.accepted(),
    {
        dlog_prove(sk)
    }

    /// Whether the proof holds.
    pub fn verify(proof: &DLogProof) -> (r: bool)
        requires
            proof.wf(),
        ensures
            r == proof.accepted(),
    {
        dlog_verify(proof)
    }
}

impl ECDDHStatement {
    /// A statement is well formed when its four points are.
    pub open spec fn wf(&self) -> bool {
        self.g1.wf() && self.h1.wf() && self.g2.wf() && self.h2.wf()
    }

    /// Whether `x` is a witness of the statement.
    pub open spec fn holds_for(&self, x: nat) -> bool {
        self.h1@ == ec_mul(self.g1@, x) && self.h2@ == ec_mul(self.g2@, x)
    }
}

impl ECDDHProof {
    /// A proof is well formed when its points and its scalar are.
    pub open spec fn wf(&self) -> bool {
        self.a1.wf() && self.a2.wf() && self.z.wf()
    }

    /// Whether the verifier accepts this proof for the statement `delta`.
    pub open spec fn accepted(&self, delta: &ECDDHStatement) -> bool {
        ddh_accepts(delta.g1@, delta.h1@, delta.g2@, delta.h2@, self.a1@, self.a2@, self.z@)
    }

    /// Proves that `x` is the discrete logarithm of both `h1` and `h2`. Where
    /// `x` is a witness of the statement, `verify` accepts the proof.
    pub fn prove(x: &FE, delta: &ECDDHStatement) -> (r: ECDDHProof)
        requires
            x.wf(),
            delta.wf(),
        ensures
            r.wf(),
            delta.holds_for(x@) ==> r.accepted(delta),
    {
        ddh_prove(x, delta)
    }

    /// Whether the proof holds for the statement.
    pub fn verify(&self, delta: &ECDDHStatement) -> (r: bool)
        requires
            self.wf(),
            delta.wf(),
        ensures
            r == self.accepted(delta),
    {
        ddh_verify(self, delta)
    }
}

/// Trusted: `DLogProof::<Secp256k1, Sha256>::prove`. It draws a nonce, so two
/// calls differ. Of every outcome the contract claims what the source shows:
/// the proof's `pk` is `Point::generator() * sk`, which the library documents
/// to equal the product with the generator taken as a point; and the proof is
/// complete, that is, `verify` recomputes the same challenge and finds
/// `response * G + challenge * pk` equal to the commitment.
#[verifier::external_body]
fn dlog_prove(sk: &FE) -> (r: DLogProof)
    requires
        sk.wf(),
    ensures
        r.wf(),
        r.pk@ == ec_base(sk@),
        dlog_accepts(r.pk@, r.pk_t_rand_commitment@, r.challenge_response@),
{
    let ge = |p: &Point<Secp256k1>| GE { bytes: (*p.to_bytes(false)).try_into().unwrap() };
    let x = Scalar::<Secp256k1>::from_bigint(&curv::BigInt::from_bytes(&sk.bytes));
    let p = SchnorrProof::<Secp256k1, Sha256>::prove(&x);
    let response = p.challenge_response.to_bigint().to_bytes_array::<32>().unwrap();
    DLogProof {
        pk: ge(&p.pk),
        pk_t_rand_commitment: ge(&p.pk_t_rand_commitment),
        challenge_response: FE { bytes: response },
    }
}

/// Trusted: `DLogProof::<Secp256k1, Sha256>::verify`. Its verdict depends on
/// the three parts of the proof alone and is named `dlog_accepts`.
#[verifier::external_body]
fn dlog_verify(proof: &DLogProof) -> (r: bool)
    requires
        proof.wf(),
    ensures
        r == dlog_accepts(proof.pk@, proof.pk_t_rand_commitment@, proof.challenge_response@),
{
    let pt = |g: &GE| Point::<Secp256k1>::from_bytes(&g.bytes).unwrap();
    let response = curv::BigInt::from_bytes(&proof.challenge_response.bytes);
    let p = SchnorrProof::<Secp256k1, Sha256> {
        pk: pt(&proof.pk),
        pk_t_rand_commitment: pt(&proof.pk_t_rand_commitment),
        challenge_response: Scalar::from_bigint(&response),
        hash_choice: HashChoice::new(),
    };
    SchnorrProof::verify(&p).is_ok()
}

/// Trusted: `ECDDHProof::<Secp256k1, Sha256>::prove`. It draws a nonce, so two
/// calls differ. Of every outcome the contract claims completeness, as the
/// source shows it: for `h1 = x * g1` and `h2 = x * g2`, `verify` recomputes
/// the same challenge `e` and finds `z * g = a + e * h` on both sides.
#[verifier::external_body]
fn ddh_prove(x: &FE, delta: &ECDDHStatement) -> (r: ECDDHProof)
    requires
        x.wf(),
        delta.wf(),
    ensures
        r.wf(),
        delta.holds_for(x@) ==> ddh_accepts(
            delta.g1@,
            delta.h1@,
            delta.g2@,
            delta.h2@,
            r.a1@,
            r.a2@,
            r.z@,
        ),
{
    let pt = |g: &GE| Point::from_bytes(&g.bytes).unwrap();
    let ge = |p: &Point<Secp256k1>| GE { bytes: (*p.to_bytes(false)).try_into().unwrap() };
    let w = ChaumPedersenWitness { x: Scalar::from_bigint(&curv::BigInt::from_bytes(&x.bytes)) };
    let d = ChaumPedersenStatement {
        g1: pt(&delta.g1),
        h1: pt(&delta.h1),
        g2: pt(&delta.g2),
        h2: pt(&delta.h2),
    };
    let p = ChaumPedersenProof::<Secp256k1, Sha256>::prove(&w, &d);
    let z = FE { bytes: p.z.to_bigint().to_bytes_array().unwrap() };
    ECDDHProof { a1: ge(&p.a1), a2: ge(&p.a2), z }
}

/// Trusted: `ECDDHProof::<Secp256k1, Sha256>::verify`. Its verdict depends on
/// the statement and the three parts of the proof alone and is named
/// `ddh_accepts`.
#[verifier::external_body]
fn ddh_verify(proof: &ECDDHProof, delta: &ECDDHStatement) -> (r: bool)
    requires
        proof.wf(),
        delta.wf(),
    ensures
        r == ddh_accepts(delta.g1@, delta.h1@, delta.g2@, delta.h2@, proof.a1@, proof.a2@, proof.z@),
{
    let pt = |g: &GE| Point::from_bytes(&g.bytes).unwrap();
    let d = ChaumPedersenStatement {
        g1: pt(&delta.g1),
        h1: pt(&delta.h1),
        g2: pt(&delta.g2),
        h2: pt(&delta.h2),
    };
    let p = ChaumPedersenProof::<Secp256k1, Sha256> {
        a1: pt(&proof.a1),
        a2: pt(&proof.a2),
        z: Scalar::from_bigint(&curv::BigInt::from_bytes(&proof.z.bytes)),
        hash_choice: HashChoice::new(),
    };
    p.verify(&d).is_ok()
}

} // verus!
