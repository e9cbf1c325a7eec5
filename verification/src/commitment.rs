//! The hash commitment of the first round: a digest of four points, blinded.
use crate::bigint::BigInt;
use crate::point::GE;
use curv::arithmetic::traits::Converter;
use curv::cryptographic_primitives::commitments::hash_commitment::HashCommitment;
use curv::cryptographic_primitives::commitments::traits::Commitment;
use curv::cryptographic_primitives::hashing::{Digest, DigestExt};
use curv::elliptic::curves::{Point, Secp256k1};
use sha2::Sha256;
use sha3::Sha3_256;
use vstd::prelude::*;

verus! {

/// The SHA-256 digest of a list of encoded points, read as a number.
pub uninterp spec fn sha256_points(points: Seq<Seq<u8>>) -> nat;

/// The SHA3-256 commitment to `message` under the blinding factor `blind`.
pub uninterp spec fn sha3_commitment(message: nat, blind: nat) -> nat;

/// The commitment to four points under a blinding factor: the points are
/// hashed to a number, and that number is committed to.
pub open spec fn commitment_to(a: Seq<u8>, b: Seq<u8>, c: Seq<u8>, d: Seq<u8>, blind: nat) -> nat {
    sha3_commitment(sha256_points(seq![a, b, c, d]), blind)
}

/// Commits to four points under the blinding factor `blind`.
pub fn commit_to_points(a: &GE, b: &GE, c: &GE, d: &GE, blind: &BigInt) -> (r: BigInt)
    requires
        a.wf(),
        b.wf(),
        c.wf(),
        d.wf(),
    ensures
        r@ == commitment_to(a@, b@, c@, d@, blind@),
{
    let digest = hash_points(a, b, c, d);
    commit(&digest, blind)
}

/// Trusted: `Sha256::new().chain_points(..).result_bigint()` of the curve
/// library's hashing extension, over the four points in the order given. The
/// digest depends on the points alone and is named `sha256_points`.
#[verifier::external_body]
fn hash_points(a: &GE, b: &GE, c: &GE, d: &GE) -> (r: BigInt)
    requires
        a.wf(),
        b.wf(),
        c.wf(),
        d.wf(),
    ensures
        r@ == sha256_points(seq![a@, b@, c@, d@]),
{
    let pt = |g: &GE| Point::<Secp256k1>::from_bytes(&g.bytes).unwrap();
    let (pa, pb, pc, pd) = (pt(a), pt(b), pt(c), pt(d));
    let h = Sha256::new().chain_points([&pa, &pb, &pc, &pd]).result_bigint();
    BigInt { bytes: h.to_bytes() }
}

/// Trusted: `HashCommitment::<Sha3_256>::create_commitment_with_user_defined_randomness`,
/// which hashes the bytes of the message and then those of the blinding
/// factor. The result depends on the two numbers alone and is named
/// `sha3_commitment`.
#[verifier::external_body]
fn commit(message: &BigInt, blind: &BigInt) -> (r: BigInt)
    ensures
        r@ == sha3_commitment(message@, blind@),
{
    let m = curv::BigInt::from_bytes(&message.bytes);
    let b = curv::BigInt::from_bytes(&blind.bytes);
    let c = HashCommitment::<Sha3_256>::create_commitment_with_user_defined_randomness(&m, &b);
    BigInt { bytes: c.to_bytes() }
}

} // verus!
