//! Paillier encryption, as far as the locked signing uses it. Ciphertexts and
//! keys are plain numbers here; the arithmetic is done by the Paillier library.
use crate::bigint::BigInt;
use curv::arithmetic::traits::Converter;
use kzen_paillier::{
    Add, Decrypt, EncryptWithChosenRandomness, KeyGeneration, Mul, Paillier, Randomness,
    RawCiphertext, RawPlaintext,
};
use vstd::arithmetic::power::pow;
use vstd::prelude::*;

verus! {

/// Whether no number above one divides both `a` and `b`.
pub open spec fn coprime(a: nat, b: nat) -> bool {
    forall|d: nat| d > 1 ==> !(#[trigger] (a % d) == 0 && b % d == 0)
}

/// The encryption of `m` under the modulus `n` with the randomness `r`:
/// `(1 + m n) r^n mod n^2`.
pub open spec fn paillier_ciphertext(n: nat, m: nat, r: nat) -> nat {
    ((((m * n + 1) % (n * n)) as int * (pow(r as int, n) % ((n * n) as int))) % ((n * n) as int))
        as nat
}

/// The ciphertext of the product of the plaintext of `c` with `m`:
/// `c^m mod n^2`.
pub open spec fn paillier_scaled(n: nat, c: nat, m: nat) -> nat {
    (pow(c as int, m) % ((n * n) as int)) as nat
}

/// The ciphertext of the sum of two plaintexts: `c1 c2 mod n^2`.
pub open spec fn paillier_sum(n: nat, c1: nat, c2: nat) -> nat {
    (c1 * c2) % (n * n)
}

/// What decryption under the primes `p` and `q` returns for the ciphertext `c`.
pub uninterp spec fn paillier_plaintext(p: nat, q: nat, c: nat) -> nat;

/// A Paillier encryption key: the modulus `n`.
#[derive(Debug)]
pub struct EncryptionKey {
    pub n: BigInt,
}

impl Clone for EncryptionKey {
    fn clone(&self) -> (r: Self)
        ensures
            r.n@ == self.n@,
    {
        EncryptionKey { n: self.n.clone() }
    }
}

/// A Paillier decryption key: the two factors of the modulus.
#[derive(Debug)]
pub struct DecryptionKey {
    pub p: BigInt,
    pub q: BigInt,
}

impl Clone for DecryptionKey {
    fn clone(&self) -> (r: Self)
        ensures
            r.p@ == self.p@,
            r.q@ == self.q@,
    {
        DecryptionKey { p: self.p.clone(), q: self.q.clone() }
    }
}

impl EncryptionKey {
    /// An encryption key is well formed when its modulus is not zero.
    pub open spec fn wf(&self) -> bool {
        self.n@ > 0
    }
}

impl DecryptionKey {
    /// A decryption key is well formed when its factors are at least two and
    /// coprime, as two distinct primes are.
    pub open spec fn wf(&self) -> bool {
        self.p@ >= 2 && self.q@ >= 2 && coprime(self.p@, self.q@)
    }
}

/// A fresh Paillier key pair with a modulus of 2048 bits.
///
/// Trusted: `Paillier::keypair().keys()`. The primes are drawn at random; of
/// every outcome the contract claims only what the source computes: the
/// modulus of the encryption key is the product of the two factors, each of
/// which has its top and bottom bit set.
#[verifier::external_body]
pub fn get_paillier_keys() -> (r: (EncryptionKey, DecryptionKey))
    ensures
        r.0.wf(),
        r.0.n@ == r.1.p@ * r.1.q@,
        r.1.p@ >= 2,
        r.1.q@ >= 2,
{
    let (ek, dk) = Paillier::keypair().keys();
    (
        EncryptionKey { n: BigInt { bytes: ek.n.to_bytes() } },
        DecryptionKey { p: BigInt { bytes: dk.p.to_bytes() }, q: BigInt { bytes: dk.q.to_bytes() } },
    )
}

/// Trusted: `Paillier::encrypt_with_chosen_randomness` with a `Randomness`,
/// which computes `((m n + 1) mod n^2) (r^n mod n^2) mod n^2`.
#[verifier::external_body]
pub(crate) fn encrypt_with(ek: &EncryptionKey, m: &BigInt, r: &BigInt) -> (c: BigInt)
    requires
        ek.wf(),
    ensures
        c@ == paillier_ciphertext(ek.n@, m@, r@),
{
    let key = kzen_paillier::EncryptionKey::from(&curv::BigInt::from_bytes(&ek.n.bytes));
    let plain = RawPlaintext::from(curv::BigInt::from_bytes(&m.bytes));
    let rand = Randomness(curv::BigInt::from_bytes(&r.bytes));
    let c: RawCiphertext = Paillier::encrypt_with_chosen_randomness(&key, plain, &rand);
    BigInt { bytes: c.0.to_bytes() }
}

/// Trusted: `Paillier::mul` of a ciphertext and a plaintext, which computes
/// `c^m mod n^2`.
#[verifier::external_body]
pub(crate) fn scale(ek: &EncryptionKey, c: &BigInt, m: &BigInt) -> (r: BigInt)
    requires
        ek.wf(),
    ensures
        r@ == paillier_scaled(ek.n@, c@, m@),
{
    let key = kzen_paillier::EncryptionKey::from(&curv::BigInt::from_bytes(&ek.n.bytes));
    let cipher = RawCiphertext::from(curv::BigInt::from_bytes(&c.bytes));
    let plain = RawPlaintext::from(curv::BigInt::from_bytes(&m.bytes));
    let out: RawCiphertext = Paillier::mul(&key, cipher, plain);
    BigInt { bytes: out.0.to_bytes() }
}

/// Trusted: `Paillier::add` of two ciphertexts, which computes
/// `c1 c2 mod n^2`.
#[verifier::external_body]
pub(crate) fn combine(ek: &EncryptionKey, c1: &BigInt, c2: &BigInt) -> (r: BigInt)
    requires
        ek.wf(),
    ensures
        r@ == paillier_sum(ek.n@, c1@, c2@),
{
    let key = kzen_paillier::EncryptionKey::from(&curv::BigInt::from_bytes(&ek.n.bytes));
    let a = RawCiphertext::from(curv::BigInt::from_bytes(&c1.bytes));
    let b = RawCiphertext::from(curv::BigInt::from_bytes(&c2.bytes));
    let out: RawCiphertext = Paillier::add(&key, a, b);
    BigInt { bytes: out.0.to_bytes() }
}

/// Trusted: `Paillier::decrypt` with a decryption key. The library inverts
/// `p` modulo `q` and divides by both, which fails unless the factors are
/// coprime and above one; the key's well-formedness leaves those out. The
/// result depends on the key and the ciphertext alone and is named
/// `paillier_plaintext`.
#[verifier::external_body]
pub(crate) fn decrypt(dk: &DecryptionKey, c: &BigInt) -> (m: BigInt)
    requires
        dk.wf(),
    ensures
        m@ == paillier_plaintext(dk.p@, dk.q@, c@),
{
    let key = kzen_paillier::DecryptionKey {
        p: curv::BigInt::from_bytes(&dk.p.bytes),
        q: curv::BigInt::from_bytes(&dk.q.bytes),
    };
    let cipher = RawCiphertext::from(curv::BigInt::from_bytes(&c.bytes));
    let plain: RawPlaintext = Paillier::decrypt(&key, cipher);
    BigInt { bytes: plain.0.to_bytes() }
}

} // verus!
