//! Multi-hop payment locks over two-party ECDSA on secp256k1.
//!
//! A chain of hops is locked along a path so that one secret, released at the
//! last hop, lets every hop in turn complete its own ECDSA signature. The crate
//! holds the chain setup ([`chain`]), the two-party locked signing ([`lock`])
//! and the release cascade with the signature check ([`release`]); [`laws`]
//! states what holds across them.
//!
//! Scalars, points and big numbers are plain bytes here ([`scalar`], [`point`],
//! [`bigint`]), and every contract speaks of the numbers and encodings they
//! denote. Curve arithmetic, hashing, the zero-knowledge proofs ([`proofs`],
//! [`commitment`]) and Paillier encryption ([`paillier`]) are computed by the
//! `curv` and `kzen-paillier` crates. Each call into them stands in a small
//! function whose contract is assumed, not proved, and whose comment begins
//! with the word "Trusted" and says what is assumed.
#![allow(non_snake_case)]

pub mod bigint;
pub mod chain;
pub mod commitment;
pub mod error;
pub mod laws;
pub mod lock;
pub mod paillier;
pub mod point;
pub mod proofs;
pub mod release;
pub mod scalar;

pub use crate::bigint::BigInt;
pub use crate::chain::{ChainLink, ChainLinkUn, MultiHopLock};
pub use crate::error::LockError;
pub use crate::lock::{
    DecommitLockParty1Message1, LockParty0Message1, LockParty0Message2, LockParty1Message1,
    LockParty1Message2, PartialSig,
};
pub use crate::paillier::{get_paillier_keys, DecryptionKey, EncryptionKey};
pub use crate::point::GE;
pub use crate::proofs::{DLogProof, ECDDHProof, ECDDHStatement};
pub use crate::release::{vf, Release, K, L, SL, SR};
pub use crate::scalar::FE;
