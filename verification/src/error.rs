//! The ways in which a session of the lock can fail.
use vstd::prelude::*;

verus! {

/// Why a step was refused. Every one of these ends the session.
#[derive(Clone, Copy, Debug, PartialEq, Eq, Structural)]
pub enum LockError {
    /// The counterparty's proof of equal discrete logarithms did not hold.
    BadNIZK,
    /// The decommitment does not reproduce the commitment.
    BadCommitment,
    /// The pre-signature fails the check that binds it to the nonce.
    BadPreSig,
    /// The signature does not verify, or is not in low form.
    InvalidSignature,
    /// The proof of a chain link failed, or its points do not add up.
    ChainLinkInvalid,
    /// Neither sign of the release yields a signature that verifies.
    ReleaseFailed,
}

} // verus!
