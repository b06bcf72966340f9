//! The ways in which a governance operation can fail.

use vstd::prelude::*;

verus! {

/// Why an operation was refused.  Every failure is exactly one of these.
#[derive(Clone, Copy, Debug, PartialEq, Eq, Structural)]
pub enum GovernanceError {
    /// The token does not stand for a controller of the identity.
    Unauthorized,
    /// The controller has already voted on the proposal.
    DuplicateVote,
    /// The ledger's epoch is past the proposal's expiration epoch.
    Expired,
    /// The proposal's votes are below the committee's threshold.
    ThresholdNotMet,
    /// The ledger did not carry the transaction out: its state had moved on.
    VersionConflict,
    /// Something that had to be read from the ledger was not available.
    ClientError,
    /// The action cannot be carried out as it is written.
    MalformedAction,
}

impl GovernanceError {
    /// Whether the same call may succeed later, once the caller has read the
    /// ledger's state again.  All other failures persist until the input that
    /// caused them changes.
    pub open spec fn retryable(self) -> bool {
        self == GovernanceError::VersionConflict || self == GovernanceError::ClientError
    }

    /// Computes [`GovernanceError::retryable`].
    pub fn is_retryable(&self) -> (b: bool)
        ensures
            b == self.retryable(),
    {
        match self {
            GovernanceError::VersionConflict => true,
            GovernanceError::ClientError => true,
            GovernanceError::Unauthorized => false,
            GovernanceError::DuplicateVote => false,
            GovernanceError::Expired => false,
            GovernanceError::ThresholdNotMet => false,
            GovernanceError::MalformedAction => false,
        }
    }
}

} // verus!
