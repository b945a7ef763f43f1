//! The ways in which an operation on an organization can be refused.

use vstd::prelude::*;

verus! {

/// Why an operation was refused. A refused operation leaves the
/// organization exactly as it was.
#[derive(Clone, Copy, Debug, PartialEq, Eq, Structural)]
pub enum VoteError {
    /// The caller does not hold the credential tier that the operation
    /// statically requires.
    Unauthorized,
    /// The presented proof does not resolve to a live credential of the
    /// required class of this organization.
    InvalidCredential,
    /// A ballot already occupies the slot, whether or not its window has
    /// passed.
    ConflictingBallot,
    /// The duration of a new ballot is not positive.
    InvalidDuration,
    /// The slot is empty.
    NoActiveBallot,
    /// The current time is not strictly before the end of the ballot.
    BallotExpired,
    /// The current time has not reached the end of the ballot.
    BallotNotYetEnded,
    /// The member has already voted on a ballot of this name.
    AlreadyVoted,
}

impl VoteError {
    /// The text that describes each refusal.
    pub open spec fn spec_message(self) -> Seq<char> {
        match self {
            VoteError::Unauthorized => "Caller is not authorized"@,
            VoteError::InvalidCredential => "Credential is not valid"@,
            VoteError::ConflictingBallot => "Vote is already in progress"@,
            VoteError::InvalidDuration => "Must have a positive duration"@,
            VoteError::NoActiveBallot => "No vote in progress"@,
            VoteError::BallotExpired => "Vote has expired"@,
            VoteError::BallotNotYetEnded => "Vote has not ended"@,
            VoteError::AlreadyVoted => "Member has already voted"@,
        }
    }

    /// A human-readable description of the refusal.
    pub fn message(&self) -> (text: String)
        ensures
            text@ == self.spec_message(),
    {
        match self {
            VoteError::Unauthorized => "Caller is not authorized".to_owned(),
            VoteError::InvalidCredential => "Credential is not valid".to_owned(),
            VoteError::ConflictingBallot => "Vote is already in progress".to_owned(),
            VoteError::InvalidDuration => "Must have a positive duration".to_owned(),
            VoteError::NoActiveBallot => "No vote in progress".to_owned(),
            VoteError::BallotExpired => "Vote has expired".to_owned(),
            VoteError::BallotNotYetEnded => "Vote has not ended".to_owned(),
            VoteError::AlreadyVoted => "Member has already voted".to_owned(),
        }
    }
}

} // verus!
