//! Credential-gated ballots for a single organization.
//!
//! An organization issues one administrator credential and any number of
//! member credentials, holds at most one time-boxed ballot at a time, admits
//! one vote per member and ballot name, and keeps an append-only ledger of
//! the outcomes.

pub mod ballot;
pub mod clock;
pub mod credential;
pub mod error;
pub mod labels;
pub mod laws;
pub mod ledger;
pub mod member;
pub mod vote;

pub use ballot::{CurrentVote, VoteChoice};
pub use credential::{Credential, CredentialClass, Operation};
pub use error::VoteError;
pub use labels::Labels;
pub use ledger::ResultLedger;
pub use member::{Member, MemberRegistry};
pub use vote::Vote;
