//! The ballot: a named, time-boxed yes/no vote with its two tallies.

use crate::clock::{at_or_after, end_time, is_at_or_after, is_strictly_before, spec_end_time,
    strictly_before};
use crate::error::VoteError;
use vstd::prelude::*;

verus! {

/// What a member may answer.
#[derive(Clone, Copy, Debug, PartialEq, Eq, Structural)]
pub enum VoteChoice {
    Yes,
    No,
}

/// The mathematical content of a ballot.
pub struct BallotView {
    /// The name, by which members' voting histories refer to the ballot.
    pub name: Seq<char>,
    /// The votes in favour so far.
    pub yes_votes: nat,
    /// The votes against so far.
    pub no_votes: nat,
    /// The end of the voting window, in seconds since the Unix epoch.
    pub end: int,
}

impl BallotView {
    /// A ballot as it is opened: without votes.
    pub open spec fn opened(name: Seq<char>, end: int) -> BallotView {
        BallotView { name, yes_votes: 0, no_votes: 0, end }
    }

    /// The ballot after one more vote of the given choice.
    pub open spec fn tallied(self, choice: VoteChoice) -> BallotView {
        match choice {
            VoteChoice::Yes => BallotView { yes_votes: self.yes_votes + 1, ..self },
            VoteChoice::No => BallotView { no_votes: self.no_votes + 1, ..self },
        }
    }

    /// The number of votes cast.
    pub open spec fn total(self) -> nat {
        self.yes_votes + self.no_votes
    }

    /// Votes are admitted at `now`: the end has not been reached.
    pub open spec fn accepts_votes(self, now: int) -> bool {
        strictly_before(now, self.end)
    }

    /// The ballot can be finalized at `now`: the end has been reached.
    pub open spec fn has_ended(self, now: int) -> bool {
        at_or_after(now, self.end)
    }
}

/// A ballot with its tallies. While it occupies the slot of an organization
/// it is the current vote; once finalized, a copy of it is the receipt of
/// the outcome.
#[derive(Debug)]
pub struct CurrentVote {
    pub yes_votes: u64,
    pub no_votes: u64,
    pub name: String,
    /// The end of the voting window, in seconds since the Unix epoch; set
    /// when the ballot is opened.
    pub end: i64,
}

impl View for CurrentVote {
    type V = BallotView;

    open spec fn view(&self) -> BallotView {
        BallotView {
            name: self.name@,
            yes_votes: self.yes_votes as nat,
            no_votes: self.no_votes as nat,
            end: self.end as int,
        }
    }
}

impl Clone for CurrentVote {
    fn clone(&self) -> (copy: Self)
        ensures
            copy == *self,
    {
        CurrentVote {
            yes_votes: self.yes_votes,
            no_votes: self.no_votes,
            name: self.name.clone(),
            end: self.end,
        }
    }
}

impl CurrentVote {
    /// Opens a ballot of `duration` minutes at `now`. The ballot ends
    /// `duration` minutes after the start of the current minute. A duration
    /// that is not positive is refused.
    pub fn open(name: String, duration: i64, now: i64) -> (opened: Result<CurrentVote, VoteError>)
        requires
            duration > 0 ==> spec_end_time(now as int, duration as int) is Some,
        ensures
            duration <= 0 ==> opened == Err::<CurrentVote, VoteError>(VoteError::InvalidDuration),
            duration > 0 ==> opened is Ok && opened->Ok_0.name == name && opened->Ok_0@
                == BallotView::opened(name@, spec_end_time(now as int, duration as int)->0),
    {
        if duration <= 0 {
            return Err(VoteError::InvalidDuration);
        }
        let end: i64 = end_time(now, duration).unwrap();
        Ok(CurrentVote { yes_votes: 0, no_votes: 0, name, end })
    }

    /// Whether votes are admitted at `now`.
    pub fn accepts_votes(&self, now: i64) -> (open: bool)
        ensures
            open == self@.accepts_votes(now as int),
    {
        is_strictly_before(now, self.end)
    }

    /// Whether the ballot can be finalized at `now`.
    pub fn has_ended(&self, now: i64) -> (ended: bool)
        ensures
            ended == self@.has_ended(now as int),
    {
        is_at_or_after(now, self.end)
    }

    /// Counts one more vote of the given choice.
    pub fn tally(&mut self, choice: VoteChoice)
        requires
            choice == VoteChoice::Yes ==> old(self).yes_votes < u64::MAX,
            choice == VoteChoice::No ==> old(self).no_votes < u64::MAX,
        ensures
            final(self)@ == old(self)@.tallied(choice),
            final(self).name == old(self).name,
    {
        match choice {
            VoteChoice::Yes => {
                self.yes_votes = self.yes_votes + 1;
            },
            VoteChoice::No => {
                self.no_votes = self.no_votes + 1;
            },
        }
    }
}

} // verus!
