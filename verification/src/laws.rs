//! What holds of every organization, whatever was done to it before.
//!
//! Each law is stated over the mathematical content of an organization and
//! the transition functions by which the operations of `Vote` are specified.

use crate::ballot::{CurrentVote, VoteChoice};
use crate::clock::{at_or_after, minute_of, rounded_to_minutes, spec_end_time, strictly_before};
use crate::credential::{CredentialClass, CredentialView, Operation};
use crate::error::VoteError;
use crate::ledger::{views_of, ResultLedger};
use crate::member::{lemma_voters_bounded, lemma_voters_push, lemma_voters_record};
use crate::vote::VoteView;
use vstd::prelude::*;

verus! {

/// One vote per member and ballot: after a member's vote was admitted, a
/// second vote of the same member, while the same ballot still admits
/// votes, is refused as `AlreadyVoted` and changes nothing, the tallies
/// included.
pub proof fn law_second_vote_is_refused(
    org: VoteView,
    first: VoteChoice,
    second: VoteChoice,
    member: CredentialView,
    now: int,
    later: int,
)
    requires
        org.vote_result(member, now) is Ok,
        org.after_vote(first, member, now).current_vote->0.accepts_votes(later),
    ensures
        org.after_vote(first, member, now).vote_result(member, later) == Err::<(), VoteError>(
            VoteError::AlreadyVoted,
        ),
        org.after_vote(first, member, now).after_vote(second, member, later) == org.after_vote(
            first,
            member,
            now,
        ),
{
}

/// A member whose history holds the name of the ballot in the slot cannot
/// vote on it, however the organization came to this state.
pub proof fn law_recorded_vote_blocks(
    org: VoteView,
    choice: VoteChoice,
    member: CredentialView,
    now: int,
)
    requires
        org.current_vote is Some,
        org.current_vote->0.accepts_votes(now),
        org.verifies(member, CredentialClass::Member),
        org.members[member.id as int].contains(org.current_vote->0.name),
    ensures
        org.vote_result(member, now) == Err::<(), VoteError>(VoteError::AlreadyVoted),
        org.after_vote(choice, member, now) == org,
{
}

/// The history of `before` is kept in `after`: every member is still a
/// member, and has still voted in every ballot that the member had voted in.
pub open spec fn history_kept(before: VoteView, after: VoteView) -> bool {
    &&& before.members.len() <= after.members.len()
    &&& forall|id: int|
        0 <= id < before.members.len() ==> #[trigger] before.members[id].subset_of(
            after.members[id],
        )
}

/// Voting histories are permanent: no operation removes a member or a name
/// from a member's history.
pub proof fn law_history_is_permanent(
    org: VoteView,
    presented: CredentialView,
    name: Seq<char>,
    duration: int,
    choice: VoteChoice,
    now: int,
)
    ensures
        history_kept(org, org.after_become_member(presented)),
        history_kept(org, org.after_new_vote(presented, name, duration, now)),
        history_kept(org, org.after_vote(choice, presented, now)),
        history_kept(org, org.after_end_vote(now)),
{
}

/// One operation on an organization, with what the caller supplies.
pub enum Step {
    BecomeMember { admin: CredentialView },
    NewVote { admin: CredentialView, name: Seq<char>, duration: int, now: int },
    Vote { choice: VoteChoice, member_proof: CredentialView, now: int },
    EndVote { now: int },
}

/// The organization after one operation.
pub open spec fn after_step(org: VoteView, step: Step) -> VoteView {
    match step {
        Step::BecomeMember { admin } => org.after_become_member(admin),
        Step::NewVote { admin, name, duration, now } => org.after_new_vote(
            admin,
            name,
            duration,
            now,
        ),
        Step::Vote { choice, member_proof, now } => org.after_vote(choice, member_proof, now),
        Step::EndVote { now } => org.after_end_vote(now),
    }
}

/// The organization after a sequence of operations, first to last.
pub open spec fn after_steps(org: VoteView, steps: Seq<Step>) -> VoteView
    decreases steps.len(),
{
    if steps.len() == 0 {
        org
    } else {
        after_step(after_steps(org, steps.drop_last()), steps.last())
    }
}

/// Whatever is done to an organization, in whatever order and with whatever
/// outcome: it keeps its name, every member with the whole voting history,
/// and every receipt in its place; and if it was well formed, it still is.
pub proof fn law_nothing_is_lost(org: VoteView, steps: Seq<Step>)
    ensures
        after_steps(org, steps).org_name == org.org_name,
        history_kept(org, after_steps(org, steps)),
        org.vote_results.is_prefix_of(after_steps(org, steps).vote_results),
        org.wf() ==> after_steps(org, steps).wf(),
    decreases steps.len(),
{
    if steps.len() > 0 {
        let before = after_steps(org, steps.drop_last());
        law_nothing_is_lost(org, steps.drop_last());
        let blank = CredentialView::admin(Seq::empty());
        let (presented, name, duration, choice, now) = match steps.last() {
            Step::BecomeMember { admin } => (admin, Seq::empty(), 0int, VoteChoice::Yes, 0int),
            Step::NewVote { admin, name, duration, now } => (
                admin,
                name,
                duration,
                VoteChoice::Yes,
                now,
            ),
            Step::Vote { choice, member_proof, now } => (
                member_proof,
                Seq::empty(),
                0int,
                choice,
                now,
            ),
            Step::EndVote { now } => (blank, Seq::empty(), 0int, VoteChoice::Yes, now),
        };
        law_history_is_permanent(before, presented, name, duration, choice, now);
        law_ledger_is_append_only(before, presented, name, duration, choice, now);
        if org.wf() {
            law_operations_keep_well_formed(before, presented, name, duration, choice, now);
        }
        let after = after_steps(org, steps);
        assert forall|id: int| 0 <= id < org.members.len() implies #[trigger] org.members[id].subset_of(
            after.members[id],
        ) by {
            assert(org.members[id].subset_of(before.members[id]));
            assert(before.members[id].subset_of(after.members[id]));
        }
    }
}

/// Every organization that was instantiated under a name and operated on
/// since is well formed.
pub proof fn law_every_reachable_state_is_well_formed(org_name: Seq<char>, steps: Seq<Step>)
    requires
        org_name.len() > 0,
    ensures
        after_steps(VoteView::initial(org_name), steps).wf(),
{
    law_nothing_is_lost(VoteView::initial(org_name), steps);
}

/// A vote is never forgotten: once a member's history holds a ballot name,
/// then after any sequence of operations the member's vote on a ballot of
/// that name is refused as `AlreadyVoted` whenever such a ballot is in the
/// slot and admits votes.
pub proof fn law_no_second_vote_ever(
    org: VoteView,
    steps: Seq<Step>,
    choice: VoteChoice,
    member: CredentialView,
    now: int,
)
    requires
        org.verifies(member, CredentialClass::Member),
        after_steps(org, steps).current_vote is Some,
        org.members[member.id as int].contains(after_steps(org, steps).current_vote->0.name),
        after_steps(org, steps).current_vote->0.accepts_votes(now),
    ensures
        after_steps(org, steps).vote_result(member, now) == Err::<(), VoteError>(
            VoteError::AlreadyVoted,
        ),
        after_steps(org, steps).after_vote(choice, member, now) == after_steps(org, steps),
{
    law_nothing_is_lost(org, steps);
    let later = after_steps(org, steps);
    assert(org.members[member.id as int].subset_of(later.members[member.id as int]));
}

/// A duration that is not positive opens no ballot: the attempt is refused
/// and the organization, its slot included, stays as it was. For an
/// administrator who finds the slot empty the refusal is `InvalidDuration`.
pub proof fn law_nonpositive_duration_is_refused(
    org: VoteView,
    admin: CredentialView,
    name: Seq<char>,
    duration: int,
    now: int,
)
    requires
        duration <= 0,
    ensures
        org.new_vote_result(admin, duration) is Err,
        org.after_new_vote(admin, name, duration, now) == org,
        org.authorizes(Operation::OpenBallot, Some(admin)) && org.current_vote is None
            ==> org.new_vote_result(admin, duration) == Err::<(), VoteError>(
            VoteError::InvalidDuration,
        ),
{
}

/// While a ballot occupies the slot, the administrator's attempt to open
/// another is refused as `ConflictingBallot`, whether or not the window of
/// the ballot in the slot has passed, and changes nothing.
pub proof fn law_occupied_slot_blocks_new_ballot(
    org: VoteView,
    admin: CredentialView,
    name: Seq<char>,
    duration: int,
    now: int,
)
    requires
        org.current_vote is Some,
        org.authorizes(Operation::OpenBallot, Some(admin)),
    ensures
        org.new_vote_result(admin, duration) == Err::<(), VoteError>(VoteError::ConflictingBallot),
        org.after_new_vote(admin, name, duration, now) == org,
{
}

/// Without the administrator's credential neither a member credential is
/// issued nor a ballot opened, and nothing changes.
pub proof fn law_admin_credential_is_required(
    org: VoteView,
    presented: CredentialView,
    name: Seq<char>,
    duration: int,
    now: int,
)
    requires
        !org.verifies(presented, CredentialClass::Admin),
    ensures
        org.become_member_result(presented) == Err::<CredentialView, VoteError>(
            VoteError::Unauthorized,
        ),
        org.after_become_member(presented) == org,
        org.new_vote_result(presented, duration) == Err::<(), VoteError>(VoteError::Unauthorized),
        org.after_new_vote(presented, name, duration, now) == org,
{
}

/// A vote is refused as `NoActiveBallot` while the slot is empty, and as
/// `BallotExpired` once the current time has reached the end of the ballot
/// in the slot. Either way nothing changes.
pub proof fn law_vote_outside_window_is_refused(
    org: VoteView,
    choice: VoteChoice,
    member: CredentialView,
    now: int,
)
    ensures
        org.current_vote is None ==> org.vote_result(member, now) == Err::<(), VoteError>(
            VoteError::NoActiveBallot,
        ),
        org.current_vote is Some && org.current_vote->0.has_ended(now) ==> org.vote_result(
            member,
            now,
        ) == Err::<(), VoteError>(VoteError::BallotExpired),
        org.current_vote is None || org.current_vote->0.has_ended(now) ==> org.after_vote(
            choice,
            member,
            now,
        ) == org,
{
}

/// Finalizing is refused as `BallotNotYetEnded` strictly before the end of
/// the ballot and changes nothing then. From the end on it succeeds: the
/// ledger grows by exactly one receipt, which is the ballot as it last stood
/// in the slot, the slot is empty, and the members are as they were.
pub proof fn law_finalize_at_end(org: VoteView, now: int)
    requires
        org.current_vote is Some,
    ensures
        !org.current_vote->0.has_ended(now) ==> {
            &&& org.end_vote_result(now) == Err::<(), VoteError>(VoteError::BallotNotYetEnded)
            &&& org.after_end_vote(now) == org
        },
        org.current_vote->0.has_ended(now) ==> {
            &&& org.end_vote_result(now) == Ok::<(), VoteError>(())
            &&& org.after_end_vote(now).vote_results == org.vote_results.push(org.current_vote->0)
            &&& org.after_end_vote(now).current_vote is None
            &&& org.after_end_vote(now).members == org.members
            &&& org.after_end_vote(now).org_name == org.org_name
        },
{
}

/// At every instant a ballot in the slot either admits votes or can be
/// finalized, never both.
pub proof fn law_windows_are_complementary(
    org: VoteView,
    choice: VoteChoice,
    member: CredentialView,
    now: int,
)
    requires
        org.current_vote is Some,
    ensures
        org.end_vote_result(now) is Ok <==> org.vote_result(member, now) == Err::<(), VoteError>(
            VoteError::BallotExpired,
        ),
{
}

/// An admitted vote raises the tally of its choice by one and leaves the
/// other tally, the name and the end of the ballot as they were.
pub proof fn law_vote_counts_once(
    org: VoteView,
    choice: VoteChoice,
    member: CredentialView,
    now: int,
)
    requires
        org.vote_result(member, now) is Ok,
    ensures
        ({
            let before = org.current_vote->0;
            let after = org.after_vote(choice, member, now).current_vote->0;
            &&& org.after_vote(choice, member, now).current_vote is Some
            &&& after.name == before.name
            &&& after.end == before.end
            &&& after.total() == before.total() + 1
            &&& choice == VoteChoice::Yes ==> after.yes_votes == before.yes_votes + 1
                && after.no_votes == before.no_votes
            &&& choice == VoteChoice::No ==> after.no_votes == before.no_votes + 1
                && after.yes_votes == before.yes_votes
        }),
{
}

/// The ledger is append-only: whatever the operation, the receipts that
/// were in the ledger are still there, unchanged and in their places.
pub proof fn law_ledger_is_append_only(
    org: VoteView,
    presented: CredentialView,
    name: Seq<char>,
    duration: int,
    choice: VoteChoice,
    now: int,
)
    ensures
        org.after_become_member(presented).vote_results == org.vote_results,
        org.after_new_vote(presented, name, duration, now).vote_results == org.vote_results,
        org.after_vote(choice, presented, now).vote_results == org.vote_results,
        org.vote_results.is_prefix_of(org.after_end_vote(now).vote_results),
{
}

/// Every operation keeps an organization well formed.
pub proof fn law_operations_keep_well_formed(
    org: VoteView,
    presented: CredentialView,
    name: Seq<char>,
    duration: int,
    choice: VoteChoice,
    now: int,
)
    requires
        org.wf(),
    ensures
        org.after_become_member(presented).wf(),
        org.after_new_vote(presented, name, duration, now).wf(),
        org.after_vote(choice, presented, now).wf(),
        org.after_end_vote(now).wf(),
{
    if org.current_vote is Some {
        let ballot = org.current_vote->0;
        lemma_voters_push(org.members, Set::<Seq<char>>::empty(), ballot.name);
        if org.vote_result(presented, now) is Ok {
            lemma_voters_record(org.members, presented.id as int, ballot.name);
        }
    }
}

/// In a well-formed organization the ballot in the slot has at most one
/// vote for each member.
pub proof fn law_tallies_bounded_by_members(org: VoteView)
    requires
        org.wf(),
        org.current_vote is Some,
    ensures
        org.current_vote->0.total() <= org.members.len(),
{
    lemma_voters_bounded(org.members, org.current_vote->0.name);
}

/// The voting window and the finalization window of one end time are
/// complementary: every instant falls in exactly one of them.
pub proof fn law_windows_partition(now: int, end: int)
    ensures
        strictly_before(now, end) <==> !at_or_after(now, end),
{
}

/// The comparisons see only the minute of an instant: rounding either side
/// down to its minute changes no answer.
pub proof fn law_minute_precision(now: int, end: int)
    ensures
        strictly_before(now, end) == strictly_before(rounded_to_minutes(now), end),
        strictly_before(now, end) == strictly_before(now, rounded_to_minutes(end)),
        minute_of(rounded_to_minutes(now)) == minute_of(now),
{
}

/// The end of a window starts a minute, and lies exactly `duration` minutes
/// after the minute in which the window was opened.
pub proof fn law_end_time_starts_a_minute(now: int, duration: int)
    requires
        spec_end_time(now, duration) is Some,
    ensures
        minute_of(spec_end_time(now, duration)->0) == minute_of(now) + duration,
        rounded_to_minutes(spec_end_time(now, duration)->0) == spec_end_time(now, duration)->0,
{
}

/// Reading the ledger is repeatable: two enumerations of one ledger hold the
/// same receipts in the same order.
pub proof fn law_enumeration_is_repeatable(
    ledger: ResultLedger,
    first: Seq<CurrentVote>,
    second: Seq<CurrentVote>,
)
    requires
        views_of(first) == ledger@,
        views_of(second) == ledger@,
    ensures
        views_of(first) == views_of(second),
        first.len() == second.len(),
{
    assert(views_of(first).len() == first.len());
    assert(views_of(second).len() == second.len());
}

} // verus!
