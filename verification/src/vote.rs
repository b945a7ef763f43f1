//! The organization: one ballot slot, the member registry and the result
//! ledger, with the access control in front of them.

use crate::ballot::{BallotView, CurrentVote, VoteChoice};
use crate::clock::spec_end_time;
use crate::credential::{required_class, required_tier, Credential, CredentialClass,
    CredentialView, Operation};
use crate::error::VoteError;
use crate::labels::Labels;
use crate::ledger::ResultLedger;
use crate::member::{lemma_voters_below_len, lemma_voters_push, lemma_voters_record, voters,
    MemberRegistry};
use vstd::prelude::*;

verus! {

/// The mathematical content of an organization.
pub struct VoteView {
    /// The name of the organization.
    pub org_name: Seq<char>,
    /// The slot: empty, or the one ballot in progress.
    pub current_vote: Option<BallotView>,
    /// For each member, by identity, the names of the ballots that the
    /// member has voted in.
    pub members: Seq<Set<Seq<char>>>,
    /// The receipts of the finalized ballots, oldest first.
    pub vote_results: Seq<BallotView>,
}

/// The mathematical content of a slot.
pub open spec fn slot_view(slot: Option<CurrentVote>) -> Option<BallotView> {
    match slot {
        Some(ballot) => Some(ballot@),
        None => None,
    }
}

impl VoteView {
    /// The organization as it is instantiated: no ballot, no member, no
    /// receipt.
    pub open spec fn initial(org_name: Seq<char>) -> VoteView {
        VoteView {
            org_name,
            current_vote: None,
            members: Seq::empty(),
            vote_results: Seq::empty(),
        }
    }

    /// The name is not empty, and the ballot in the slot has no more votes
    /// than there are members whose history holds its name.
    pub open spec fn wf(self) -> bool {
        &&& self.org_name.len() > 0
        &&& self.current_vote matches Some(ballot) ==> ballot.total() <= voters(
            self.members,
            ballot.name,
        )
    }

    /// How many credentials of a class the organization has issued: one
    /// administrator credential, one internal credential, and one member
    /// credential for each member.
    pub open spec fn issued(self, class: CredentialClass) -> nat {
        match class {
            CredentialClass::Admin => 1,
            CredentialClass::Internal => 1,
            CredentialClass::Member => self.members.len(),
        }
    }

    /// The credential is one that this organization has issued in the given
    /// class.
    pub open spec fn verifies(self, credential: CredentialView, class: CredentialClass) -> bool {
        &&& credential.org == self.org_name
        &&& credential.class == class
        &&& credential.id < self.issued(class)
    }

    /// A caller who presents `presented` is allowed to perform `operation`.
    pub open spec fn authorizes(
        self,
        operation: Operation,
        presented: Option<CredentialView>,
    ) -> bool {
        match required_class(operation) {
            None => true,
            Some(class) => presented matches Some(credential) && self.verifies(credential, class),
        }
    }

    /// What issuing a member credential returns.
    pub open spec fn become_member_result(self, admin: CredentialView) -> Result<
        CredentialView,
        VoteError,
    > {
        if !self.authorizes(Operation::IssueMember, Some(admin)) {
            Err(VoteError::Unauthorized)
        } else {
            Ok(CredentialView::member(self.org_name, self.members.len()))
        }
    }

    /// The organization after an attempt to issue a member credential.
    pub open spec fn after_become_member(self, admin: CredentialView) -> VoteView {
        if self.become_member_result(admin) is Ok {
            VoteView { members: self.members.push(Set::empty()), ..self }
        } else {
            self
        }
    }

    /// What opening a ballot returns.
    pub open spec fn new_vote_result(self, admin: CredentialView, duration: int) -> Result<
        (),
        VoteError,
    > {
        if !self.authorizes(Operation::OpenBallot, Some(admin)) {
            Err(VoteError::Unauthorized)
        } else if self.current_vote is Some {
            Err(VoteError::ConflictingBallot)
        } else if duration <= 0 {
            Err(VoteError::InvalidDuration)
        } else {
            Ok(())
        }
    }

    /// The organization after an attempt to open a ballot.
    pub open spec fn after_new_vote(
        self,
        admin: CredentialView,
        name: Seq<char>,
        duration: int,
        now: int,
    ) -> VoteView {
        if self.new_vote_result(admin, duration) is Ok {
            VoteView {
                current_vote: Some(BallotView::opened(name, spec_end_time(now, duration)->0)),
                ..self
            }
        } else {
            self
        }
    }

    /// What casting a vote returns.
    pub open spec fn vote_result(self, member_proof: CredentialView, now: int) -> Result<
        (),
        VoteError,
    > {
        match self.current_vote {
            None => Err(VoteError::NoActiveBallot),
            Some(ballot) => {
                if !ballot.accepts_votes(now) {
                    Err(VoteError::BallotExpired)
                } else if !self.verifies(member_proof, CredentialClass::Member) {
                    Err(VoteError::InvalidCredential)
                } else if self.members[member_proof.id as int].contains(ballot.name) {
                    Err(VoteError::AlreadyVoted)
                } else {
                    Ok(())
                }
            },
        }
    }

    /// The organization after an attempt to cast a vote: where the vote is
    /// admitted, the member's history holds the ballot's name and the tally
    /// of the choice is one higher.
    pub open spec fn after_vote(
        self,
        choice: VoteChoice,
        member_proof: CredentialView,
        now: int,
    ) -> VoteView {
        if self.vote_result(member_proof, now) is Ok {
            let ballot = self.current_vote->0;
            let id = member_proof.id as int;
            VoteView {
                current_vote: Some(ballot.tallied(choice)),
                members: self.members.update(id, self.members[id].insert(ballot.name)),
                ..self
            }
        } else {
            self
        }
    }

    /// What finalizing returns.
    pub open spec fn end_vote_result(self, now: int) -> Result<(), VoteError> {
        match self.current_vote {
            None => Err(VoteError::NoActiveBallot),
            Some(ballot) => {
                if !ballot.has_ended(now) {
                    Err(VoteError::BallotNotYetEnded)
                } else {
                    Ok(())
                }
            },
        }
    }

    /// The organization after an attempt to finalize: where it succeeds, the
    /// ballot has moved from the slot to the end of the ledger.
    pub open spec fn after_end_vote(self, now: int) -> VoteView {
        if self.end_vote_result(now) is Ok {
            VoteView {
                current_vote: None,
                vote_results: self.vote_results.push(self.current_vote->0),
                ..self
            }
        } else {
            self
        }
    }
}

/// An organization that holds votes among its members: at most one ballot
/// at a time, one vote per member and ballot name, and a ledger of the
/// outcomes.
#[derive(Debug)]
pub struct Vote {
    org_name: String,
    current_vote: Option<CurrentVote>,
    members: MemberRegistry,
    vote_results: ResultLedger,
}

impl View for Vote {
    type V = VoteView;

    closed spec fn view(&self) -> VoteView {
        VoteView {
            org_name: self.org_name@,
            current_vote: slot_view(self.current_vote),
            members: self.members@,
            vote_results: self.vote_results@,
        }
    }
}

impl Vote {
    /// What holds of the representation besides `VoteView::wf`.
    pub closed spec fn inv(&self) -> bool {
        self.members.wf()
    }

    /// The organization is well formed. Every organization that this module
    /// hands out is, and every operation keeps it so.
    pub open spec fn wf(&self) -> bool {
        self@.wf() && self.inv()
    }

    /// Instantiates the organization named `org_name` and issues its one
    /// administrator credential.
    pub fn instantiate_vote(org_name: String) -> (created: (Vote, Credential))
        requires
            org_name@.len() > 0,
        ensures
            created.0.wf(),
            created.0@ == VoteView::initial(org_name@),
            created.1@ == CredentialView::admin(org_name@),
            created.0@.verifies(created.1@, CredentialClass::Admin),
    {
        let admin = Credential::admin(org_name.clone());
        let organization = Vote {
            org_name,
            current_vote: None,
            members: MemberRegistry::new(),
            vote_results: ResultLedger::new(),
        };
        (organization, admin)
    }

    /// Rebuilds an organization from its parts, as `into_parts` gave them.
    /// Parts that make no well-formed organization are refused: an empty
    /// name, or a ballot with more votes than there are members whose
    /// history holds its name.
    pub fn from_parts(
        org_name: String,
        current_vote: Option<CurrentVote>,
        members: MemberRegistry,
        vote_results: ResultLedger,
    ) -> (rebuilt: Option<Vote>)
        requires
            members.wf(),
        ensures
            rebuilt matches Some(organization) ==> organization.wf() && organization@ == (VoteView {
                org_name: org_name@,
                current_vote: slot_view(current_vote),
                members: members@,
                vote_results: vote_results@,
            }),
            rebuilt is None <==> !(VoteView {
                org_name: org_name@,
                current_vote: slot_view(current_vote),
                members: members@,
                vote_results: vote_results@,
            }).wf(),
    {
        if org_name.as_str().is_empty() {
            return None;
        }
        let tallies_fit: bool = match &current_vote {
            None => true,
            Some(ballot) => {
                let voted: usize = members.count_voters(&ballot.name);
                ballot.yes_votes as u128 + ballot.no_votes as u128 <= voted as u128
            },
        };
        if !tallies_fit {
            return None;
        }
        Some(Vote { org_name, current_vote, members, vote_results })
    }

    /// Gives up the organization for its parts: the name, the slot, the
    /// member registry and the result ledger.
    pub fn into_parts(self) -> (parts: (String, Option<CurrentVote>, MemberRegistry, ResultLedger))
        requires
            self.wf(),
        ensures
            parts.0@ == self@.org_name,
            slot_view(parts.1) == self@.current_vote,
            parts.2.wf(),
            parts.2@ == self@.members,
            parts.3@ == self@.vote_results,
    {
        (self.org_name, self.current_vote, self.members, self.vote_results)
    }

    /// The name of the organization.
    pub fn org_name(&self) -> (name: &String)
        ensures
            name@ == self@.org_name,
    {
        &self.org_name
    }

    /// The slot: the ballot in progress, if there is one.
    pub fn current_vote(&self) -> (slot: &Option<CurrentVote>)
        ensures
            slot_view(*slot) == self@.current_vote,
    {
        &self.current_vote
    }

    /// The member registry, to read.
    pub fn members(&self) -> (registry: &MemberRegistry)
        ensures
            registry@ == self@.members,
            self.wf() ==> registry.wf(),
    {
        &self.members
    }

    /// The result ledger, to read.
    pub fn vote_results(&self) -> (ledger: &ResultLedger)
        ensures
            ledger@ == self@.vote_results,
    {
        &self.vote_results
    }

    /// The names under which the organization registers its credential
    /// classes and its ledger.
    pub fn labels(&self) -> (labels: Labels)
        requires
            self.wf(),
        ensures
            labels.admin@ == self@.org_name + " Admin"@,
            labels.component@ == self@.org_name + " Component"@,
            labels.member@ == self@.org_name + " Member"@,
            labels.member_symbol@ == self@.org_name.take(1) + "M"@,
            labels.result@ == self@.org_name + " Result"@,
            labels.result_symbol@ == self@.org_name.take(1) + "V"@,
    {
        Labels::of(&self.org_name)
    }

    /// How many credentials of a class the organization has issued.
    pub fn issued(&self, class: CredentialClass) -> (count: u64)
        ensures
            count == self@.issued(class),
    {
        match class {
            CredentialClass::Admin => 1,
            CredentialClass::Internal => 1,
            CredentialClass::Member => self.members.len() as u64,
        }
    }

    /// Checks that a presented credential is one that this organization has
    /// issued in the required class.
    pub fn verify(&self, credential: &Credential, class: CredentialClass) -> (result: Result<
        (),
        VoteError,
    >)
        ensures
            self@.verifies(credential@, class) ==> result == Ok::<(), VoteError>(()),
            !self@.verifies(credential@, class) ==> result == Err::<(), VoteError>(
                VoteError::InvalidCredential,
            ),
    {
        if credential.org == self.org_name && credential.class == class && credential.id
            < self.issued(class) {
            Ok(())
        } else {
            Err(VoteError::InvalidCredential)
        }
    }

    /// Resolves a member's proof to the member's identity.
    pub fn verify_member(&self, member_proof: &Credential) -> (result: Result<u64, VoteError>)
        ensures
            self@.verifies(member_proof@, CredentialClass::Member) ==> result == Ok::<
                u64,
                VoteError,
            >(member_proof.id),
            !self@.verifies(member_proof@, CredentialClass::Member) ==> result == Err::<
                u64,
                VoteError,
            >(VoteError::InvalidCredential),
    {
        match self.verify(member_proof, CredentialClass::Member) {
            Ok(()) => Ok(member_proof.id),
            Err(refusal) => Err(refusal),
        }
    }

    /// Checks that a caller who presents `presented` may perform
    /// `operation`.
    pub fn authorize(&self, operation: Operation, presented: Option<&Credential>) -> (result:
        Result<(), VoteError>)
        ensures
            result == if self@.authorizes(
                operation,
                match presented {
                    Some(credential) => Some(credential@),
                    None => None,
                },
            ) {
                Ok::<(), VoteError>(())
            } else {
                Err::<(), VoteError>(VoteError::Unauthorized)
            },
    {
        match required_tier(operation) {
            None => Ok(()),
            Some(class) => match presented {
                None => Err(VoteError::Unauthorized),
                Some(credential) => match self.verify(credential, class) {
                    Ok(()) => Ok(()),
                    Err(_) => Err(VoteError::Unauthorized),
                },
            },
        }
    }

    /// Issues a member credential, with a record that holds no ballot yet.
    /// Only the administrator may do so.
    pub fn become_member(&mut self, admin: &Credential) -> (result: Result<Credential, VoteError>)
        requires
            old(self).wf(),
        ensures
            final(self).wf(),
            result matches Ok(credential) ==> old(self)@.become_member_result(admin@) == Ok::<
                CredentialView,
                VoteError,
            >(credential@),
            result matches Err(refusal) ==> old(self)@.become_member_result(admin@) == Err::<
                CredentialView,
                VoteError,
            >(refusal),
            final(self)@ == old(self)@.after_become_member(admin@),
    {
        match self.authorize(Operation::IssueMember, Some(admin)) {
            Ok(()) => {},
            Err(refusal) => {
                return Err(refusal);
            },
        }
        proof {
            if self@.current_vote is Some {
                lemma_voters_push(
                    self@.members,
                    Set::<Seq<char>>::empty(),
                    self@.current_vote->0.name,
                );
            }
        }
        let id: u64 = self.members.issue();
        Ok(Credential::member(self.org_name.clone(), id))
    }

    /// Opens a ballot of `duration` minutes at `now`, where the slot is
    /// empty. Only the administrator may do so.
    pub fn new_vote(&mut self, admin: &Credential, name: String, duration: i64, now: i64) -> (result:
        Result<(), VoteError>)
        requires
            old(self).wf(),
            duration > 0 ==> spec_end_time(now as int, duration as int) is Some,
        ensures
            final(self).wf(),
            result == old(self)@.new_vote_result(admin@, duration as int),
            final(self)@ == old(self)@.after_new_vote(
                admin@,
                name@,
                duration as int,
                now as int,
            ),
    {
        match self.authorize(Operation::OpenBallot, Some(admin)) {
            Ok(()) => {},
            Err(refusal) => {
                return Err(refusal);
            },
        }
        if self.current_vote.is_some() {
            return Err(VoteError::ConflictingBallot);
        }
        match CurrentVote::open(name, duration, now) {
            Ok(ballot) => {
                self.current_vote = Some(ballot);
                Ok(())
            },
            Err(refusal) => Err(refusal),
        }
    }

    /// Casts the vote of the member whom `member_proof` identifies, at
    /// `now`. The member's history and the tally change together or not at
    /// all.
    pub fn vote(&mut self, choice: VoteChoice, member_proof: &Credential, now: i64) -> (result:
        Result<(), VoteError>)
        requires
            old(self).wf(),
        ensures
            final(self).wf(),
            result == old(self)@.vote_result(member_proof@, now as int),
            final(self)@ == old(self)@.after_vote(choice, member_proof@, now as int),
    {
        let (name, open) = match &self.current_vote {
            None => {
                return Err(VoteError::NoActiveBallot);
            },
            Some(ballot) => (ballot.name.clone(), ballot.accepts_votes(now)),
        };
        if !open {
            return Err(VoteError::BallotExpired);
        }
        let id: u64 = match self.verify_member(member_proof) {
            Ok(id) => id,
            Err(refusal) => {
                return Err(refusal);
            },
        };
        if self.members.has_voted(id, &name) {
            return Err(VoteError::AlreadyVoted);
        }
        let member_count: usize = self.members.len();
        proof {
            lemma_voters_below_len(self@.members, id as int, name@);
            lemma_voters_record(self@.members, id as int, name@);
            assert(self@.current_vote->0.total() < member_count);
        }
        self.members.record_vote(id, name);
        let mut ballot = self.current_vote.take().unwrap();
        ballot.tally(choice);
        self.current_vote = Some(ballot);
        Ok(())
    }

    /// Finalizes the ballot in the slot at `now`: appends its receipt to the
    /// ledger and empties the slot.
    pub fn end_vote(&mut self, now: i64) -> (result: Result<(), VoteError>)
        requires
            old(self).wf(),
        ensures
            final(self).wf(),
            result == old(self)@.end_vote_result(now as int),
            final(self)@ == old(self)@.after_end_vote(now as int),
    {
        let ended = match &self.current_vote {
            None => {
                return Err(VoteError::NoActiveBallot);
            },
            Some(ballot) => ballot.has_ended(now),
        };
        if !ended {
            return Err(VoteError::BallotNotYetEnded);
        }
        let receipt = self.current_vote.take().unwrap();
        self.vote_results.append(receipt);
        Ok(())
    }
}

} // verus!
