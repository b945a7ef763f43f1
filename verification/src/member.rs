//! The member registry: which ballots each member has voted in.

use vstd::prelude::*;

verus! {

/// The names that a list of strings holds, in order.
pub open spec fn names_of(list: Seq<String>) -> Seq<Seq<char>> {
    list.map_values(|s: String| s@)
}

/// How many of the given members have voted in a ballot of the given name.
pub open spec fn voters(members: Seq<Set<Seq<char>>>, ballot_name: Seq<char>) -> nat
    decreases members.len(),
{
    if members.len() == 0 {
        0
    } else {
        voters(members.drop_last(), ballot_name) + if members.last().contains(ballot_name) {
            1nat
        } else {
            0nat
        }
    }
}

/// No more members have voted in a ballot than there are members.
pub proof fn lemma_voters_bounded(members: Seq<Set<Seq<char>>>, ballot_name: Seq<char>)
    ensures
        voters(members, ballot_name) <= members.len(),
    decreases members.len(),
{
    if members.len() > 0 {
        lemma_voters_bounded(members.drop_last(), ballot_name);
    }
}

/// A newly added record counts as a voter exactly if it holds the name.
pub proof fn lemma_voters_push(
    members: Seq<Set<Seq<char>>>,
    record: Set<Seq<char>>,
    ballot_name: Seq<char>,
)
    ensures
        voters(members.push(record), ballot_name) == voters(members, ballot_name) + if record.contains(
            ballot_name,
        ) {
            1nat
        } else {
            0nat
        },
{
    assert(members.push(record).drop_last() =~= members);
}

/// Recording a first vote of member `id` in a ballot adds one voter of that
/// ballot.
pub proof fn lemma_voters_record(members: Seq<Set<Seq<char>>>, id: int, ballot_name: Seq<char>)
    requires
        0 <= id < members.len(),
        !members[id].contains(ballot_name),
    ensures
        voters(members.update(id, members[id].insert(ballot_name)), ballot_name) == voters(
            members,
            ballot_name,
        ) + 1,
    decreases members.len(),
{
    let after = members.update(id, members[id].insert(ballot_name));
    if id == members.len() - 1 {
        assert(after.drop_last() =~= members.drop_last());
    } else {
        lemma_voters_record(members.drop_last(), id, ballot_name);
        assert(after.drop_last() =~= members.drop_last().update(
            id,
            members.drop_last()[id].insert(ballot_name),
        ));
    }
}

/// While some member has not voted in a ballot, its voters are fewer than
/// the members.
pub proof fn lemma_voters_below_len(members: Seq<Set<Seq<char>>>, id: int, ballot_name: Seq<char>)
    requires
        0 <= id < members.len(),
        !members[id].contains(ballot_name),
    ensures
        voters(members, ballot_name) < members.len(),
{
    lemma_voters_record(members, id, ballot_name);
    lemma_voters_bounded(members.update(id, members[id].insert(ballot_name)), ballot_name);
}

/// The voting history of one member: the names of the ballots that the
/// member has voted in. A name is recorded at most once and never removed.
#[derive(Debug)]
pub struct Member {
    voted_in: Vec<String>,
}

impl View for Member {
    type V = Set<Seq<char>>;

    /// The set of ballot names that the member has voted in.
    closed spec fn view(&self) -> Set<Seq<char>> {
        names_of(self.voted_in@).to_set()
    }
}

impl Member {
    /// No name is recorded twice.
    pub closed spec fn wf(&self) -> bool {
        names_of(self.voted_in@).no_duplicates()
    }

    /// The record of a member who has not voted yet.
    pub fn new() -> (member: Member)
        ensures
            member.wf(),
            member@ == Set::<Seq<char>>::empty(),
    {
        let member = Member { voted_in: Vec::new() };
        assert(names_of(member.voted_in@) =~= Seq::<Seq<char>>::empty());
        assert(member@ =~= Set::<Seq<char>>::empty());
        member
    }

    /// Whether the member has voted in a ballot of the given name.
    pub fn has_voted(&self, ballot_name: &String) -> (voted: bool)
        ensures
            voted == self@.contains(ballot_name@),
    {
        let mut i: usize = 0;
        while i < self.voted_in.len()
            invariant
                i <= self.voted_in.len(),
                forall|j: int| 0 <= j < i ==> self.voted_in@[j]@ != ballot_name@,
            decreases self.voted_in.len() - i,
        {
            if self.voted_in[i] == *ballot_name {
                assert(names_of(self.voted_in@)[i as int] == ballot_name@);
                return true;
            }
            i = i + 1;
        }
        assert(!names_of(self.voted_in@).contains(ballot_name@));
        false
    }

    /// Records that the member has voted in a ballot of the given name. The
    /// caller has checked that the member had not.
    pub fn record_vote(&mut self, ballot_name: String)
        requires
            old(self).wf(),
            !old(self)@.contains(ballot_name@),
        ensures
            final(self).wf(),
            final(self)@ == old(self)@.insert(ballot_name@),
    {
        let ghost before = names_of(self.voted_in@);
        self.voted_in.push(ballot_name);
        proof {
            assert(names_of(self.voted_in@) =~= before.push(ballot_name@));
            assert(!before.contains(ballot_name@));
            before.lemma_push_to_set_commute(ballot_name@);
        }
    }

    /// Rebuilds a record from a list of ballot names. A name that occurs
    /// more than once in the list is recorded once.
    pub fn from_names(names: Vec<String>) -> (member: Member)
        ensures
            member.wf(),
            member@ == names_of(names@).to_set(),
    {
        let mut member = Member::new();
        let mut i: usize = 0;
        while i < names.len()
            invariant
                i <= names.len(),
                member.wf(),
                member@ == names_of(names@).take(i as int).to_set(),
            decreases names.len() - i,
        {
            let ghost seen = names_of(names@).take(i as int);
            let name = names[i].clone();
            proof {
                assert(names_of(names@).take(i + 1) =~= seen.push(name@));
                seen.lemma_push_to_set_commute(name@);
            }
            if !member.has_voted(&name) {
                member.record_vote(name);
            } else {
                assert(seen.to_set().insert(name@) =~= seen.to_set());
            }
            i = i + 1;
        }
        assert(names_of(names@).take(names.len() as int) =~= names_of(names@));
        member
    }

    /// Gives up the record for the list of the names in it, each once.
    pub fn into_names(self) -> (names: Vec<String>)
        requires
            self.wf(),
        ensures
            names_of(names@).no_duplicates(),
            names_of(names@).to_set() == self@,
    {
        self.voted_in
    }
}

/// The records of all members of one organization, in the order in which
/// their credentials were issued. A member's identity is the position of the
/// member's record.
#[derive(Debug)]
pub struct MemberRegistry {
    records: Vec<Member>,
}

impl View for MemberRegistry {
    type V = Seq<Set<Seq<char>>>;

    /// For each identity, the set of ballot names that the member has voted in.
    closed spec fn view(&self) -> Seq<Set<Seq<char>>> {
        self.records@.map_values(|m: Member| m@)
    }
}

impl MemberRegistry {
    /// Every record is well formed.
    pub closed spec fn wf(&self) -> bool {
        forall|i: int| 0 <= i < self.records@.len() ==> (#[trigger] self.records@[i]).wf()
    }

    /// A registry without members.
    pub fn new() -> (registry: MemberRegistry)
        ensures
            registry.wf(),
            registry@ == Seq::<Set<Seq<char>>>::empty(),
    {
        let registry = MemberRegistry { records: Vec::new() };
        assert(registry@ =~= Seq::<Set<Seq<char>>>::empty());
        registry
    }

    /// The number of members.
    pub fn len(&self) -> (n: usize)
        ensures
            n == self@.len(),
    {
        self.records.len()
    }

    /// Whether `id` is the identity of a member.
    pub fn is_live(&self, id: u64) -> (live: bool)
        ensures
            live == (id < self@.len()),
    {
        id < self.records.len() as u64
    }

    /// Adds the record of a new member, who has not voted yet, and returns
    /// the member's identity.
    pub fn issue(&mut self) -> (id: u64)
        requires
            old(self).wf(),
        ensures
            final(self).wf(),
            id == old(self)@.len(),
            final(self)@ == old(self)@.push(Set::<Seq<char>>::empty()),
    {
        let id: u64 = self.records.len() as u64;
        self.records.push(Member::new());
        assert(self@ =~= old(self)@.push(Set::<Seq<char>>::empty()));
        id
    }

    /// Whether member `id` has voted in a ballot of the given name.
    pub fn has_voted(&self, id: u64, ballot_name: &String) -> (voted: bool)
        requires
            id < self@.len(),
        ensures
            voted == self@[id as int].contains(ballot_name@),
    {
        let n: usize = self.records.len();
        assert(self@.len() == n);
        let i: usize = id as usize;
        assert(self@[i as int] == self.records@[i as int]@);
        self.records[i].has_voted(ballot_name)
    }

    /// Records that member `id` has voted in a ballot of the given name. The
    /// caller has checked that the member had not.
    pub fn record_vote(&mut self, id: u64, ballot_name: String)
        requires
            old(self).wf(),
            id < old(self)@.len(),
            !old(self)@[id as int].contains(ballot_name@),
        ensures
            final(self).wf(),
            final(self)@ == old(self)@.update(
                id as int,
                old(self)@[id as int].insert(ballot_name@),
            ),
    {
        let n: usize = self.records.len();
        assert(self@.len() == n);
        let i: usize = id as usize;
        assert(self@[i as int] == self.records@[i as int]@);
        self.records[i].record_vote(ballot_name);
        assert(self@ =~= old(self)@.update(id as int, old(self)@[id as int].insert(ballot_name@)));
    }

    /// Counts the members who have voted in a ballot of the given name.
    pub fn count_voters(&self, ballot_name: &String) -> (count: usize)
        ensures
            count == voters(self@, ballot_name@),
    {
        let mut count: usize = 0;
        let mut i: usize = 0;
        while i < self.records.len()
            invariant
                i <= self.records.len(),
                self@.len() == self.records.len(),
                count <= i,
                count == voters(self@.take(i as int), ballot_name@),
            decreases self.records.len() - i,
        {
            assert(self@.take(i + 1).drop_last() =~= self@.take(i as int));
            assert(self@.take(i + 1).last() == self.records@[i as int]@);
            if self.records[i].has_voted(ballot_name) {
                count = count + 1;
            }
            i = i + 1;
        }
        assert(self@.take(self.records.len() as int) =~= self@);
        count
    }

    /// Rebuilds a registry from the records of its members, the position of
    /// each record being the member's identity.
    pub fn from_records(records: Vec<Member>) -> (registry: MemberRegistry)
        requires
            forall|i: int| 0 <= i < records@.len() ==> (#[trigger] records@[i]).wf(),
        ensures
            registry.wf(),
            registry@ == records@.map_values(|m: Member| m@),
    {
        MemberRegistry { records }
    }

    /// Gives up the registry for the records of its members, by identity.
    pub fn into_records(self) -> (records: Vec<Member>)
        requires
            self.wf(),
        ensures
            forall|i: int| 0 <= i < records@.len() ==> (#[trigger] records@[i]).wf(),
            records@.map_values(|m: Member| m@) == self@,
    {
        self.records
    }
}

} // verus!
