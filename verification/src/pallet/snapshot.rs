//! The records of a pallet as plain data: taken out for the host to keep between calls,
//! and put back after a check that they describe a state the pallet can be in.
use vstd::prelude::*;
use crate::laws::lemma_take_events_keeps_records;
use crate::model::State;
use crate::ordered_set::{strictly_increasing, OrderedSet};
use crate::pallet::Pallet;
use crate::storage::StorageMap;
use crate::types::{
    copy_accounts, AccountId, BlockNumber, Event, ProposalId, ProposalInfo, Votes,
};

verus! {

/// Everything on record for one proposal.
#[derive(Clone, Debug, PartialEq, Eq)]
pub struct ProposalRecord {
    /// The id under which the proposal was submitted.
    pub proposal_hash: ProposalId,
    /// Its terms.
    pub info: ProposalInfo,
    /// Its tally.
    pub votes: Votes,
    /// The accounts that have voted on it, in increasing order.
    pub approvers: Vec<AccountId>,
    /// The accounts to be paid.
    pub fund_seeker_accounts: Vec<AccountId>,
}

/// The records of a pallet. The event log is no part of them.
#[derive(Clone, Debug, PartialEq, Eq)]
pub struct Snapshot {
    /// The community, in increasing order.
    pub community_members: Vec<AccountId>,
    /// The committee, in increasing order.
    pub committee_members: Vec<AccountId>,
    /// The proposals, each of them once.
    pub proposals: Vec<ProposalRecord>,
    /// The heights for which a transfer is scheduled, each of them once, with the proposal.
    pub transfer_time: Vec<(BlockNumber, ProposalId)>,
    /// The accounts that hold the funds.
    pub pot_account: Vec<AccountId>,
}

impl ProposalRecord {
    /// Whether the record can stand beside the given community and committee: it names one
    /// beneficiary, a member of the community, and its voters are sorted, free of
    /// duplicates, members of the committee, and exactly those that stand in the tally, each
    /// of them once.
    pub open spec fn wf(self, community: Seq<AccountId>, committee: Seq<AccountId>) -> bool {
        &&& self.fund_seeker_accounts@.len() == 1
        &&& community.contains(self.fund_seeker_accounts@[0])
        &&& strictly_increasing(self.approvers@)
        &&& forall|a: AccountId| #[trigger]
            self.approvers@.contains(a) ==> committee.contains(a)
        &&& forall|a: AccountId| #[trigger]
            self.approvers@.contains(a) <==> (self.votes@.ayes.contains(a)
                || self.votes@.nays.contains(a))
        &&& self.approvers@.len() == self.votes@.ayes.len() + self.votes@.nays.len()
    }
}

impl Snapshot {
    /// The ids of the proposals, in the order of the records.
    pub open spec fn ids(self) -> Seq<ProposalId> {
        Seq::new(self.proposals@.len(), |i: int| self.proposals@[i].proposal_hash)
    }

    /// The heights that are scheduled, in the order of the entries.
    pub open spec fn heights(self) -> Seq<BlockNumber> {
        Seq::new(self.transfer_time@.len(), |i: int| self.transfer_time@[i].0)
    }

    /// The record of the proposal `id`.
    pub open spec fn record(self, id: ProposalId) -> ProposalRecord {
        self.proposals@[self.ids().index_of(id)]
    }

    /// Whether the snapshot describes a state that the pallet can be in.
    pub open spec fn valid(self) -> bool {
        &&& strictly_increasing(self.community_members@)
        &&& strictly_increasing(self.committee_members@)
        &&& forall|i: int|
            0 <= i < self.committee_members@.len() ==> self.community_members@.contains(
                #[trigger] self.committee_members@[i],
            )
        &&& self.ids().no_duplicates()
        &&& forall|i: int|
            0 <= i < self.proposals@.len() ==> (#[trigger] self.proposals@[i]).wf(
                self.community_members@,
                self.committee_members@,
            )
        &&& self.heights().no_duplicates()
        &&& forall|i: int|
            0 <= i < self.transfer_time@.len() ==> self.ids().contains(
                (#[trigger] self.transfer_time@[i]).1,
            )
    }

    /// The state that the snapshot describes, with an empty event log. A proposal on which
    /// nobody has voted has no entry among the voters.
    pub open spec fn state(self) -> State {
        State {
            community_members: self.community_members@,
            committee_members: self.committee_members@,
            voting: Map::new(
                |id: ProposalId| self.ids().contains(id),
                |id: ProposalId| self.record(id).votes@,
            ),
            proposal: Map::new(
                |id: ProposalId| self.ids().contains(id),
                |id: ProposalId| self.record(id).info,
            ),
            approvers: Map::new(
                |id: ProposalId| self.ids().contains(id) && self.record(id).approvers@.len() > 0,
                |id: ProposalId| self.record(id).approvers@,
            ),
            fund_seeker_accounts: Map::new(
                |id: ProposalId| self.ids().contains(id),
                |id: ProposalId| self.record(id).fund_seeker_accounts@,
            ),
            transfer_time: Map::new(
                |n: BlockNumber| self.heights().contains(n),
                |n: BlockNumber| self.transfer_time@[self.heights().index_of(n)].1,
            ),
            pot_account: self.pot_account@,
            events: Seq::empty(),
        }
    }

    /// A valid snapshot describes a well-formed state.
    pub proof fn lemma_valid_state_wf(self)
        requires
            self.valid(),
        ensures
            self.state().wf(),
    {
        let s = self.state();
        assert(s.registries_wf()) by {
            assert forall|a: AccountId| #[trigger]
                s.committee_members.contains(a) implies s.community_members.contains(a) by {
                let i = choose|i: int|
                    0 <= i < self.committee_members@.len() && self.committee_members@[i] == a;
                assert(self.community_members@.contains(self.committee_members@[i]));
            }
        }
        assert forall|id: ProposalId| #[trigger] s.voting.contains_key(id) implies self.record(
            id,
        ).wf(self.community_members@, self.committee_members@) by {
            let i = self.ids().index_of(id);
            assert(self.proposals@[i].wf(self.community_members@, self.committee_members@));
        }
        assert forall|id: ProposalId| #[trigger] s.voting.contains_key(id) implies s.tally_wf(
            id,
        ) by {
            assert(s.approvers_of(id) =~= self.record(id).approvers@);
        }
        assert forall|n: BlockNumber| #[trigger]
            s.transfer_time.contains_key(n) implies s.voting.contains_key(
            s.transfer_time[n],
        ) by {
            let i = self.heights().index_of(n);
            assert(self.ids().contains(self.transfer_time@[i].1));
        }
    }
}

/// Whether every one of `accounts` is a member of `set`.
fn all_members(accounts: &Vec<AccountId>, set: &OrderedSet) -> (all: bool)
    requires
        set.wf(),
    ensures
        all == forall|i: int| 0 <= i < accounts@.len() ==> set@.contains(#[trigger] accounts@[i]),
{
    let mut i: usize = 0;
    while i < accounts.len()
        invariant
            set.wf(),
            i <= accounts@.len(),
            forall|j: int| 0 <= j < i ==> set@.contains(#[trigger] accounts@[j]),
        decreases accounts.len() - i,
    {
        if !set.contains(accounts[i]) {
            return false;
        }
        i = i + 1;
    }
    true
}

/// Whether `who` occurs among `accounts`.
fn occurs(accounts: &Vec<AccountId>, who: AccountId) -> (found: bool)
    ensures
        found == accounts@.contains(who),
{
    let mut i: usize = 0;
    while i < accounts.len()
        invariant
            i <= accounts@.len(),
            forall|j: int| 0 <= j < i ==> accounts@[j] != who,
        decreases accounts.len() - i,
    {
        if accounts[i] == who {
            return true;
        }
        i = i + 1;
    }
    false
}

/// Whether every voter stands in the tally.
fn all_tallied(voters: &Vec<AccountId>, votes: &Votes) -> (all: bool)
    ensures
        all == forall|i: int|
            0 <= i < voters@.len() ==> (votes@.ayes.contains(#[trigger] voters@[i])
                || votes@.nays.contains(voters@[i])),
{
    let mut i: usize = 0;
    while i < voters.len()
        invariant
            i <= voters@.len(),
            forall|j: int|
                0 <= j < i ==> (votes@.ayes.contains(#[trigger] voters@[j])
                    || votes@.nays.contains(voters@[j])),
        decreases voters.len() - i,
    {
        if !occurs(&votes.ayes, voters[i]) && !occurs(&votes.nays, voters[i]) {
            return false;
        }
        i = i + 1;
    }
    true
}

/// Checks a record against the community and the committee, and gives its voters as a set.
fn check_record(record: &ProposalRecord, community: &OrderedSet, committee: &OrderedSet) -> (voters:
    Option<OrderedSet>)
    requires
        community.wf(),
        committee.wf(),
    ensures
        match voters {
            Some(voters) => record.wf(community@, committee@) && voters@ == record.approvers@
                && voters.wf(),
            None => !record.wf(community@, committee@),
        },
{
    if record.fund_seeker_accounts.len() != 1 {
        return None;
    }
    if !community.contains(record.fund_seeker_accounts[0]) {
        return None;
    }
    let voters: OrderedSet = match OrderedSet::from_vec(copy_accounts(&record.approvers)) {
        Some(voters) => voters,
        None => {
            return None;
        },
    };
    if !all_members(&record.approvers, committee) {
        assert(!record.wf(community@, committee@)) by {
            let i = choose|i: int|
                0 <= i < record.approvers@.len() && !committee@.contains(record.approvers@[i]);
            assert(record.approvers@.contains(record.approvers@[i]));
        }
        return None;
    }
    let ayes: usize = record.votes.ayes.len();
    let nays: usize = record.votes.nays.len();
    let total: usize = record.approvers.len();
    if total < ayes || total - ayes != nays {
        return None;
    }
    if !all_members(&record.votes.ayes, &voters) {
        assert(!record.wf(community@, committee@)) by {
            let i = choose|i: int|
                0 <= i < record.votes@.ayes.len() && !voters@.contains(record.votes@.ayes[i]);
            assert(record.votes@.ayes.contains(record.votes@.ayes[i]));
        }
        return None;
    }
    if !all_members(&record.votes.nays, &voters) {
        assert(!record.wf(community@, committee@)) by {
            let i = choose|i: int|
                0 <= i < record.votes@.nays.len() && !voters@.contains(record.votes@.nays[i]);
            assert(record.votes@.nays.contains(record.votes@.nays[i]));
        }
        return None;
    }
    if !all_tallied(&record.approvers, &record.votes) {
        assert(!record.wf(community@, committee@)) by {
            let i = choose|i: int|
                0 <= i < record.approvers@.len() && !(record.votes@.ayes.contains(
                    record.approvers@[i],
                ) || record.votes@.nays.contains(record.approvers@[i]));
            assert(record.approvers@.contains(record.approvers@[i]));
        }
        return None;
    }
    Some(voters)
}

impl Pallet {
    /// Hands out the notifications given since they were last collected, oldest first, and
    /// starts the log anew.
    pub fn take_events(&mut self) -> (log: Vec<Event>)
        requires
            old(self).wf(),
        ensures
            final(self).wf(),
            final(self)@ == crate::model::take_events(old(self)@).0,
            log@ == crate::model::take_events(old(self)@).1,
    {
        proof {
            lemma_take_events_keeps_records(self@);
        }
        let mut log: Vec<Event> = Vec::new();
        std::mem::swap(&mut log, &mut self.events);
        log
    }

    /// The records of the pallet as plain data.
    pub fn snapshot(&self) -> (snapshot: Snapshot)
        requires
            self.wf(),
        ensures
            snapshot.valid(),
            snapshot.state() == crate::model::take_events(self@).0,
    {
        let ghost state = self@;
        let ghost ids = self.voting.keys();
        proof {
            self.voting.lemma_keys();
        }
        let mut proposals: Vec<ProposalRecord> = Vec::new();
        let mut i: usize = 0;
        while i < self.voting.len()
            invariant
                self.wf(),
                state == self@,
                ids == self.voting.keys(),
                i <= ids.len(),
                proposals@.len() == i,
                forall|j: int|
                    0 <= j < i ==> {
                        let record = #[trigger] proposals@[j];
                        &&& record.proposal_hash == ids[j]
                        &&& record.votes@ == state.voting[ids[j]]
                        &&& record.info == state.proposal[ids[j]]
                        &&& record.approvers@ == state.approvers_of(ids[j])
                        &&& record.fund_seeker_accounts@ == state.fund_seekers_of(ids[j])
                    },
            decreases ids.len() - i,
        {
            let (id, votes) = self.voting.entry(i);
            assert(state.voting.contains_key(id));
            let info: ProposalInfo = match self.proposal.get(&id) {
                Some(info) => *info,
                None => ProposalInfo { amount: 0 },
            };
            let approvers: Vec<AccountId> = match self.approvers.get(&id) {
                Some(voters) => voters.to_vec(),
                None => Vec::new(),
            };
            let fund_seeker_accounts: Vec<AccountId> = match self.fund_seeker_accounts.get(&id) {
                Some(accounts) => copy_accounts(accounts),
                None => Vec::new(),
            };
            proposals.push(
                ProposalRecord {
                    proposal_hash: id,
                    info,
                    votes: votes.clone(),
                    approvers,
                    fund_seeker_accounts,
                },
            );
            i = i + 1;
        }
        let ghost heights = self.transfer_time.keys();
        proof {
            self.transfer_time.lemma_keys();
        }
        let mut transfer_time: Vec<(BlockNumber, ProposalId)> = Vec::new();
        let mut k: usize = 0;
        while k < self.transfer_time.len()
            invariant
                self.wf(),
                state == self@,
                heights == self.transfer_time.keys(),
                k <= heights.len(),
                transfer_time@.len() == k,
                forall|j: int|
                    0 <= j < k ==> {
                        let entry = #[trigger] transfer_time@[j];
                        &&& entry.0 == heights[j]
                        &&& entry.1 == state.transfer_time[heights[j]]
                    },
            decreases heights.len() - k,
        {
            let (n, id) = self.transfer_time.entry(k);
            transfer_time.push((n, *id));
            k = k + 1;
        }
        let snapshot = Snapshot {
            community_members: self.community_members.to_vec(),
            committee_members: self.committee_members.to_vec(),
            proposals,
            transfer_time,
            pot_account: copy_accounts(&self.pot_account),
        };
        proof {
            let expected = crate::model::take_events(state).0;
            assert(snapshot.ids() =~= ids);
            assert(snapshot.heights() =~= heights);
            assert forall|j: int| 0 <= j < snapshot.proposals@.len() implies (
            #[trigger] snapshot.proposals@[j]).wf(
                snapshot.community_members@,
                snapshot.committee_members@,
            ) by {
                let id = ids[j];
                assert(ids.contains(id));
                assert(state.voting.contains_key(id));
                assert(state.tally_wf(id));
                assert(state.fund_seeker_accounts.contains_key(id));
            }
            assert forall|j: int|
                0 <= j < snapshot.committee_members@.len()
                implies snapshot.community_members@.contains(
                #[trigger] snapshot.committee_members@[j],
            ) by {
                assert(state.committee_members.contains(snapshot.committee_members@[j]));
            }
            assert forall|j: int|
                0 <= j < snapshot.transfer_time@.len() implies snapshot.ids().contains(
                (#[trigger] snapshot.transfer_time@[j]).1,
            ) by {
                let n = heights[j];
                assert(heights.contains(n));
                assert(state.transfer_time.contains_key(n));
                assert(state.voting.contains_key(state.transfer_time[n]));
            }
            assert(snapshot.valid());
            let described = snapshot.state();
            assert forall|id: ProposalId| ids.contains(id) implies {
                let record = snapshot.record(id);
                &&& record.votes@ == state.voting[id]
                &&& record.info == state.proposal[id]
                &&& record.approvers@ == state.approvers_of(id)
                &&& record.fund_seeker_accounts@ == state.fund_seekers_of(id)
            } by {
                let j = ids.index_of(id);
                assert(snapshot.proposals@[j].proposal_hash == id);
            }
            assert forall|n: BlockNumber| heights.contains(n) implies described.transfer_time[n]
                == state.transfer_time[n] by {
                let j = heights.index_of(n);
                assert(snapshot.transfer_time@[j].0 == n);
            }
            assert(described =~= expected);
        }
        snapshot
    }

    /// Puts the records of a snapshot back into a pallet with an empty event log. A snapshot
    /// that describes no state of the pallet is refused.
    pub fn restore(snapshot: &Snapshot) -> (pallet: Option<Pallet>)
        ensures
            match pallet {
                Some(pallet) => snapshot.valid() && pallet.wf() && pallet@ == snapshot.state(),
                None => !snapshot.valid(),
            },
    {
        let community: OrderedSet = match OrderedSet::from_vec(
            copy_accounts(&snapshot.community_members),
        ) {
            Some(community) => community,
            None => {
                return None;
            },
        };
        let committee: OrderedSet = match OrderedSet::from_vec(
            copy_accounts(&snapshot.committee_members),
        ) {
            Some(committee) => committee,
            None => {
                return None;
            },
        };
        if !all_members(&snapshot.committee_members, &community) {
            return None;
        }
        let mut voting: StorageMap<ProposalId, Votes> = StorageMap::new();
        let mut proposal: StorageMap<ProposalId, ProposalInfo> = StorageMap::new();
        let mut approvers: StorageMap<ProposalId, OrderedSet> = StorageMap::new();
        let mut fund_seeker_accounts: StorageMap<ProposalId, Vec<AccountId>> = StorageMap::new();
        let ghost ids = snapshot.ids();
        let mut i: usize = 0;
        while i < snapshot.proposals.len()
            invariant
                i <= snapshot.proposals@.len(),
                ids == snapshot.ids(),
                community.wf(),
                committee.wf(),
                community@ == snapshot.community_members@,
                committee@ == snapshot.committee_members@,
                voting.wf(),
                proposal.wf(),
                approvers.wf(),
                fund_seeker_accounts.wf(),
                ids.subrange(0, i as int).no_duplicates(),
                forall|id: ProposalId|
                    voting@.contains_key(id) <==> ids.subrange(0, i as int).contains(id),
                forall|id: ProposalId|
                    proposal@.contains_key(id) <==> ids.subrange(0, i as int).contains(id),
                forall|id: ProposalId|
                    fund_seeker_accounts@.contains_key(id) <==> ids.subrange(0, i as int).contains(
                        id,
                    ),
                forall|id: ProposalId|
                    approvers@.contains_key(id) ==> ids.subrange(0, i as int).contains(id),
                forall|j: int|
                    0 <= j < i ==> {
                        let record = #[trigger] snapshot.proposals@[j];
                        let id = record.proposal_hash;
                        &&& record.wf(community@, committee@)
                        &&& voting@[id]@ == record.votes@
                        &&& proposal@[id] == record.info
                        &&& fund_seeker_accounts@[id]@ == record.fund_seeker_accounts@
                        &&& record.approvers@.len() > 0 ==> approvers@.contains_key(id)
                            && approvers@[id]@ == record.approvers@
                        &&& record.approvers@.len() == 0 ==> !approvers@.contains_key(id)
                    },
            decreases snapshot.proposals@.len() - i,
        {
            let record: &ProposalRecord = &snapshot.proposals[i];
            let id: ProposalId = record.proposal_hash;
            assert(ids[i as int] == id);
            if voting.contains_key(&id) {
                proof {
                    let j = choose|j: int|
                        0 <= j < i && ids.subrange(0, i as int)[j] == id;
                    assert(ids[j] == ids[i as int]);
                }
                return None;
            }
            let voters: OrderedSet = match check_record(record, &community, &committee) {
                Some(voters) => voters,
                None => {
                    return None;
                },
            };
            voting.insert(id, record.votes.clone());
            proposal.insert(id, record.info);
            fund_seeker_accounts.insert(id, copy_accounts(&record.fund_seeker_accounts));
            if voters.len() > 0 {
                approvers.insert(id, voters);
            }
            proof {
                let before = ids.subrange(0, i as int);
                let after = ids.subrange(0, i + 1);
                assert(after =~= before.push(id));
                assert forall|other: ProposalId| after.contains(other) <==> (other == id
                    || before.contains(other)) by {
                    if before.contains(other) {
                        let j = choose|j: int| 0 <= j < before.len() && before[j] == other;
                        assert(after[j] == other);
                    }
                    if other == id {
                        assert(after[i as int] == id);
                    }
                }
                assert forall|j: int|
                    0 <= j < i implies (#[trigger] snapshot.proposals@[j]).proposal_hash
                    != id by {
                    assert(before[j] == snapshot.proposals@[j].proposal_hash);
                }
            }
            i = i + 1;
        }
        assert(ids.subrange(0, i as int) =~= ids);
        let mut transfer_time: StorageMap<BlockNumber, ProposalId> = StorageMap::new();
        let ghost heights = snapshot.heights();
        let mut k: usize = 0;
        while k < snapshot.transfer_time.len()
            invariant
                k <= snapshot.transfer_time@.len(),
                heights == snapshot.heights(),
                ids == snapshot.ids(),
                voting.wf(),
                transfer_time.wf(),
                forall|id: ProposalId| voting@.contains_key(id) <==> ids.contains(id),
                heights.subrange(0, k as int).no_duplicates(),
                forall|n: BlockNumber|
                    transfer_time@.contains_key(n) <==> heights.subrange(0, k as int).contains(n),
                forall|j: int|
                    0 <= j < k ==> {
                        let entry = #[trigger] snapshot.transfer_time@[j];
                        &&& ids.contains(entry.1)
                        &&& transfer_time@[entry.0] == entry.1
                    },
            decreases snapshot.transfer_time@.len() - k,
        {
            let entry: (BlockNumber, ProposalId) = snapshot.transfer_time[k];
            assert(heights[k as int] == entry.0);
            if transfer_time.contains_key(&entry.0) {
                proof {
                    let j = choose|j: int|
                        0 <= j < k && heights.subrange(0, k as int)[j] == entry.0;
                    assert(heights[j] == heights[k as int]);
                }
                return None;
            }
            if !voting.contains_key(&entry.1) {
                return None;
            }
            transfer_time.insert(entry.0, entry.1);
            proof {
                let before = heights.subrange(0, k as int);
                let after = heights.subrange(0, k + 1);
                assert(after =~= before.push(entry.0));
                assert forall|other: BlockNumber| after.contains(other) <==> (other == entry.0
                    || before.contains(other)) by {
                    if before.contains(other) {
                        let j = choose|j: int| 0 <= j < before.len() && before[j] == other;
                        assert(after[j] == other);
                    }
                    if other == entry.0 {
                        assert(after[k as int] == entry.0);
                    }
                }
                assert forall|j: int| 0 <= j < k implies (#[trigger] snapshot.transfer_time@[j]).0
                    != entry.0 by {
                    assert(before[j] == snapshot.transfer_time@[j].0);
                }
            }
            k = k + 1;
        }
        assert(heights.subrange(0, k as int) =~= heights);
        let pallet = Pallet {
            community_members: community,
            committee_members: committee,
            voting,
            proposal,
            approvers,
            fund_seeker_accounts,
            transfer_time,
            pot_account: copy_accounts(&snapshot.pot_account),
            events: Vec::new(),
        };
        proof {
            snapshot.lemma_valid_state_wf();
            let expected = snapshot.state();
            assert forall|id: ProposalId| ids.contains(id) implies {
                let record = snapshot.record(id);
                &&& record.proposal_hash == id
                &&& pallet.voting@[id]@ == record.votes@
                &&& pallet.proposal@[id] == record.info
                &&& pallet.fund_seeker_accounts@[id]@ == record.fund_seeker_accounts@
                &&& record.approvers@.len() > 0 ==> pallet.approvers@.contains_key(id)
                    && pallet.approvers@[id]@ == record.approvers@
                &&& record.approvers@.len() == 0 ==> !pallet.approvers@.contains_key(id)
            } by {
                let j = ids.index_of(id);
                assert(snapshot.proposals@[j].proposal_hash == id);
            }
            assert forall|n: BlockNumber| heights.contains(n) implies pallet.transfer_time@[n]
                == expected.transfer_time[n] by {
                let j = heights.index_of(n);
                assert(snapshot.transfer_time@[j].0 == n);
            }
            assert(pallet@ =~= expected);
        }
        Some(pallet)
    }
}

} // verus!
