//! The pallet itself: the state it keeps and the calls that change it.
use vstd::prelude::*;
use crate::laws::{
    lemma_add_committee_member_wf, lemma_add_community_member_wf, lemma_add_pot_account_wf,
    lemma_add_proposal_wf, lemma_approve_proposal_wf, lemma_conclude_transfer_keeps_records,
    lemma_transfer_funds_keeps_records,
};
use crate::model;
use crate::model::{State, TRANSFER_DELAY};
use crate::ordered_set::{ordered_insert, strictly_increasing, OrderedSet};
use crate::storage::StorageMap;
use crate::types::{
    AccountId, Balance, BlockNumber, DispatchError, DispatchResult, Error, Event, MemberCount,
    Origin, ProposalId, ProposalInfo, TransferError, TransferOrder, Vote, Votes, copy_accounts,
};

pub mod snapshot;

verus! {

/// The account behind a signed origin; any other origin is refused.
pub fn ensure_signed(origin: Origin) -> (who: Result<AccountId, DispatchError>)
    ensures
        who == model::ensure_signed(origin),
{
    match origin {
        Origin::Signed(who) => Ok(who),
        _ => Err(DispatchError::BadOrigin),
    }
}

/// Accepts the privileged origin and refuses any other.
pub fn ensure_root(origin: Origin) -> (accepted: DispatchResult)
    ensures
        accepted == model::ensure_root(origin),
{
    match origin {
        Origin::Root => Ok(()),
        _ => Err(DispatchError::BadOrigin),
    }
}

/// The registries, the proposals with their tallies, the schedule of transfers, the pot
/// and the event log.
#[derive(Clone, Debug)]
pub struct Pallet {
    community_members: OrderedSet,
    committee_members: OrderedSet,
    voting: StorageMap<ProposalId, Votes>,
    proposal: StorageMap<ProposalId, ProposalInfo>,
    approvers: StorageMap<ProposalId, OrderedSet>,
    fund_seeker_accounts: StorageMap<ProposalId, Vec<AccountId>>,
    transfer_time: StorageMap<BlockNumber, ProposalId>,
    pot_account: Vec<AccountId>,
    events: Vec<Event>,
}

impl View for Pallet {
    type V = State;

    closed spec fn view(&self) -> State {
        State {
            community_members: self.community_members@,
            committee_members: self.committee_members@,
            voting: self.voting@.map_values(|votes: Votes| votes@),
            proposal: self.proposal@,
            approvers: self.approvers@.map_values(|voters: OrderedSet| voters@),
            fund_seeker_accounts: self.fund_seeker_accounts@.map_values(
                |accounts: Vec<AccountId>| accounts@,
            ),
            transfer_time: self.transfer_time@,
            pot_account: self.pot_account@,
            events: self.events@,
        }
    }
}

impl Pallet {
    /// The representation invariant: the stores are sound and the state is one that the
    /// calls can reach.
    pub closed spec fn wf(&self) -> bool {
        &&& self.voting.wf()
        &&& self.proposal.wf()
        &&& self.approvers.wf()
        &&& self.fund_seeker_accounts.wf()
        &&& self.transfer_time.wf()
        &&& self@.wf()
    }

    /// A sound pallet is in a well-formed state.
    pub proof fn lemma_wf_state(&self)
        requires
            self.wf(),
        ensures
            self@.wf(),
    {
    }

    /// The pallet before any call.
    pub fn new() -> (pallet: Pallet)
        ensures
            pallet.wf(),
            pallet@ == State::empty(),
    {
        Pallet {
            community_members: OrderedSet::new(),
            committee_members: OrderedSet::new(),
            voting: StorageMap::new(),
            proposal: StorageMap::new(),
            approvers: StorageMap::new(),
            fund_seeker_accounts: StorageMap::new(),
            transfer_time: StorageMap::new(),
            pot_account: Vec::new(),
            events: Vec::new(),
        }
    }

    /// Adds a notification to the log, and touches nothing else.
    fn deposit_event(&mut self, event: Event)
        ensures
            final(self)@ == old(self)@.deposit_event(event),
            final(self).voting == old(self).voting,
            final(self).proposal == old(self).proposal,
            final(self).approvers == old(self).approvers,
            final(self).fund_seeker_accounts == old(self).fund_seeker_accounts,
            final(self).transfer_time == old(self).transfer_time,
    {
        self.events.push(event);
    }

    /// Adds `who` to the community. The caller must be signed; an account that is in the
    /// community already is refused.
    pub fn add_community_member(&mut self, origin: Origin, who: AccountId) -> (result:
        DispatchResult)
        requires
            old(self).wf(),
        ensures
            final(self).wf(),
            final(self)@ == model::add_community_member(old(self)@, origin, who).0,
            result == model::add_community_member(old(self)@, origin, who).1,
            strictly_increasing(final(self)@.community_members),
    {
        if let Err(e) = ensure_signed(origin) {
            return Err(e);
        }
        let location: usize = match self.community_members.binary_search(who) {
            Ok(_) => {
                return Err(DispatchError::Module(Error::AlreadyMemberOfCommunity));
            },
            Err(location) => location,
        };
        self.community_members.insert(location, who);
        self.deposit_event(Event::MemberAdded);
        proof {
            lemma_add_community_member_wf(old(self)@, origin, who);
        }
        Ok(())
    }

    /// Raises `who` from the community to the committee. An account outside the community
    /// is refused whoever asks; otherwise the caller must be the privileged one, and an
    /// account that is in the committee already is refused.
    pub fn add_committee_member(&mut self, origin: Origin, who: AccountId) -> (result:
        DispatchResult)
        requires
            old(self).wf(),
        ensures
            final(self).wf(),
            final(self)@ == model::add_committee_member(old(self)@, origin, who).0,
            result == model::add_committee_member(old(self)@, origin, who).1,
            strictly_increasing(final(self)@.committee_members),
    {
        if !self.community_members.contains(who) {
            return Err(DispatchError::Module(Error::MemberIsNotPresentInCommunity));
        }
        if let Err(e) = ensure_root(origin) {
            return Err(e);
        }
        let location: usize = match self.committee_members.binary_search(who) {
            Ok(_) => {
                return Err(DispatchError::Module(Error::AlreadyMemberOfCommittee));
            },
            Err(location) => location,
        };
        self.committee_members.insert(location, who);
        self.deposit_event(Event::MemberAddedToCommittee);
        proof {
            lemma_add_committee_member_wf(old(self)@, origin, who);
        }
        Ok(())
    }

    /// Names `who` as the one account that holds the funds. The caller must be the
    /// privileged one.
    pub fn add_pot_account(&mut self, origin: Origin, who: AccountId) -> (result: DispatchResult)
        requires
            old(self).wf(),
        ensures
            final(self).wf(),
            final(self)@ == model::add_pot_account(old(self)@, origin, who).0,
            result == model::add_pot_account(old(self)@, origin, who).1,
    {
        if let Err(e) = ensure_root(origin) {
            return Err(e);
        }
        let mut accounts: Vec<AccountId> = Vec::new();
        accounts.push(who);
        self.pot_account = accounts;
        proof {
            lemma_add_pot_account_wf(old(self)@, origin, who);
        }
        Ok(())
    }

    /// Submits a proposal under `proposal_hash`, asking `amount` for the caller. The caller
    /// must be signed and in the community; an id that is on record already is refused.
    pub fn add_proposal(
        &mut self,
        origin: Origin,
        proposal_hash: ProposalId,
        amount: Balance,
    ) -> (result: DispatchResult)
        requires
            old(self).wf(),
        ensures
            final(self).wf(),
            final(self)@ == model::add_proposal(old(self)@, origin, proposal_hash, amount).0,
            result == model::add_proposal(old(self)@, origin, proposal_hash, amount).1,
    {
        let who: AccountId = match ensure_signed(origin) {
            Ok(who) => who,
            Err(e) => {
                return Err(e);
            },
        };
        if !self.community_members.contains(who) {
            return Err(DispatchError::Module(Error::MemberIsNotPresentInCommunity));
        }
        if self.voting.contains_key(&proposal_hash) {
            return Err(DispatchError::Module(Error::ProposalAlreadyExist));
        }
        self.proposal.insert(proposal_hash, ProposalInfo { amount });
        let votes = Votes { ayes: Vec::new(), nays: Vec::new() };
        self.voting.insert(proposal_hash, votes);
        let mut user: Vec<AccountId> = Vec::new();
        user.push(who);
        self.fund_seeker_accounts.insert(proposal_hash, user);
        self.deposit_event(Event::ProposalAdded);
        proof {
            lemma_add_proposal_wf(old(self)@, origin, proposal_hash, amount);
            let expected = model::add_proposal(old(self)@, origin, proposal_hash, amount).0;
            assert(self@.voting =~= expected.voting);
            assert(self@.fund_seeker_accounts =~= expected.fund_seeker_accounts);
        }
        Ok(())
    }

    /// Casts the caller's vote on `proposal_hash` at height `now`, and schedules a transfer
    /// attempt `TRANSFER_DELAY` blocks later. The caller must be signed and in the
    /// committee, must not have voted on this proposal before, and the proposal must be on
    /// record.
    #[allow(non_snake_case)]
    pub fn ApproveProposal(
        &mut self,
        origin: Origin,
        proposal_hash: ProposalId,
        approve: Vote,
        now: BlockNumber,
    ) -> (result: DispatchResult)
        requires
            old(self).wf(),
            now + TRANSFER_DELAY <= BlockNumber::MAX,
        ensures
            final(self).wf(),
            final(self)@ == model::approve_proposal(
                old(self)@,
                origin,
                proposal_hash,
                approve,
                now,
            ).0,
            result == model::approve_proposal(old(self)@, origin, proposal_hash, approve, now).1,
    {
        let who: AccountId = match ensure_signed(origin) {
            Ok(who) => who,
            Err(e) => {
                return Err(e);
            },
        };
        if !self.committee_members.contains(who) {
            return Err(DispatchError::Module(Error::MemberIsNotPresentInCommittee));
        }
        proof {
            self.lemma_approvers_wf(proposal_hash);
        }
        let mut mem: OrderedSet = match self.approvers.get(&proposal_hash) {
            Some(voters) => voters.clone(),
            None => OrderedSet::new(),
        };
        let location: usize = match mem.binary_search(who) {
            Ok(_) => {
                return Err(DispatchError::Module(Error::AlreadyApproved));
            },
            Err(location) => location,
        };
        let mut voting: Votes = match self.voting.get(&proposal_hash) {
            Some(votes) => votes.clone(),
            None => {
                return Err(DispatchError::Module(Error::ProposalMissing));
            },
        };
        match approve {
            Vote::Aye => {
                voting.ayes.push(who);
            },
            Vote::Nay => {
                voting.nays.push(who);
            },
        }
        let ayes_votes: MemberCount = #[verifier::truncate] (voting.ayes.len() as MemberCount);
        let nays_votes: MemberCount = #[verifier::truncate] (voting.nays.len() as MemberCount);
        self.voting.insert(proposal_hash, voting);
        mem.insert(location, who);
        let ghost voters = mem@;
        self.approvers.insert(proposal_hash, mem);
        self.transfer_time.insert(now + TRANSFER_DELAY, proposal_hash);
        self.deposit_event(
            Event::Approved {
                account: who,
                proposal_hash,
                voted: approve,
                ayes: ayes_votes,
                nays: nays_votes,
            },
        );
        proof {
            lemma_approve_proposal_wf(old(self)@, origin, proposal_hash, approve, now);
            let expected = model::approve_proposal(
                old(self)@,
                origin,
                proposal_hash,
                approve,
                now,
            ).0;
            assert(voters == ordered_insert(old(self)@.approvers_of(proposal_hash), who));
            assert(self@.voting =~= expected.voting);
            assert(self@.approvers =~= expected.approvers);
        }
        Ok(())
    }

    /// The voters on record for a proposal are in order.
    proof fn lemma_approvers_wf(&self, id: ProposalId)
        requires
            self.wf(),
        ensures
            self.approvers@.contains_key(id) ==> self.approvers@[id].wf() && self.approvers@[id]@
                == self@.approvers_of(id),
            !self.approvers@.contains_key(id) ==> self@.approvers_of(id)
                == Seq::<AccountId>::empty(),
    {
        if self.approvers@.contains_key(id) {
            assert(self@.approvers.contains_key(id));
        }
    }

    /// Evaluates the tally of `proposal_id` against the committee as it stands now. A
    /// unanimous committee gives the payment that the host has to make on the ledger, and
    /// whose outcome it reports to [`Pallet::conclude_transfer`]; otherwise the transfer is
    /// declined and noted as such, which is no failure. An id that is not on record is
    /// refused.
    pub fn transfer_funds(&mut self, proposal_id: ProposalId) -> (result: Result<
        Option<TransferOrder>,
        DispatchError,
    >)
        requires
            old(self).wf(),
            model::transfer_defined(old(self)@, proposal_id),
        ensures
            final(self).wf(),
            final(self)@ == model::transfer_funds(old(self)@, proposal_id).0,
            result == model::transfer_funds(old(self)@, proposal_id).1,
    {
        let no_of_ayes: usize = match self.voting.get(&proposal_id) {
            Some(voting) => voting.ayes.len(),
            None => {
                return Err(DispatchError::Module(Error::ProposalMissing));
            },
        };
        let no_of_committee_members: usize = self.committee_members.len();
        let amount_to_transfer: Balance = match self.proposal.get(&proposal_id) {
            Some(proposal_info) => proposal_info.amount,
            None => {
                return Err(DispatchError::Module(Error::ProposalMissing));
            },
        };
        let destination_account: AccountId = match self.fund_seeker_accounts.get(&proposal_id) {
            Some(destination_accounts_list) => destination_accounts_list[0],
            None => {
                return Err(DispatchError::Module(Error::ProposalMissing));
            },
        };
        let source: AccountId = self.pot_account[0];
        proof {
            lemma_transfer_funds_keeps_records(old(self)@, proposal_id);
        }
        if no_of_ayes == no_of_committee_members {
            Ok(
                Some(
                    TransferOrder {
                        source,
                        dest: destination_account,
                        value: amount_to_transfer,
                        keep_alive: true,
                    },
                ),
            )
        } else {
            self.deposit_event(Event::FundTransferDeclined);
            Ok(None)
        }
    }

    /// Takes note of what the ledger made of the payment that [`Pallet::transfer_funds`]
    /// asked for: a payment made is notified, a failure is handed on and changes nothing.
    pub fn conclude_transfer(&mut self, outcome: Result<(), TransferError>) -> (result:
        DispatchResult)
        requires
            old(self).wf(),
        ensures
            final(self).wf(),
            final(self)@ == model::conclude_transfer(old(self)@, outcome).0,
            result == model::conclude_transfer(old(self)@, outcome).1,
    {
        proof {
            lemma_conclude_transfer_keeps_records(old(self)@, outcome);
        }
        match outcome {
            Ok(()) => {
                self.deposit_event(Event::FundTransfer);
                Ok(())
            },
            Err(e) => Err(DispatchError::Transfer(e)),
        }
    }

    /// The host reaches height `n`: the transfer scheduled there, if any, is evaluated as
    /// by [`Pallet::transfer_funds`], and the payment to make, if any, is handed out. The
    /// schedule stays as it is, and a failure of the evaluation is not reported.
    pub fn on_initialize(&mut self, n: BlockNumber) -> (order: Option<TransferOrder>)
        requires
            old(self).wf(),
            model::on_initialize_defined(old(self)@, n),
        ensures
            final(self).wf(),
            final(self)@ == model::on_initialize(old(self)@, n).0,
            order == model::on_initialize(old(self)@, n).1,
    {
        let proposal_id: ProposalId = match self.transfer_time.get(&n) {
            Some(proposal_id) => *proposal_id,
            None => {
                return None;
            },
        };
        match self.transfer_funds(proposal_id) {
            Ok(order) => order,
            Err(_) => None,
        }
    }

    /// The community, in increasing order.
    pub fn community_members(&self) -> (members: Vec<AccountId>)
        ensures
            members@ == self@.community_members,
    {
        self.community_members.to_vec()
    }

    /// The committee, in increasing order.
    pub fn committee_members(&self) -> (members: Vec<AccountId>)
        ensures
            members@ == self@.committee_members,
    {
        self.committee_members.to_vec()
    }

    /// The tally of a proposal, if the proposal is on record.
    pub fn voting(&self, proposal_hash: ProposalId) -> (votes: Option<Votes>)
        requires
            self.wf(),
        ensures
            match votes {
                Some(votes) => self@.voting.contains_key(proposal_hash) && votes@
                    == self@.voting[proposal_hash],
                None => !self@.voting.contains_key(proposal_hash),
            },
    {
        match self.voting.get(&proposal_hash) {
            Some(votes) => Some(votes.clone()),
            None => None,
        }
    }

    /// The terms of a proposal, if the proposal is on record.
    pub fn proposal(&self, proposal_hash: ProposalId) -> (info: Option<ProposalInfo>)
        requires
            self.wf(),
        ensures
            match info {
                Some(info) => self@.proposal.contains_key(proposal_hash) && info
                    == self@.proposal[proposal_hash],
                None => !self@.proposal.contains_key(proposal_hash),
            },
    {
        match self.proposal.get(&proposal_hash) {
            Some(info) => Some(*info),
            None => None,
        }
    }

    /// The accounts that have voted on a proposal, in increasing order: none where nothing
    /// is recorded.
    pub fn approvers(&self, proposal_hash: ProposalId) -> (voters: Vec<AccountId>)
        requires
            self.wf(),
        ensures
            voters@ == self@.approvers_of(proposal_hash),
    {
        match self.approvers.get(&proposal_hash) {
            Some(voters) => voters.to_vec(),
            None => Vec::new(),
        }
    }

    /// The accounts to be paid for a proposal: none where nothing is recorded.
    pub fn fund_seeker_accounts(&self, proposal_hash: ProposalId) -> (accounts: Vec<AccountId>)
        requires
            self.wf(),
        ensures
            accounts@ == self@.fund_seekers_of(proposal_hash),
    {
        match self.fund_seeker_accounts.get(&proposal_hash) {
            Some(accounts) => copy_accounts(accounts),
            None => Vec::new(),
        }
    }

    /// The proposal whose transfer is scheduled for height `n`, if there is one.
    pub fn transfer_time(&self, n: BlockNumber) -> (scheduled: Option<ProposalId>)
        requires
            self.wf(),
        ensures
            match scheduled {
                Some(id) => self@.transfer_time.contains_key(n) && id == self@.transfer_time[n],
                None => !self@.transfer_time.contains_key(n),
            },
    {
        match self.transfer_time.get(&n) {
            Some(id) => Some(*id),
            None => None,
        }
    }

    /// The accounts that hold the funds: the one named last, or none.
    pub fn pot_account(&self) -> (accounts: Vec<AccountId>)
        ensures
            accounts@ == self@.pot_account,
    {
        copy_accounts(&self.pot_account)
    }

    /// The notifications given so far, oldest first.
    pub fn events(&self) -> (log: Vec<Event>)
        ensures
            log@ == self@.events,
    {
        let mut log: Vec<Event> = Vec::new();
        let mut i: usize = 0;
        while i < self.events.len()
            invariant
                i <= self.events.len(),
                log@ == self.events@.subrange(0, i as int),
            decreases self.events.len() - i,
        {
            log.push(self.events[i]);
            i = i + 1;
        }
        log
    }
}

} // verus!
