//! The pallet as a mathematical state machine: its state, the states that can be reached,
//! and what each operation makes of a state.
use vstd::prelude::*;
use crate::ordered_set::{ordered_insert, strictly_increasing};
use crate::types::{
    AccountId, Balance, BlockNumber, DispatchError, DispatchResult, Error, Event, MemberCount,
    Origin, ProposalId, ProposalInfo, TransferError, TransferOrder, Vote, VotesView,
};

verus! {

/// Number of blocks between a vote and the transfer attempt that it schedules.
pub const TRANSFER_DELAY: BlockNumber = 10;

/// Everything the pallet keeps.
#[verifier::ext_equal]
pub struct State {
    /// The community, in increasing order.
    pub community_members: Seq<AccountId>,
    /// The committee, in increasing order.
    pub committee_members: Seq<AccountId>,
    /// The tally of each proposal.
    pub voting: Map<ProposalId, VotesView>,
    /// The terms of each proposal.
    pub proposal: Map<ProposalId, ProposalInfo>,
    /// For each proposal the accounts that have voted on it, in increasing order.
    pub approvers: Map<ProposalId, Seq<AccountId>>,
    /// For each proposal the accounts to be paid; the first one is the beneficiary.
    pub fund_seeker_accounts: Map<ProposalId, Seq<AccountId>>,
    /// For each height the proposal whose transfer is attempted there.
    pub transfer_time: Map<BlockNumber, ProposalId>,
    /// The accounts that hold the funds; the first one pays.
    pub pot_account: Seq<AccountId>,
    /// The notifications given so far, oldest first.
    pub events: Seq<Event>,
}

impl State {
    /// The state before any operation.
    pub open spec fn empty() -> State {
        State {
            community_members: Seq::empty(),
            committee_members: Seq::empty(),
            voting: Map::empty(),
            proposal: Map::empty(),
            approvers: Map::empty(),
            fund_seeker_accounts: Map::empty(),
            transfer_time: Map::empty(),
            pot_account: Seq::empty(),
            events: Seq::empty(),
        }
    }

    /// The accounts that have voted on `id`: none where nothing is recorded.
    pub open spec fn approvers_of(self, id: ProposalId) -> Seq<AccountId> {
        if self.approvers.contains_key(id) {
            self.approvers[id]
        } else {
            Seq::empty()
        }
    }

    /// The accounts to be paid for `id`: none where nothing is recorded.
    pub open spec fn fund_seekers_of(self, id: ProposalId) -> Seq<AccountId> {
        if self.fund_seeker_accounts.contains_key(id) {
            self.fund_seeker_accounts[id]
        } else {
            Seq::empty()
        }
    }

    /// Both registries are sorted and free of duplicates, and the committee lies within
    /// the community.
    pub open spec fn registries_wf(self) -> bool {
        &&& strictly_increasing(self.community_members)
        &&& strictly_increasing(self.committee_members)
        &&& forall|a: AccountId| #[trigger]
            self.committee_members.contains(a) ==> self.community_members.contains(a)
    }

    /// A proposal has its tally, its terms and its beneficiary together or not at all, and
    /// the beneficiary is one member of the community.
    pub open spec fn proposals_wf(self) -> bool {
        &&& forall|id: ProposalId| #[trigger]
            self.voting.contains_key(id) <==> self.proposal.contains_key(id)
        &&& forall|id: ProposalId| #[trigger]
            self.voting.contains_key(id) <==> self.fund_seeker_accounts.contains_key(id)
        &&& forall|id: ProposalId| #[trigger]
            self.fund_seeker_accounts.contains_key(id) ==> {
                &&& self.fund_seeker_accounts[id].len() == 1
                &&& self.community_members.contains(self.fund_seeker_accounts[id][0])
            }
    }

    /// The accounts recorded as having voted on `id` are sorted, free of duplicates, members
    /// of the committee, and exactly those that stand in the tally, each of them once.
    pub open spec fn tally_wf(self, id: ProposalId) -> bool {
        let voters = self.approvers_of(id);
        let votes = self.voting[id];
        &&& strictly_increasing(voters)
        &&& forall|a: AccountId| #[trigger]
            voters.contains(a) ==> self.committee_members.contains(a)
        &&& forall|a: AccountId| #[trigger]
            voters.contains(a) <==> (votes.ayes.contains(a) || votes.nays.contains(a))
        &&& voters.len() == votes.ayes.len() + votes.nays.len()
    }

    /// Voters are recorded for proposals only and only once somebody has voted, and each
    /// tally agrees with its voters.
    pub open spec fn tallies_wf(self) -> bool {
        &&& forall|id: ProposalId| #[trigger]
            self.approvers.contains_key(id) ==> self.voting.contains_key(id)
                && self.approvers[id].len() > 0
        &&& forall|id: ProposalId| #[trigger] self.voting.contains_key(id) ==> self.tally_wf(id)
    }

    /// Transfers are scheduled for proposals only.
    pub open spec fn schedule_wf(self) -> bool {
        forall|n: BlockNumber| #[trigger]
            self.transfer_time.contains_key(n) ==> self.voting.contains_key(
                self.transfer_time[n],
            )
    }

    /// What holds of every state that the operations can reach from the empty one.
    pub open spec fn wf(self) -> bool {
        &&& self.registries_wf()
        &&& self.proposals_wf()
        &&& self.tallies_wf()
        &&& self.schedule_wf()
    }

    /// The state with one more notification.
    pub open spec fn deposit_event(self, event: Event) -> State {
        State { events: self.events.push(event), ..self }
    }
}

/// The account behind a signed origin; any other origin is refused.
pub open spec fn ensure_signed(origin: Origin) -> Result<AccountId, DispatchError> {
    match origin {
        Origin::Signed(who) => Ok(who),
        _ => Err(DispatchError::BadOrigin),
    }
}

/// Accepts the privileged origin and refuses any other.
pub open spec fn ensure_root(origin: Origin) -> DispatchResult {
    match origin {
        Origin::Root => Ok(()),
        _ => Err(DispatchError::BadOrigin),
    }
}

/// A signed caller adds `who` to the community.
pub open spec fn add_community_member(s: State, origin: Origin, who: AccountId) -> (
    State,
    DispatchResult,
) {
    if ensure_signed(origin) is Err {
        (s, Err(DispatchError::BadOrigin))
    } else if s.community_members.contains(who) {
        (s, Err(DispatchError::Module(Error::AlreadyMemberOfCommunity)))
    } else {
        (
            State {
                community_members: ordered_insert(s.community_members, who),
                ..s
            }.deposit_event(Event::MemberAdded),
            Ok(()),
        )
    }
}

/// The privileged caller raises a member of the community to the committee.
pub open spec fn add_committee_member(s: State, origin: Origin, who: AccountId) -> (
    State,
    DispatchResult,
) {
    if !s.community_members.contains(who) {
        (s, Err(DispatchError::Module(Error::MemberIsNotPresentInCommunity)))
    } else if ensure_root(origin) is Err {
        (s, Err(DispatchError::BadOrigin))
    } else if s.committee_members.contains(who) {
        (s, Err(DispatchError::Module(Error::AlreadyMemberOfCommittee)))
    } else {
        (
            State {
                committee_members: ordered_insert(s.committee_members, who),
                ..s
            }.deposit_event(Event::MemberAddedToCommittee),
            Ok(()),
        )
    }
}

/// A member of the community submits a proposal, to be paid to that member.
pub open spec fn add_proposal(s: State, origin: Origin, id: ProposalId, amount: Balance) -> (
    State,
    DispatchResult,
) {
    match ensure_signed(origin) {
        Err(e) => (s, Err(e)),
        Ok(who) => if !s.community_members.contains(who) {
            (s, Err(DispatchError::Module(Error::MemberIsNotPresentInCommunity)))
        } else if s.voting.contains_key(id) {
            (s, Err(DispatchError::Module(Error::ProposalAlreadyExist)))
        } else {
            (
                State {
                    proposal: s.proposal.insert(id, ProposalInfo { amount }),
                    voting: s.voting.insert(
                        id,
                        VotesView { ayes: Seq::empty(), nays: Seq::empty() },
                    ),
                    fund_seeker_accounts: s.fund_seeker_accounts.insert(id, seq![who]),
                    ..s
                }.deposit_event(Event::ProposalAdded),
                Ok(()),
            )
        },
    }
}

/// The tally with one more vote, cast by `who`.
pub open spec fn record_vote(votes: VotesView, who: AccountId, choice: Vote) -> VotesView {
    match choice {
        Vote::Aye => VotesView { ayes: votes.ayes.push(who), ..votes },
        Vote::Nay => VotesView { nays: votes.nays.push(who), ..votes },
    }
}

/// A member of the committee votes on a proposal at height `now`. The vote schedules a
/// transfer attempt `TRANSFER_DELAY` blocks later, in place of any other attempt
/// scheduled for that height.
pub open spec fn approve_proposal(
    s: State,
    origin: Origin,
    id: ProposalId,
    choice: Vote,
    now: BlockNumber,
) -> (State, DispatchResult) {
    match ensure_signed(origin) {
        Err(e) => (s, Err(e)),
        Ok(who) => if !s.committee_members.contains(who) {
            (s, Err(DispatchError::Module(Error::MemberIsNotPresentInCommittee)))
        } else if s.approvers_of(id).contains(who) {
            (s, Err(DispatchError::Module(Error::AlreadyApproved)))
        } else if !s.voting.contains_key(id) {
            (s, Err(DispatchError::Module(Error::ProposalMissing)))
        } else {
            let votes = record_vote(s.voting[id], who, choice);
            (
                State {
                    voting: s.voting.insert(id, votes),
                    approvers: s.approvers.insert(id, ordered_insert(s.approvers_of(id), who)),
                    transfer_time: s.transfer_time.insert(
                        (now + TRANSFER_DELAY) as BlockNumber,
                        id,
                    ),
                    ..s
                }.deposit_event(
                    Event::Approved {
                        account: who,
                        proposal_hash: id,
                        voted: choice,
                        ayes: votes.ayes.len() as MemberCount,
                        nays: votes.nays.len() as MemberCount,
                    },
                ),
                Ok(()),
            )
        },
    }
}

/// The privileged caller names the account that holds the funds.
pub open spec fn add_pot_account(s: State, origin: Origin, who: AccountId) -> (
    State,
    DispatchResult,
) {
    if ensure_root(origin) is Err {
        (s, Err(DispatchError::BadOrigin))
    } else {
        (State { pot_account: seq![who], ..s }, Ok(()))
    }
}

/// Whether every member of the committee, as it stands now, has voted aye on `id`.
pub open spec fn unanimous(s: State, id: ProposalId) -> bool {
    s.voting[id].ayes.len() == s.committee_members.len()
}

/// The payment that settles `id`: its amount, from the pot to the beneficiary, leaving the
/// pot in existence.
pub open spec fn transfer_order(s: State, id: ProposalId) -> TransferOrder {
    TransferOrder {
        source: s.pot_account[0],
        dest: s.fund_seekers_of(id)[0],
        value: s.proposal[id].amount,
        keep_alive: true,
    }
}

/// Whether the transfer of `id` can be evaluated: a proposal that is on record needs a
/// beneficiary and a pot.
pub open spec fn transfer_defined(s: State, id: ProposalId) -> bool {
    s.voting.contains_key(id) && s.proposal.contains_key(id) ==> s.fund_seekers_of(id).len() > 0
        && s.pot_account.len() > 0
}

/// Evaluates the tally of `id` against the committee. A unanimous committee gives the
/// payment to make; otherwise the transfer is declined, which is noted and is no failure.
pub open spec fn transfer_funds(s: State, id: ProposalId) -> (
    State,
    Result<Option<TransferOrder>, DispatchError>,
) {
    if !s.voting.contains_key(id) || !s.proposal.contains_key(id) {
        (s, Err(DispatchError::Module(Error::ProposalMissing)))
    } else if unanimous(s, id) {
        (s, Ok(Some(transfer_order(s, id))))
    } else {
        (s.deposit_event(Event::FundTransferDeclined), Ok(None))
    }
}

/// Takes note of what the ledger made of a payment: a payment made is notified, a failure
/// is handed on and changes nothing.
pub open spec fn conclude_transfer(s: State, outcome: Result<(), TransferError>) -> (
    State,
    DispatchResult,
) {
    match outcome {
        Ok(()) => (s.deposit_event(Event::FundTransfer), Ok(())),
        Err(e) => (s, Err(DispatchError::Transfer(e))),
    }
}

/// The host collects the notifications: the log is handed out and starts anew.
pub open spec fn take_events(s: State) -> (State, Seq<Event>) {
    (State { events: Seq::empty(), ..s }, s.events)
}

/// Whether the work pending at height `n` can be evaluated.
pub open spec fn on_initialize_defined(s: State, n: BlockNumber) -> bool {
    s.transfer_time.contains_key(n) ==> transfer_defined(s, s.transfer_time[n])
}

/// The host reaches height `n`: the transfer scheduled there, if any, is evaluated, and
/// the schedule stays as it is. A failure of the evaluation is not reported.
pub open spec fn on_initialize(s: State, n: BlockNumber) -> (State, Option<TransferOrder>) {
    if s.transfer_time.contains_key(n) {
        let (next, outcome) = transfer_funds(s, s.transfer_time[n]);
        (
            next,
            match outcome {
                Ok(order) => order,
                Err(_) => None,
            },
        )
    } else {
        (s, None)
    }
}

} // verus!
