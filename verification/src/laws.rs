//! What holds of the state machine whatever the calls: the reachable states stay
//! well-formed, refused calls change nothing, and the guards answer as promised.
use vstd::prelude::*;
use crate::model::{
    add_committee_member, add_community_member, add_pot_account, add_proposal,
    approve_proposal, conclude_transfer, on_initialize, record_vote, take_events, transfer_funds,
    transfer_order, unanimous, State, TRANSFER_DELAY,
};
use crate::ordered_set::lemma_ordered_insert;
use crate::types::{
    AccountId, Balance, BlockNumber, DispatchError, Error, Event, Origin, ProposalId,
    TransferError, TransferOrder, Vote,
};

verus! {

/// The state before any operation is well-formed.
pub proof fn lemma_empty_wf()
    ensures
        State::empty().wf(),
{
}

/// Adding to the community keeps the state well-formed: in particular the community stays
/// sorted and free of duplicates.
pub proof fn lemma_add_community_member_wf(s: State, origin: Origin, who: AccountId)
    requires
        s.wf(),
    ensures
        add_community_member(s, origin, who).0.wf(),
{
    let next = add_community_member(s, origin, who).0;
    if next != s {
        lemma_ordered_insert(s.community_members, who);
        lemma_tallies_kept(s, next);
    }
}

/// Adding to the committee keeps the state well-formed: in particular the committee stays
/// sorted, free of duplicates and within the community.
pub proof fn lemma_add_committee_member_wf(s: State, origin: Origin, who: AccountId)
    requires
        s.wf(),
    ensures
        add_committee_member(s, origin, who).0.wf(),
{
    let next = add_committee_member(s, origin, who).0;
    if next != s {
        lemma_ordered_insert(s.committee_members, who);
        assert forall|a: AccountId| #[trigger]
            next.committee_members.contains(a) implies next.community_members.contains(a) by {
            if a != who {
                assert(s.committee_members.contains(a));
            }
        }
        lemma_tallies_kept(s, next);
    }
}

/// Submitting a proposal keeps the state well-formed.
pub proof fn lemma_add_proposal_wf(s: State, origin: Origin, id: ProposalId, amount: Balance)
    requires
        s.wf(),
    ensures
        add_proposal(s, origin, id, amount).0.wf(),
{
    let next = add_proposal(s, origin, id, amount).0;
    if next != s {
        assert forall|other: ProposalId| #[trigger]
            next.voting.contains_key(other) implies next.tally_wf(other) by {
            if other != id {
                assert(s.tally_wf(other));
            }
        }
    }
}

/// A vote keeps the state well-formed: the voters of the proposal stay sorted and free of
/// duplicates, and the tally holds each of them once.
pub proof fn lemma_approve_proposal_wf(
    s: State,
    origin: Origin,
    id: ProposalId,
    choice: Vote,
    now: BlockNumber,
)
    requires
        s.wf(),
    ensures
        approve_proposal(s, origin, id, choice, now).0.wf(),
{
    let next = approve_proposal(s, origin, id, choice, now).0;
    if next != s {
        let who = origin->Signed_0;
        let voters = s.approvers_of(id);
        let votes = record_vote(s.voting[id], who, choice);
        assert(s.tally_wf(id));
        lemma_ordered_insert(voters, who);
        assert forall|a: AccountId| #[trigger]
            next.approvers_of(id).contains(a) implies next.committee_members.contains(a) by {
            if a != who {
                assert(voters.contains(a));
            }
        }
        assert forall|a: AccountId| #[trigger]
            next.approvers_of(id).contains(a) <==> (votes.ayes.contains(a)
                || votes.nays.contains(a)) by {
            lemma_push_contains(s.voting[id].ayes, who, a);
            lemma_push_contains(s.voting[id].nays, who, a);
            assert(voters.contains(a) <==> (s.voting[id].ayes.contains(a)
                || s.voting[id].nays.contains(a)));
        }
        assert forall|other: ProposalId| #[trigger]
            next.voting.contains_key(other) implies next.tally_wf(other) by {
            if other != id {
                assert(s.tally_wf(other));
            }
        }
    }
}

/// A sequence with one more element at its end holds that element and what it held.
proof fn lemma_push_contains(s: Seq<AccountId>, x: AccountId, a: AccountId)
    ensures
        s.push(x).contains(a) <==> (a == x || s.contains(a)),
{
    let t = s.push(x);
    if s.contains(a) {
        let i = choose|i: int| 0 <= i < s.len() && s[i] == a;
        assert(t[i] == a);
    }
    if a == x {
        assert(t[s.len() as int] == a);
    }
}

/// Tallies that agree with their voters still do so where the proposals, the tallies and
/// the voters are untouched and the committee has lost nobody.
proof fn lemma_tallies_kept(s: State, next: State)
    requires
        s.tallies_wf(),
        next.voting == s.voting,
        next.approvers == s.approvers,
        forall|a: AccountId| #[trigger]
            s.committee_members.contains(a) ==> next.committee_members.contains(a),
    ensures
        next.tallies_wf(),
{
    assert forall|id: ProposalId| #[trigger] next.voting.contains_key(id) implies next.tally_wf(
        id,
    ) by {
        assert(s.tally_wf(id));
    }
}

/// Naming the pot keeps the state well-formed.
pub proof fn lemma_add_pot_account_wf(s: State, origin: Origin, who: AccountId)
    requires
        s.wf(),
    ensures
        add_pot_account(s, origin, who).0.wf(),
{
    lemma_tallies_kept(s, add_pot_account(s, origin, who).0);
}

/// Evaluating a transfer changes nothing but the notifications.
pub proof fn lemma_transfer_funds_keeps_records(s: State, id: ProposalId)
    ensures
        transfer_funds(s, id).0 == (State { events: transfer_funds(s, id).0.events, ..s }),
        s.wf() ==> transfer_funds(s, id).0.wf(),
{
    if s.wf() {
        lemma_tallies_kept(s, transfer_funds(s, id).0);
    }
}

/// Taking note of a payment changes nothing but the notifications.
pub proof fn lemma_conclude_transfer_keeps_records(s: State, outcome: Result<(), TransferError>)
    ensures
        conclude_transfer(s, outcome).0 == (State {
            events: conclude_transfer(s, outcome).0.events,
            ..s
        }),
        s.wf() ==> conclude_transfer(s, outcome).0.wf(),
{
    if s.wf() {
        lemma_tallies_kept(s, conclude_transfer(s, outcome).0);
    }
}

/// Reaching a height changes nothing but the notifications.
pub proof fn lemma_on_initialize_keeps_records(s: State, n: BlockNumber)
    ensures
        on_initialize(s, n).0 == (State { events: on_initialize(s, n).0.events, ..s }),
        s.wf() ==> on_initialize(s, n).0.wf(),
{
    if s.transfer_time.contains_key(n) {
        lemma_transfer_funds_keeps_records(s, s.transfer_time[n]);
    }
}

/// Collecting the notifications changes nothing else.
pub proof fn lemma_take_events_keeps_records(s: State)
    ensures
        take_events(s).0 == (State { events: Seq::empty(), ..s }),
        s.wf() ==> take_events(s).0.wf(),
{
    if s.wf() {
        lemma_tallies_kept(s, take_events(s).0);
    }
}

/// A call that is refused leaves the state as it was.
pub proof fn lemma_refused_calls_change_nothing(
    s: State,
    origin: Origin,
    who: AccountId,
    id: ProposalId,
    amount: Balance,
    choice: Vote,
    now: BlockNumber,
    outcome: Result<(), TransferError>,
)
    ensures
        add_community_member(s, origin, who).1 is Err ==> add_community_member(s, origin, who).0
            == s,
        add_committee_member(s, origin, who).1 is Err ==> add_committee_member(s, origin, who).0
            == s,
        add_proposal(s, origin, id, amount).1 is Err ==> add_proposal(s, origin, id, amount).0
            == s,
        approve_proposal(s, origin, id, choice, now).1 is Err ==> approve_proposal(
            s,
            origin,
            id,
            choice,
            now,
        ).0 == s,
        add_pot_account(s, origin, who).1 is Err ==> add_pot_account(s, origin, who).0 == s,
        transfer_funds(s, id).1 is Err ==> transfer_funds(s, id).0 == s,
        conclude_transfer(s, outcome).1 is Err ==> conclude_transfer(s, outcome).0 == s,
{
}

/// An account that is not in the community cannot be raised to the committee, whoever
/// asks: the call is refused as `MemberIsNotPresentInCommunity` and changes nothing.
pub proof fn lemma_committee_needs_community(s: State, origin: Origin, who: AccountId)
    requires
        !s.community_members.contains(who),
    ensures
        add_committee_member(s, origin, who) == (
            s,
            Err::<(), DispatchError>(DispatchError::Module(Error::MemberIsNotPresentInCommunity)),
        ),
{
}

/// A proposal on record is never replaced: submitting its id again is refused whoever asks
/// and leaves every record as it was, and a member of the community who asks is refused
/// as `ProposalAlreadyExist`.
pub proof fn lemma_existing_proposal_refused(
    s: State,
    origin: Origin,
    id: ProposalId,
    amount: Balance,
)
    requires
        s.voting.contains_key(id),
    ensures
        add_proposal(s, origin, id, amount).0 == s,
        add_proposal(s, origin, id, amount).1 is Err,
        origin matches Origin::Signed(caller) && s.community_members.contains(caller)
            ==> add_proposal(s, origin, id, amount).1 == Err::<(), DispatchError>(
            DispatchError::Module(Error::ProposalAlreadyExist),
        ),
{
}

/// Once a proposal has been accepted, submitting its id again is refused as
/// `ProposalAlreadyExist`, whatever the amount and whichever member asks, and the
/// record made by the first call stays as it was.
pub proof fn lemma_proposal_submitted_once(
    s: State,
    first: Origin,
    id: ProposalId,
    amount: Balance,
    caller: AccountId,
    other_amount: Balance,
)
    requires
        add_proposal(s, first, id, amount).1 is Ok,
        s.community_members.contains(caller),
    ensures
        add_proposal(add_proposal(s, first, id, amount).0, Origin::Signed(caller), id, other_amount)
            == (
            add_proposal(s, first, id, amount).0,
            Err::<(), DispatchError>(DispatchError::Module(Error::ProposalAlreadyExist)),
        ),
{
}

/// A member of the committee who has voted on a proposal is refused as `AlreadyApproved`
/// on any further vote on it, aye or nay, and the refusal changes nothing.
pub proof fn lemma_voter_refused(
    s: State,
    voter: AccountId,
    id: ProposalId,
    choice: Vote,
    now: BlockNumber,
)
    requires
        s.wf(),
        s.approvers_of(id).contains(voter),
    ensures
        approve_proposal(s, Origin::Signed(voter), id, choice, now) == (
            s,
            Err::<(), DispatchError>(DispatchError::Module(Error::AlreadyApproved)),
        ),
{
    assert(s.tally_wf(id));
}

/// Nobody votes twice on one proposal: after a vote that was accepted, a second vote of
/// the same account on the same proposal is refused as `AlreadyApproved`, whichever way
/// either of the two goes.
pub proof fn lemma_no_second_vote(
    s: State,
    origin: Origin,
    id: ProposalId,
    first: Vote,
    second: Vote,
    now: BlockNumber,
    later: BlockNumber,
)
    requires
        s.wf(),
        approve_proposal(s, origin, id, first, now).1 is Ok,
    ensures
        approve_proposal(approve_proposal(s, origin, id, first, now).0, origin, id, second, later)
            == (
            approve_proposal(s, origin, id, first, now).0,
            Err::<(), DispatchError>(DispatchError::Module(Error::AlreadyApproved)),
        ),
{
    assert(s.tally_wf(id));
    lemma_ordered_insert(s.approvers_of(id), origin->Signed_0);
}

/// The accounts that have voted on a proposal remain on record as its voters whatever is
/// called next.
pub proof fn lemma_voters_remain(
    s: State,
    voter: AccountId,
    voted_on: ProposalId,
    origin: Origin,
    who: AccountId,
    id: ProposalId,
    amount: Balance,
    choice: Vote,
    now: BlockNumber,
    outcome: Result<(), TransferError>,
)
    requires
        s.wf(),
        s.approvers_of(voted_on).contains(voter),
    ensures
        add_community_member(s, origin, who).0.approvers_of(voted_on).contains(voter),
        add_committee_member(s, origin, who).0.approvers_of(voted_on).contains(voter),
        add_proposal(s, origin, id, amount).0.approvers_of(voted_on).contains(voter),
        approve_proposal(s, origin, id, choice, now).0.approvers_of(voted_on).contains(voter),
        add_pot_account(s, origin, who).0.approvers_of(voted_on).contains(voter),
        transfer_funds(s, id).0.approvers_of(voted_on).contains(voter),
        conclude_transfer(s, outcome).0.approvers_of(voted_on).contains(voter),
        on_initialize(s, now).0.approvers_of(voted_on).contains(voter),
{
    let next = approve_proposal(s, origin, id, choice, now).0;
    if next != s && id == voted_on {
        assert(s.tally_wf(id));
        lemma_ordered_insert(s.approvers_of(id), origin->Signed_0);
    }
}

/// The transfer of a proposal on record is ordered if and only if the number of ayes
/// equals the size of the committee at the moment of the evaluation; otherwise it is
/// declined, which is noted and moves nothing.
pub proof fn lemma_unanimity_decides(s: State, id: ProposalId)
    requires
        s.voting.contains_key(id),
        s.proposal.contains_key(id),
    ensures
        s.voting[id].ayes.len() == s.committee_members.len() ==> transfer_funds(s, id) == (
            s,
            Ok::<Option<TransferOrder>, DispatchError>(Some(transfer_order(s, id))),
        ),
        s.voting[id].ayes.len() != s.committee_members.len() ==> transfer_funds(s, id) == (
            s.deposit_event(Event::FundTransferDeclined),
            Ok::<Option<TransferOrder>, DispatchError>(None),
        ),
{
}

/// The committee counts as it stands when the transfer is evaluated, not as it stood when
/// the votes were cast: a member who joins a unanimous committee before the evaluation
/// turns the transfer into a declined one.
pub proof fn lemma_new_member_breaks_unanimity(s: State, id: ProposalId, who: AccountId)
    requires
        s.wf(),
        s.voting.contains_key(id),
        unanimous(s, id),
        add_committee_member(s, Origin::Root, who).1 is Ok,
    ensures
        transfer_funds(s, id).1 == Ok::<Option<TransferOrder>, DispatchError>(
            Some(transfer_order(s, id)),
        ),
        transfer_funds(add_committee_member(s, Origin::Root, who).0, id).1 == Ok::<
            Option<TransferOrder>,
            DispatchError,
        >(None),
{
    lemma_ordered_insert(s.committee_members, who);
}

/// A height that has been reached keeps its entry in the schedule: reaching it once more
/// evaluates the same proposal once more and hands out the same payment, and each
/// evaluation that declines leaves its own note.
pub proof fn lemma_height_fires_again(s: State, n: BlockNumber)
    ensures
        on_initialize(s, n).0.transfer_time == s.transfer_time,
        on_initialize(on_initialize(s, n).0, n).1 == on_initialize(s, n).1,
        on_initialize(on_initialize(s, n).0, n).0.events.len() - on_initialize(s, n).0.events.len()
            == on_initialize(s, n).0.events.len() - s.events.len(),
{
}

/// A height without an entry in the schedule passes without any effect.
pub proof fn lemma_idle_height(s: State, n: BlockNumber)
    requires
        !s.transfer_time.contains_key(n),
    ensures
        on_initialize(s, n) == (s, None::<TransferOrder>),
{
}

/// A vote cast at height `now` is evaluated at height `now + TRANSFER_DELAY`, whether
/// or not it completes the committee.
pub proof fn lemma_vote_schedules_transfer(
    s: State,
    origin: Origin,
    id: ProposalId,
    choice: Vote,
    now: BlockNumber,
)
    requires
        approve_proposal(s, origin, id, choice, now).1 is Ok,
        now + TRANSFER_DELAY <= BlockNumber::MAX,
    ensures
        approve_proposal(s, origin, id, choice, now).0.transfer_time.contains_key(
            (now + TRANSFER_DELAY) as BlockNumber,
        ),
        approve_proposal(s, origin, id, choice, now).0.transfer_time[(now
            + TRANSFER_DELAY) as BlockNumber] == id,
{
}

} // verus!
