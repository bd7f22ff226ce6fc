use pallet_proposal::{
    Event, Origin, Pallet, ProposalId, ProposalInfo, ProposalRecord, Snapshot, Vote, Votes,
};

fn id(tag: u8) -> ProposalId {
    [tag; 32]
}

/// Community 1..=4, committee 1..=3, one proposal with two ayes and one nay and one without
/// votes, two heights scheduled.
fn sample() -> Snapshot {
    Snapshot {
        community_members: vec![1, 2, 3, 4],
        committee_members: vec![1, 2, 3],
        proposals: vec![
            ProposalRecord {
                proposal_hash: id(1),
                info: ProposalInfo { amount: 500 },
                votes: Votes { ayes: vec![3, 1], nays: vec![2] },
                approvers: vec![1, 2, 3],
                fund_seeker_accounts: vec![4],
            },
            ProposalRecord {
                proposal_hash: id(2),
                info: ProposalInfo { amount: 70 },
                votes: Votes { ayes: vec![], nays: vec![] },
                approvers: vec![],
                fund_seeker_accounts: vec![1],
            },
        ],
        transfer_time: vec![(15, id(1)), (12, id(1))],
        pot_account: vec![99],
    }
}

/// Everything that can be seen of a pallet: its records and its event log.
fn records(pallet: &Pallet) -> (Snapshot, Vec<Event>) {
    (pallet.snapshot(), pallet.events())
}

fn assert_refused(snapshot: Snapshot) {
    assert!(Pallet::restore(&snapshot).is_none());
}

#[test]
fn restore_puts_every_record_back() {
    let pallet = Pallet::restore(&sample()).expect("the sample is valid");
    assert_eq!(pallet.community_members(), vec![1, 2, 3, 4]);
    assert_eq!(pallet.committee_members(), vec![1, 2, 3]);
    assert_eq!(pallet.voting(id(1)), Some(Votes { ayes: vec![3, 1], nays: vec![2] }));
    assert_eq!(pallet.proposal(id(1)), Some(ProposalInfo { amount: 500 }));
    assert_eq!(pallet.approvers(id(1)), vec![1, 2, 3]);
    assert_eq!(pallet.fund_seeker_accounts(id(1)), vec![4]);
    assert_eq!(pallet.voting(id(2)), Some(Votes { ayes: vec![], nays: vec![] }));
    assert_eq!(pallet.proposal(id(2)), Some(ProposalInfo { amount: 70 }));
    assert_eq!(pallet.approvers(id(2)), Vec::<u64>::new());
    assert_eq!(pallet.fund_seeker_accounts(id(2)), vec![1]);
    assert_eq!(pallet.voting(id(3)), None);
    assert_eq!(pallet.transfer_time(15), Some(id(1)));
    assert_eq!(pallet.transfer_time(12), Some(id(1)));
    assert_eq!(pallet.transfer_time(13), None);
    assert_eq!(pallet.pot_account(), vec![99]);
    assert_eq!(pallet.events(), Vec::<Event>::new());
}

#[test]
fn snapshot_of_a_restored_pallet_is_the_snapshot() {
    let pallet = Pallet::restore(&sample()).expect("the sample is valid");
    assert_eq!(pallet.snapshot(), sample());
}

#[test]
fn restored_pallet_goes_on_as_the_one_it_was_taken_from() {
    let mut pallet = Pallet::new();
    for who in [3u64, 1, 2] {
        assert_eq!(pallet.add_community_member(Origin::Signed(who), who), Ok(()));
    }
    assert_eq!(pallet.add_committee_member(Origin::Root, 2), Ok(()));
    assert_eq!(pallet.add_committee_member(Origin::Root, 1), Ok(()));
    assert_eq!(pallet.add_pot_account(Origin::Root, 50), Ok(()));
    assert_eq!(pallet.add_proposal(Origin::Signed(3), id(7), 1000), Ok(()));
    assert_eq!(pallet.add_proposal(Origin::Signed(1), id(8), 2000), Ok(()));
    assert_eq!(pallet.ApproveProposal(Origin::Signed(1), id(8), Vote::Nay, 4), Ok(()));
    assert_eq!(pallet.ApproveProposal(Origin::Signed(2), id(7), Vote::Aye, 5), Ok(()));
    assert_eq!(pallet.take_events().len(), 9);

    let mut restored = Pallet::restore(&pallet.snapshot()).expect("a snapshot is valid");
    assert_eq!(records(&restored), records(&pallet));
    assert_eq!(restored.snapshot(), pallet.snapshot());

    assert_eq!(
        restored.ApproveProposal(Origin::Signed(1), id(7), Vote::Aye, 6),
        pallet.ApproveProposal(Origin::Signed(1), id(7), Vote::Aye, 6)
    );
    assert_eq!(restored.on_initialize(16), pallet.on_initialize(16));
    assert!(restored.on_initialize(15).is_some());
    assert_eq!(restored.events(), pallet.events());
    assert_eq!(restored.snapshot(), pallet.snapshot());
}

#[test]
fn snapshot_of_a_new_pallet_is_empty() {
    let empty = Snapshot {
        community_members: vec![],
        committee_members: vec![],
        proposals: vec![],
        transfer_time: vec![],
        pot_account: vec![],
    };
    assert_eq!(Pallet::new().snapshot(), empty);
    let restored = Pallet::restore(&empty).expect("the empty snapshot is valid");
    assert_eq!(records(&restored), records(&Pallet::new()));
}

#[test]
fn snapshot_leaves_the_event_log_out() {
    let mut pallet = Pallet::new();
    assert_eq!(pallet.add_community_member(Origin::Signed(1), 1), Ok(()));
    let restored = Pallet::restore(&pallet.snapshot()).expect("a snapshot is valid");
    assert_eq!(pallet.events(), vec![Event::MemberAdded]);
    assert_eq!(restored.events(), Vec::<Event>::new());
    assert_eq!(restored.community_members(), vec![1]);
}

#[test]
fn take_events_hands_the_log_out_once() {
    let mut pallet = Pallet::new();
    assert_eq!(pallet.add_community_member(Origin::Signed(1), 1), Ok(()));
    assert_eq!(pallet.add_committee_member(Origin::Root, 1), Ok(()));
    assert_eq!(pallet.take_events(), vec![Event::MemberAdded, Event::MemberAddedToCommittee]);
    assert_eq!(pallet.take_events(), Vec::<Event>::new());
    assert_eq!(pallet.community_members(), vec![1]);
    assert_eq!(pallet.committee_members(), vec![1]);
    assert_eq!(pallet.add_pot_account(Origin::Root, 1), Ok(()));
    assert_eq!(pallet.add_proposal(Origin::Signed(1), id(1), 1), Ok(()));
    assert_eq!(pallet.take_events(), vec![Event::ProposalAdded]);
}

#[test]
fn restore_refuses_a_community_out_of_order() {
    let mut snapshot = sample();
    snapshot.community_members = vec![1, 3, 2, 4];
    assert_refused(snapshot);
    let mut snapshot = sample();
    snapshot.community_members = vec![1, 2, 3, 4, 4];
    assert_refused(snapshot);
}

#[test]
fn restore_refuses_a_committee_out_of_order() {
    let mut snapshot = sample();
    snapshot.committee_members = vec![2, 1, 3];
    assert_refused(snapshot);
    let mut snapshot = sample();
    snapshot.committee_members = vec![1, 1, 2, 3];
    assert_refused(snapshot);
}

#[test]
fn restore_refuses_a_committee_outside_the_community() {
    let mut snapshot = sample();
    snapshot.community_members = vec![1, 2, 4];
    assert_refused(snapshot);
}

#[test]
fn restore_refuses_a_proposal_that_occurs_twice() {
    let mut snapshot = sample();
    snapshot.proposals[1].proposal_hash = id(1);
    assert_refused(snapshot);
}

#[test]
fn restore_refuses_a_proposal_without_one_beneficiary_in_the_community() {
    let mut snapshot = sample();
    snapshot.proposals[1].fund_seeker_accounts = vec![];
    assert_refused(snapshot);
    let mut snapshot = sample();
    snapshot.proposals[1].fund_seeker_accounts = vec![1, 2];
    assert_refused(snapshot);
    let mut snapshot = sample();
    snapshot.proposals[1].fund_seeker_accounts = vec![5];
    assert_refused(snapshot);
}

#[test]
fn restore_refuses_voters_out_of_order() {
    let mut snapshot = sample();
    snapshot.proposals[0].approvers = vec![2, 1, 3];
    assert_refused(snapshot);
}

#[test]
fn restore_refuses_a_voter_outside_the_committee() {
    let mut snapshot = sample();
    snapshot.proposals[0].approvers = vec![1, 2, 4];
    snapshot.proposals[0].votes = Votes { ayes: vec![4, 1], nays: vec![2] };
    assert_refused(snapshot);
}

#[test]
fn restore_refuses_a_tally_that_disagrees_with_the_voters() {
    // One voter too few in the tally.
    let mut snapshot = sample();
    snapshot.proposals[0].votes = Votes { ayes: vec![3, 1], nays: vec![] };
    assert_refused(snapshot);
    // One vote too many in the tally.
    let mut snapshot = sample();
    snapshot.proposals[1].votes = Votes { ayes: vec![1], nays: vec![] };
    assert_refused(snapshot);
    // The same account on both sides.
    let mut snapshot = sample();
    snapshot.proposals[0].votes = Votes { ayes: vec![3, 1], nays: vec![1] };
    assert_refused(snapshot);
    // The same account twice on one side.
    let mut snapshot = sample();
    snapshot.proposals[0].votes = Votes { ayes: vec![3, 3], nays: vec![2] };
    assert_refused(snapshot);
    // A vote of an account that is not among the voters.
    let mut snapshot = sample();
    snapshot.proposals[0].approvers = vec![1, 2];
    snapshot.proposals[0].votes = Votes { ayes: vec![3], nays: vec![2] };
    assert_refused(snapshot);
}

#[test]
fn restore_refuses_a_height_that_occurs_twice() {
    let mut snapshot = sample();
    snapshot.transfer_time = vec![(15, id(1)), (15, id(2))];
    assert_refused(snapshot);
}

#[test]
fn restore_refuses_a_transfer_scheduled_for_an_unknown_proposal() {
    let mut snapshot = sample();
    snapshot.transfer_time = vec![(15, id(3))];
    assert_refused(snapshot);
}
