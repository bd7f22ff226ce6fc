use pallet_proposal::{
    DispatchError, Error, Event, Origin, Pallet, ProposalId, Snapshot, Vote, Votes,
};
use sp_runtime::traits::BlakeTwo256;

const TEST_ACCOUNT: u64 = 1;

/// Everything that can be seen of a pallet: its records and its event log.
fn records(pallet: &Pallet) -> (Snapshot, Vec<Event>) {
    (pallet.snapshot(), pallet.events())
}

fn hash_of_42() -> ProposalId {
    <BlakeTwo256 as sp_runtime::traits::Hash>::hash_of(&42).to_fixed_bytes()
}

#[test]
fn add_community_member_successfully() {
    let mut pallet = Pallet::new();
    assert_eq!(pallet.add_community_member(Origin::Signed(1), TEST_ACCOUNT), Ok(()));

    assert_eq!(pallet.community_members(), vec![TEST_ACCOUNT]);
}

#[test]
fn add_committee_member_passed() {
    let mut pallet = Pallet::new();
    assert_eq!(pallet.add_community_member(Origin::Signed(1), TEST_ACCOUNT), Ok(()));

    assert_eq!(pallet.add_committee_member(Origin::Root, TEST_ACCOUNT), Ok(()));

    assert_eq!(pallet.committee_members(), vec![TEST_ACCOUNT]);
}

#[test]
fn add_committee_member_from_extrinsic_fail() {
    let mut pallet = Pallet::new();
    assert_eq!(pallet.add_community_member(Origin::Signed(1), TEST_ACCOUNT), Ok(()));

    let before = records(&pallet);
    assert_eq!(
        pallet.add_committee_member(Origin::Signed(TEST_ACCOUNT), 1),
        Err(DispatchError::BadOrigin)
    );
    assert_eq!(records(&pallet), before);
}

#[test]
fn add_proposal_successfully() {
    let mut pallet = Pallet::new();
    let hash = hash_of_42();
    assert_eq!(pallet.add_community_member(Origin::Signed(1), TEST_ACCOUNT), Ok(()));
    assert_eq!(pallet.add_proposal(Origin::Signed(1), hash, 1000), Ok(()));

    assert_eq!(pallet.voting(hash), Some(Votes { ayes: vec![], nays: vec![] }));
}

#[test]
fn add_proposal_when_not_present_in_community_fail() {
    let mut pallet = Pallet::new();
    let hash = hash_of_42();

    let before = records(&pallet);
    assert_eq!(
        pallet.add_proposal(Origin::Signed(1), hash, 1000),
        Err(DispatchError::Module(Error::MemberIsNotPresentInCommunity))
    );
    assert_eq!(records(&pallet), before);
}

#[test]
fn add_same_proposal_multiple_times_fail() {
    let mut pallet = Pallet::new();
    let hash = hash_of_42();
    assert_eq!(pallet.add_community_member(Origin::Signed(1), TEST_ACCOUNT), Ok(()));

    assert_eq!(pallet.add_proposal(Origin::Signed(1), hash, 1000), Ok(()));

    let before = records(&pallet);
    assert_eq!(
        pallet.add_proposal(Origin::Signed(1), hash, 1000),
        Err(DispatchError::Module(Error::ProposalAlreadyExist))
    );
    assert_eq!(records(&pallet), before);
}

#[test]
fn approve_proposal_correctly() {
    let mut pallet = Pallet::new();
    let hash = hash_of_42();
    assert_eq!(pallet.add_community_member(Origin::Signed(1), TEST_ACCOUNT), Ok(()));

    assert_eq!(pallet.add_committee_member(Origin::Root, TEST_ACCOUNT), Ok(()));

    assert_eq!(pallet.add_proposal(Origin::Signed(1), hash, 1000), Ok(()));

    assert_eq!(pallet.ApproveProposal(Origin::Signed(1), hash, Vote::Aye, 0), Ok(()));

    assert_eq!(pallet.approvers(hash), vec![1]);
}

#[test]
fn approve_same_proposal_multiple_times_fails() {
    let mut pallet = Pallet::new();
    let hash = hash_of_42();
    assert_eq!(pallet.add_community_member(Origin::Signed(1), TEST_ACCOUNT), Ok(()));

    assert_eq!(pallet.add_committee_member(Origin::Root, TEST_ACCOUNT), Ok(()));

    assert_eq!(pallet.add_proposal(Origin::Signed(1), hash, 1000), Ok(()));

    assert_eq!(pallet.ApproveProposal(Origin::Signed(1), hash, Vote::Aye, 0), Ok(()));

    let before = records(&pallet);
    assert_eq!(
        pallet.ApproveProposal(Origin::Signed(1), hash, Vote::Aye, 0),
        Err(DispatchError::Module(Error::AlreadyApproved))
    );
    assert_eq!(records(&pallet), before);
}

#[test]
fn approve_wrong_proposal_fails() {
    let mut pallet = Pallet::new();
    let hash = hash_of_42();
    assert_eq!(pallet.add_community_member(Origin::Signed(1), TEST_ACCOUNT), Ok(()));

    assert_eq!(pallet.add_committee_member(Origin::Root, TEST_ACCOUNT), Ok(()));

    let before = records(&pallet);
    assert_eq!(
        pallet.ApproveProposal(Origin::Signed(1), hash, Vote::Aye, 0),
        Err(DispatchError::Module(Error::ProposalMissing))
    );
    assert_eq!(records(&pallet), before);
}
