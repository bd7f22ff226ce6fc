//! Plain data shared by the registry, the proposal store and the tally.
use vstd::prelude::*;

verus! {

/// Ledger address of a participant. Accounts are totally ordered.
pub type AccountId = u64;

/// Amount of currency.
pub type Balance = u128;

/// Height in the host's block sequence.
pub type BlockNumber = u64;

/// Number of members, as carried in vote notifications.
pub type MemberCount = u32;

/// Identifier of a proposal: a content hash chosen by the caller.
pub type ProposalId = [u8; 32];

/// A fresh vector with the same accounts in the same order.
pub fn copy_accounts(accounts: &Vec<AccountId>) -> (copy: Vec<AccountId>)
    ensures
        copy@ == accounts@,
{
    let mut copy: Vec<AccountId> = Vec::new();
    let mut i: usize = 0;
    while i < accounts.len()
        invariant
            i <= accounts.len(),
            copy@ == accounts@.subrange(0, i as int),
        decreases accounts.len() - i,
    {
        copy.push(accounts[i]);
        i = i + 1;
    }
    copy
}

/// Where a call comes from, as established by the host before the call.
#[derive(Clone, Copy, Debug, PartialEq, Eq, Structural)]
pub enum Origin {
    /// The privileged caller.
    Root,
    /// An authenticated account.
    Signed(AccountId),
    /// Nobody: the call carries no signature.
    Unsigned,
}

/// Which way a committee member votes on a proposal.
#[derive(Clone, Copy, Debug, PartialEq, Eq, Structural)]
pub enum Vote {
    Aye,
    Nay,
}

/// Terms of a proposal, fixed when it is submitted.
#[derive(Clone, Copy, Debug, PartialEq, Eq, Structural)]
pub struct ProposalInfo {
    pub amount: Balance,
}

/// Tally of a proposal: the voters for and against, in the order they voted.
#[derive(Debug, PartialEq, Eq)]
pub struct Votes {
    pub ayes: Vec<AccountId>,
    pub nays: Vec<AccountId>,
}

/// Mathematical content of a [`Votes`] record.
pub struct VotesView {
    pub ayes: Seq<AccountId>,
    pub nays: Seq<AccountId>,
}

impl View for Votes {
    type V = VotesView;

    open spec fn view(&self) -> VotesView {
        VotesView { ayes: self.ayes@, nays: self.nays@ }
    }
}

impl Clone for Votes {
    fn clone(&self) -> (copy: Votes)
        ensures
            copy@ == self@,
    {
        Votes { ayes: copy_accounts(&self.ayes), nays: copy_accounts(&self.nays) }
    }
}

/// Reasons for which an operation of the pallet is refused.
#[derive(Clone, Copy, Debug, PartialEq, Eq, Structural)]
pub enum Error {
    /// The account is already in the community.
    AlreadyMemberOfCommunity,
    /// The account is already in the committee.
    AlreadyMemberOfCommittee,
    /// The account is not in the community.
    MemberIsNotPresentInCommunity,
    /// A record exists already under this proposal id.
    ProposalAlreadyExist,
    /// The account is not in the committee.
    MemberIsNotPresentInCommittee,
    /// The account has voted on this proposal before.
    AlreadyApproved,
    /// No record exists under this proposal id.
    ProposalMissing,
}

/// Failure reported by the currency ledger. The pallet does not interpret it.
#[derive(Clone, Copy, Debug, PartialEq, Eq, Structural)]
pub struct TransferError {
    pub code: u32,
}

/// Failure of a call into the pallet.
#[derive(Clone, Copy, Debug, PartialEq, Eq, Structural)]
pub enum DispatchError {
    /// The origin may not make this call.
    BadOrigin,
    /// One of the pallet's own guards refused the call.
    Module(Error),
    /// The currency ledger refused the transfer.
    Transfer(TransferError),
}

/// Outcome of a call that returns nothing on success.
pub type DispatchResult = Result<(), DispatchError>;

/// Notifications left in the event log.
#[derive(Clone, Copy, Debug, PartialEq, Eq)]
pub enum Event {
    MemberAdded,
    MemberAddedToCommittee,
    ProposalReject,
    ProposalApproved,
    ProposalAdded,
    FundTransfer,
    FundTransferDeclined,
    Approved {
        account: AccountId,
        proposal_hash: ProposalId,
        voted: Vote,
        ayes: MemberCount,
        nays: MemberCount,
    },
}

/// A payment that the host is asked to make on the currency ledger.
#[derive(Clone, Copy, Debug, PartialEq, Eq, Structural)]
pub struct TransferOrder {
    /// Account that pays: the pot.
    pub source: AccountId,
    /// Account that receives: the one that submitted the proposal.
    pub dest: AccountId,
    /// Amount to move.
    pub value: Balance,
    /// Whether the payment must leave the source account in existence.
    pub keep_alive: bool,
}

} // verus!
