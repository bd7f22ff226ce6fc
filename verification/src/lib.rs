//! A treasury governed by a committee: members of a community submit funding proposals,
//! the committee votes, and a unanimous committee releases the funds from a shared pot
//! a fixed number of blocks after the last vote.
pub mod laws;
pub mod model;
pub mod ordered_set;
pub mod pallet;
pub mod storage;
pub mod types;

pub use model::{State, TRANSFER_DELAY};
pub use ordered_set::OrderedSet;
pub use pallet::snapshot::{ProposalRecord, Snapshot};
pub use pallet::{ensure_root, ensure_signed, Pallet};
pub use storage::{StorageKey, StorageMap};
pub use types::{
    AccountId, Balance, BlockNumber, DispatchError, DispatchResult, Error, Event, MemberCount,
    Origin, ProposalId, ProposalInfo, TransferError, TransferOrder, Vote, Votes,
};
