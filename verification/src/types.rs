//! Plain data shared by the registry, its model and its callers.

use vstd::prelude::*;

verus! {

/// An identity: an owner, a caller, or the derived account of a wallet.
pub type AccountId = u64;

/// Identifier of a wallet. Identifiers are handed out in increasing order and never reused.
pub type MultisigId = u32;

/// Position of a proposal within its wallet. Positions are handed out in increasing order.
pub type ProposalIndex = u32;

/// A 256-bit digest.
pub type CallHash = [u8; 32];

/// The configuration of a wallet: who owns it and how many of them must approve.
#[derive(Clone, Debug, PartialEq, Eq)]
pub struct Multisig {
    /// The owners, in the order in which they were given.
    pub owners: Vec<AccountId>,
    /// The number of distinct owner approvals an action needs.
    pub threshold: u32,
}

/// Mathematical value of a [`Multisig`].
pub struct MultisigView {
    pub owners: Seq<AccountId>,
    pub threshold: u32,
}

impl View for Multisig {
    type V = MultisigView;

    open spec fn view(&self) -> MultisigView {
        MultisigView { owners: self.owners@, threshold: self.threshold }
    }
}

/// A request to run one action, kept as the digest of that action only.
#[derive(Clone, Copy, Debug, PartialEq, Eq)]
pub struct Proposal {
    /// Digest of the action that the owners vote on.
    pub call_hash: CallHash,
    /// Set once the action has run successfully; never cleared.
    pub executed: bool,
}

/// Why an operation was rejected. A rejected operation changes nothing.
#[derive(Clone, Copy, Debug, PartialEq, Eq, Structural)]
pub enum Error {
    /// A counter of identifiers or positions is exhausted.
    StorageOverflow,
    /// More owners were given than a wallet may have.
    TooManyOwners,
    /// The threshold is zero or exceeds the number of owners.
    InvalidThreshold,
    /// No wallet has this identifier.
    MultisigNotFound,
    /// The caller is not an owner of the wallet.
    NotAnOwner,
    /// The wallet has no proposal at this position.
    ProposalNotFound,
    /// The proposal has already run.
    AlreadyExecuted,
    /// The caller has already approved the proposal.
    AlreadyConfirmed,
    /// The caller is not the wallet's own derived account.
    MustBeMultisig,
    /// The action supplied does not hash to the digest that was approved.
    CallHashMismatch,
    /// Fewer owners have approved than the threshold asks for.
    NotEnoughApprovals,
    /// The wallet's account still holds funds.
    NonZeroBalance,
}

/// Why a dispatched action failed.
#[derive(Clone, Debug, PartialEq, Eq)]
pub enum DispatchError {
    /// The action was an operation on a wallet and was rejected.
    Multisig(Error),
    /// The action failed elsewhere; the bytes are the dispatcher's own account of it.
    Other(Vec<u8>),
}

/// What running an action came to.
pub type DispatchResult = Result<(), DispatchError>;

/// A notification. Every committed operation produces exactly one.
#[derive(Debug, PartialEq, Eq)]
pub enum Event {
    /// A wallet was created.
    MultisigCreated { creator: AccountId, multisig_id: MultisigId, multisig_account: AccountId },
    /// A proposal was submitted.
    ProposalSubmitted { multisig_id: MultisigId, proposal_index: ProposalIndex, call_hash: CallHash },
    /// An owner approved a proposal.
    Confirmation { who: AccountId, multisig_id: MultisigId, proposal_index: ProposalIndex },
    /// An approved action was dispatched; `result` is what the dispatcher reported.
    ProposalExecuted { multisig_id: MultisigId, proposal_index: ProposalIndex, result: DispatchResult },
    /// A wallet and everything kept for it were removed.
    MultisigDestroyed { multisig_id: MultisigId },
}

} // verus!
