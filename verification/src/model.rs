//! The mathematical model of the registry: its state, its invariant, and what
//! each operation does to it.

use vstd::prelude::*;
use crate::types::{AccountId, CallHash, Error, MultisigId, Proposal, ProposalIndex};

verus! {

/// A proposal together with the owners who have approved it, in the order in
/// which they did.
pub struct ProposalState {
    pub proposal: Proposal,
    pub approvals: Seq<AccountId>,
}

/// A wallet together with every proposal ever submitted to it; a proposal's
/// position in `proposals` is its index.
pub struct WalletState {
    pub owners: Seq<AccountId>,
    pub threshold: u32,
    pub proposals: Seq<ProposalState>,
}

/// The whole registry.
pub struct State {
    /// The largest number of owners a wallet may have.
    pub max_owners: u32,
    /// The identifier that the next wallet will get.
    pub next_multisig_id: MultisigId,
    /// The wallets that exist, by identifier.
    pub wallets: Map<MultisigId, WalletState>,
}

/// One request to the registry, with all that it depends on.
pub enum Operation {
    /// Create a wallet.
    Create { owners: Seq<AccountId>, threshold: u32 },
    /// Submit a proposal on behalf of `who`.
    Submit { who: AccountId, id: MultisigId, call_hash: CallHash },
    /// Approve a proposal on behalf of `who`.
    Confirm { who: AccountId, id: MultisigId, index: ProposalIndex },
    /// Record what the dispatch of a proposal's action came to.
    Conclude { id: MultisigId, index: ProposalIndex, succeeded: bool },
    /// Destroy a wallet on behalf of `who`.
    Destroy { who: AccountId, id: MultisigId, sovereign: AccountId, balance: u128 },
}

impl ProposalState {
    /// A proposal as it is just after submission by `who`.
    pub open spec fn submitted(who: AccountId, call_hash: CallHash) -> ProposalState {
        ProposalState {
            proposal: Proposal { call_hash, executed: false },
            approvals: seq![who],
        }
    }

    /// The proposal with `who` added to its approvals.
    pub open spec fn approved_by(self, who: AccountId) -> ProposalState {
        ProposalState { approvals: self.approvals.push(who), ..self }
    }

    /// The proposal marked as executed.
    pub open spec fn finalized(self) -> ProposalState {
        ProposalState {
            proposal: Proposal { call_hash: self.proposal.call_hash, executed: true },
            ..self
        }
    }

    /// Approvals are never empty, hold no identity twice, and come from owners only.
    pub open spec fn inv(self, owners: Seq<AccountId>) -> bool {
        &&& self.approvals.len() >= 1
        &&& self.approvals.no_duplicates()
        &&& forall|k: int|
            0 <= k < self.approvals.len() ==> owners.contains(#[trigger] self.approvals[k])
    }
}

impl WalletState {
    /// A wallet as it is just after creation.
    pub open spec fn created(owners: Seq<AccountId>, threshold: u32) -> WalletState {
        WalletState { owners, threshold, proposals: Seq::empty() }
    }

    /// The wallet with proposal `index` replaced.
    pub open spec fn with_proposal(self, index: int, proposal: ProposalState) -> WalletState {
        WalletState { proposals: self.proposals.update(index, proposal), ..self }
    }

    /// The threshold lies between one and the number of owners, which is
    /// bounded; the index counter fits; every proposal is valid.
    pub open spec fn inv(self, max_owners: u32) -> bool {
        &&& 1 <= self.threshold
        &&& self.threshold <= self.owners.len()
        &&& self.owners.len() <= max_owners
        &&& self.proposals.len() <= u32::MAX
        &&& forall|i: int|
            0 <= i < self.proposals.len() ==> (#[trigger] self.proposals[i]).inv(self.owners)
    }
}

impl State {
    /// The registry before any wallet was created.
    pub open spec fn empty(max_owners: u32) -> State {
        State { max_owners, next_multisig_id: 0, wallets: Map::empty() }
    }

    /// Identifiers in use lie below the counter, and every wallet is valid.
    pub open spec fn inv(self) -> bool {
        &&& self.wallets.dom().finite()
        &&& forall|id: MultisigId| #[trigger]
            self.wallets.contains_key(id) ==> id < self.next_multisig_id && self.wallets[id].inv(
                self.max_owners,
            )
    }

    /// Whether wallet `id` exists and has a proposal at `index`.
    pub open spec fn has_proposal(self, id: MultisigId, index: ProposalIndex) -> bool {
        self.wallets.contains_key(id) && index < self.wallets[id].proposals.len()
    }

    /// The proposal at `index` of wallet `id`, if there is one.
    pub open spec fn proposal(self, id: MultisigId, index: ProposalIndex) -> Option<Proposal> {
        if self.has_proposal(id, index) {
            Some(self.wallets[id].proposals[index as int].proposal)
        } else {
            None
        }
    }

    /// The approvals of the proposal at `index` of wallet `id`; empty where
    /// there is no such proposal.
    pub open spec fn approvals(self, id: MultisigId, index: ProposalIndex) -> Seq<AccountId> {
        if self.has_proposal(id, index) {
            self.wallets[id].proposals[index as int].approvals
        } else {
            Seq::empty()
        }
    }

    /// The index that the next proposal of wallet `id` will get; zero where
    /// there is no such wallet.
    pub open spec fn next_proposal_index(self, id: MultisigId) -> nat {
        if self.wallets.contains_key(id) {
            self.wallets[id].proposals.len()
        } else {
            0
        }
    }

    /// The state with wallet `id` set to `wallet`.
    pub open spec fn with_wallet(self, id: MultisigId, wallet: WalletState) -> State {
        State { wallets: self.wallets.insert(id, wallet), ..self }
    }

    /// Why creating a wallet is rejected, if it is.
    pub open spec fn create_error(self, owners: Seq<AccountId>, threshold: u32) -> Option<Error> {
        if owners.len() > self.max_owners {
            Some(Error::TooManyOwners)
        } else if threshold == 0 || threshold > owners.len() {
            Some(Error::InvalidThreshold)
        } else if self.next_multisig_id == u32::MAX {
            Some(Error::StorageOverflow)
        } else {
            None
        }
    }

    /// Creating a wallet: the new state and the new wallet's identifier.
    pub open spec fn create(self, owners: Seq<AccountId>, threshold: u32) -> Result<
        (State, MultisigId),
        Error,
    > {
        match self.create_error(owners, threshold) {
            Some(e) => Err(e),
            None => Ok(
                (
                    State {
                        next_multisig_id: (self.next_multisig_id + 1) as u32,
                        wallets: self.wallets.insert(
                            self.next_multisig_id,
                            WalletState::created(owners, threshold),
                        ),
                        ..self
                    },
                    self.next_multisig_id,
                ),
            ),
        }
    }

    /// Why submitting a proposal is rejected, if it is.
    pub open spec fn submit_error(self, who: AccountId, id: MultisigId) -> Option<Error> {
        if !self.wallets.contains_key(id) {
            Some(Error::MultisigNotFound)
        } else if !self.wallets[id].owners.contains(who) {
            Some(Error::NotAnOwner)
        } else if self.wallets[id].proposals.len() >= u32::MAX {
            Some(Error::StorageOverflow)
        } else {
            None
        }
    }

    /// Submitting a proposal: the new state and the new proposal's index.
    pub open spec fn submit(self, who: AccountId, id: MultisigId, call_hash: CallHash) -> Result<
        (State, ProposalIndex),
        Error,
    > {
        match self.submit_error(who, id) {
            Some(e) => Err(e),
            None => {
                let wallet = self.wallets[id];
                Ok(
                    (
                        self.with_wallet(
                            id,
                            WalletState {
                                proposals: wallet.proposals.push(
                                    ProposalState::submitted(who, call_hash),
                                ),
                                ..wallet
                            },
                        ),
                        wallet.proposals.len() as u32,
                    ),
                )
            },
        }
    }

    /// Why approving a proposal is rejected, if it is.
    pub open spec fn confirm_error(
        self,
        who: AccountId,
        id: MultisigId,
        index: ProposalIndex,
    ) -> Option<Error> {
        if !self.wallets.contains_key(id) {
            Some(Error::MultisigNotFound)
        } else if !self.wallets[id].owners.contains(who) {
            Some(Error::NotAnOwner)
        } else if index >= self.wallets[id].proposals.len() {
            Some(Error::ProposalNotFound)
        } else if self.wallets[id].proposals[index as int].proposal.executed {
            Some(Error::AlreadyExecuted)
        } else if self.wallets[id].proposals[index as int].approvals.contains(who) {
            Some(Error::AlreadyConfirmed)
        } else {
            None
        }
    }

    /// Approving a proposal.
    pub open spec fn confirm(self, who: AccountId, id: MultisigId, index: ProposalIndex) -> Result<
        State,
        Error,
    > {
        match self.confirm_error(who, id, index) {
            Some(e) => Err(e),
            None => {
                let wallet = self.wallets[id];
                Ok(
                    self.with_wallet(
                        id,
                        wallet.with_proposal(
                            index as int,
                            wallet.proposals[index as int].approved_by(who),
                        ),
                    ),
                )
            },
        }
    }

    /// Whether the action with digest `call_hash` may be dispatched for the
    /// proposal at `index` of wallet `id`, and if not, why.
    pub open spec fn authorize(
        self,
        id: MultisigId,
        index: ProposalIndex,
        call_hash: CallHash,
    ) -> Result<(), Error> {
        if !self.wallets.contains_key(id) {
            Err(Error::MultisigNotFound)
        } else if index >= self.wallets[id].proposals.len() {
            Err(Error::ProposalNotFound)
        } else if self.wallets[id].proposals[index as int].proposal.executed {
            Err(Error::AlreadyExecuted)
        } else if self.wallets[id].proposals[index as int].proposal.call_hash != call_hash {
            Err(Error::CallHashMismatch)
        } else if self.wallets[id].proposals[index as int].approvals.len()
            < self.wallets[id].threshold {
            Err(Error::NotEnoughApprovals)
        } else {
            Ok(())
        }
    }

    /// Recording that the action of the proposal at `index` of wallet `id` was
    /// dispatched. The proposal is marked as executed where the dispatch
    /// succeeded and the wallet still exists; otherwise nothing changes.
    pub open spec fn conclude(self, id: MultisigId, index: ProposalIndex, succeeded: bool) -> State {
        if succeeded && self.has_proposal(id, index) {
            let wallet = self.wallets[id];
            self.with_wallet(
                id,
                wallet.with_proposal(index as int, wallet.proposals[index as int].finalized()),
            )
        } else {
            self
        }
    }

    /// Why destroying a wallet is rejected, if it is. `sovereign` is the
    /// wallet's own account and `balance` what that account holds.
    pub open spec fn destroy_error(
        self,
        who: AccountId,
        id: MultisigId,
        sovereign: AccountId,
        balance: u128,
    ) -> Option<Error> {
        if who != sovereign {
            Some(Error::MustBeMultisig)
        } else if !self.wallets.contains_key(id) {
            Some(Error::MultisigNotFound)
        } else if balance != 0 {
            Some(Error::NonZeroBalance)
        } else {
            None
        }
    }

    /// Destroying a wallet: the wallet goes, and with it its proposals, their
    /// approvals and its index counter.
    pub open spec fn destroy(
        self,
        who: AccountId,
        id: MultisigId,
        sovereign: AccountId,
        balance: u128,
    ) -> Result<State, Error> {
        match self.destroy_error(who, id, sovereign, balance) {
            Some(e) => Err(e),
            None => Ok(State { wallets: self.wallets.remove(id), ..self }),
        }
    }

    /// The state after `op`: what the operation commits, or the state itself
    /// where the operation is rejected.
    pub open spec fn apply(self, op: Operation) -> State {
        match op {
            Operation::Create { owners, threshold } => match self.create(owners, threshold) {
                Ok(next) => next.0,
                Err(_) => self,
            },
            Operation::Submit { who, id, call_hash } => match self.submit(who, id, call_hash) {
                Ok(next) => next.0,
                Err(_) => self,
            },
            Operation::Confirm { who, id, index } => match self.confirm(who, id, index) {
                Ok(next) => next,
                Err(_) => self,
            },
            Operation::Conclude { id, index, succeeded } => self.conclude(id, index, succeeded),
            Operation::Destroy { who, id, sovereign, balance } => match self.destroy(
                who,
                id,
                sovereign,
                balance,
            ) {
                Ok(next) => next,
                Err(_) => self,
            },
        }
    }

    /// The state after the operations `ops`, made one after the other.
    pub open spec fn apply_all(self, ops: Seq<Operation>) -> State
        decreases ops.len(),
    {
        if ops.len() == 0 {
            self
        } else {
            self.apply_all(ops.drop_last()).apply(ops.last())
        }
    }
}

} // verus!
