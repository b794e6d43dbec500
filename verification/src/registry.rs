//! The registry of wallets and their proposals, over plain values.
//!
//! Every operation either commits in full or is rejected and changes nothing.

use vstd::prelude::*;
use std::collections::BTreeMap;
use crate::laws::law_apply_keeps_inv;
use crate::model::{Operation, ProposalState, State, WalletState};
use crate::types::{AccountId, CallHash, Error, Multisig, MultisigId, Proposal, ProposalIndex};
use crate::hashing::same_hash;

verus! {

/// A proposal and the owners who approved it.
struct ProposalRecord {
    proposal: Proposal,
    approvals: Vec<AccountId>,
}

impl View for ProposalRecord {
    type V = ProposalState;

    closed spec fn view(&self) -> ProposalState {
        ProposalState { proposal: self.proposal, approvals: self.approvals@ }
    }
}

/// A wallet and all that is kept for it.
struct Wallet {
    config: Multisig,
    proposals: Vec<ProposalRecord>,
}

impl View for Wallet {
    type V = WalletState;

    closed spec fn view(&self) -> WalletState {
        WalletState {
            owners: self.config.owners@,
            threshold: self.config.threshold,
            proposals: self.proposals@.map_values(|p: ProposalRecord| p@),
        }
    }
}

/// The wallets that exist, the proposals submitted to each, and the counter
/// that identifiers come from.
pub struct Registry {
    max_owners: u32,
    next_multisig_id: MultisigId,
    wallets: BTreeMap<MultisigId, Wallet>,
}

impl View for Registry {
    type V = State;

    closed spec fn view(&self) -> State {
        State {
            max_owners: self.max_owners,
            next_multisig_id: self.next_multisig_id,
            wallets: self.wallets@.map_values(|w: Wallet| w@),
        }
    }
}

/// Tells whether `who` occurs in `accounts`.
pub fn contains_account(accounts: &Vec<AccountId>, who: AccountId) -> (found: bool)
    ensures
        found == accounts@.contains(who),
{
    let mut i: usize = 0;
    while i < accounts.len()
        invariant
            i <= accounts.len(),
            forall|j: int| 0 <= j < i ==> accounts@[j] != who,
        decreases accounts.len() - i,
    {
        if accounts[i] == who {
            return true;
        }
        i += 1;
    }
    false
}

/// Copies a list of accounts.
pub fn copy_accounts(accounts: &Vec<AccountId>) -> (copy: Vec<AccountId>)
    ensures
        copy@ == accounts@,
{
    let mut copy: Vec<AccountId> = Vec::new();
    let mut i: usize = 0;
    while i < accounts.len()
        invariant
            i <= accounts.len(),
            copy@ == accounts@.take(i as int),
        decreases accounts.len() - i,
    {
        copy.push(accounts[i]);
        assert(accounts@.take(i + 1) =~= accounts@.take(i as int).push(accounts@[i as int]));
        i += 1;
    }
    assert(accounts@.take(accounts.len() as int) =~= accounts@);
    copy
}

impl Registry {
    /// The registry is well formed when its state meets the invariant.
    pub open spec fn wf(&self) -> bool {
        self@.inv()
    }

    /// An empty registry whose wallets may have up to `max_owners` owners.
    pub fn new(max_owners: u32) -> (registry: Registry)
        ensures
            registry.wf(),
            registry@ == State::empty(max_owners),
    {
        let registry = Registry { max_owners, next_multisig_id: 0, wallets: BTreeMap::new() };
        assert(registry@.wallets =~= Map::<MultisigId, WalletState>::empty());
        registry
    }

    /// An empty registry that hands out identifiers from `first_id` on, as
    /// when the identifiers below it were in use before.
    pub fn starting_at(max_owners: u32, first_id: MultisigId) -> (registry: Registry)
        ensures
            registry.wf(),
            registry@ == (State { next_multisig_id: first_id, ..State::empty(max_owners) }),
    {
        let registry = Registry {
            max_owners,
            next_multisig_id: first_id,
            wallets: BTreeMap::new(),
        };
        assert(registry@.wallets =~= Map::<MultisigId, WalletState>::empty());
        registry
    }

    /// The largest number of owners a wallet may have.
    pub fn max_owners(&self) -> (max: u32)
        ensures
            max == self@.max_owners,
    {
        self.max_owners
    }

    /// The identifier that the next wallet will get.
    pub fn next_multisig_id(&self) -> (next: MultisigId)
        ensures
            next == self@.next_multisig_id,
    {
        self.next_multisig_id
    }

    /// Tells whether wallet `id` exists.
    pub fn contains(&self, id: MultisigId) -> (found: bool)
        ensures
            found == self@.wallets.contains_key(id),
    {
        self.wallets.get(&id).is_some()
    }

    /// The configuration of wallet `id`, if it exists.
    pub fn multisig(&self, id: MultisigId) -> (found: Option<Multisig>)
        ensures
            match found {
                Some(m) => self@.wallets.contains_key(id) && m@.owners == self@.wallets[id].owners
                    && m.threshold == self@.wallets[id].threshold,
                None => !self@.wallets.contains_key(id),
            },
    {
        match self.wallets.get(&id) {
            Some(wallet) => Some(
                Multisig {
                    owners: copy_accounts(&wallet.config.owners),
                    threshold: wallet.config.threshold,
                },
            ),
            None => None,
        }
    }

    /// The proposal at `index` of wallet `id`, if there is one.
    pub fn proposal(&self, id: MultisigId, index: ProposalIndex) -> (found: Option<Proposal>)
        ensures
            found == self@.proposal(id, index),
    {
        match self.wallets.get(&id) {
            Some(wallet) => {
                if (index as usize) < wallet.proposals.len() {
                    Some(wallet.proposals[index as usize].proposal)
                } else {
                    None
                }
            },
            None => None,
        }
    }

    /// The approvals of the proposal at `index` of wallet `id`, in the order in
    /// which they were given; empty where there is no such proposal.
    pub fn approvals(&self, id: MultisigId, index: ProposalIndex) -> (list: Vec<AccountId>)
        ensures
            list@ == self@.approvals(id, index),
    {
        match self.wallets.get(&id) {
            Some(wallet) => {
                if (index as usize) < wallet.proposals.len() {
                    copy_accounts(&wallet.proposals[index as usize].approvals)
                } else {
                    Vec::new()
                }
            },
            None => Vec::new(),
        }
    }

    /// The index that the next proposal of wallet `id` will get; zero where
    /// there is no such wallet.
    pub fn next_proposal_index(&self, id: MultisigId) -> (next: ProposalIndex)
        requires
            self.wf(),
        ensures
            next == self@.next_proposal_index(id),
    {
        match self.wallets.get(&id) {
            Some(wallet) => wallet.proposals.len() as u32,
            None => 0,
        }
    }

    /// Creates a wallet and returns its identifier.
    pub fn create(&mut self, owners: Vec<AccountId>, threshold: u32) -> (created: Result<
        MultisigId,
        Error,
    >)
        requires
            old(self).wf(),
        ensures
            final(self).wf(),
            match created {
                Ok(id) => old(self)@.create(owners@, threshold) == Ok::<(State, MultisigId), Error>(
                    (final(self)@, id),
                ),
                Err(e) => old(self)@.create(owners@, threshold) == Err::<(State, MultisigId), Error>(
                    e,
                ) && final(self)@ == old(self)@,
            },
    {
        if owners.len() > self.max_owners as usize {
            return Err(Error::TooManyOwners);
        }
        if threshold == 0 || threshold as usize > owners.len() {
            return Err(Error::InvalidThreshold);
        }
        let id = self.next_multisig_id;
        if id == u32::MAX {
            return Err(Error::StorageOverflow);
        }
        proof {
            law_apply_keeps_inv(self@, Operation::Create { owners: owners@, threshold });
        }
        let ghost expected = old(self)@.create(owners@, threshold)->Ok_0.0;
        self.next_multisig_id = id + 1;
        let wallet = Wallet { config: Multisig { owners, threshold }, proposals: Vec::new() };
        assert(wallet@.proposals =~= Seq::<ProposalState>::empty());
        self.wallets.insert(id, wallet);
        assert(self@.wallets =~= expected.wallets);
        Ok(id)
    }

    /// Submits the digest of an action to wallet `id` on behalf of owner
    /// `who`, who thereby approves it. Returns the proposal's index.
    pub fn submit(&mut self, who: AccountId, id: MultisigId, call_hash: CallHash) -> (submitted:
        Result<ProposalIndex, Error>)
        requires
            old(self).wf(),
        ensures
            final(self).wf(),
            match submitted {
                Ok(index) => old(self)@.submit(who, id, call_hash) == Ok::<
                    (State, ProposalIndex),
                    Error,
                >((final(self)@, index)),
                Err(e) => old(self)@.submit(who, id, call_hash) == Err::<
                    (State, ProposalIndex),
                    Error,
                >(e) && final(self)@ == old(self)@,
            },
    {
        match self.wallets.get(&id) {
            None => {
                return Err(Error::MultisigNotFound);
            },
            Some(wallet) => {
                if !contains_account(&wallet.config.owners, who) {
                    return Err(Error::NotAnOwner);
                }
                if wallet.proposals.len() >= u32::MAX as usize {
                    return Err(Error::StorageOverflow);
                }
            },
        }
        proof {
            law_apply_keeps_inv(self@, Operation::Submit { who, id, call_hash });
        }
        let ghost expected = old(self)@.submit(who, id, call_hash)->Ok_0.0;
        match self.wallets.remove(&id) {
            Some(wallet) => {
                let mut wallet = wallet;
                let index = wallet.proposals.len() as u32;
                let mut approvals: Vec<AccountId> = Vec::new();
                approvals.push(who);
                let record = ProposalRecord {
                    proposal: Proposal { call_hash, executed: false },
                    approvals,
                };
                assert(record@.approvals =~= seq![who]);
                wallet.proposals.push(record);
                assert(wallet@.proposals =~= old(self)@.wallets[id].proposals.push(
                    ProposalState::submitted(who, call_hash),
                ));
                self.wallets.insert(id, wallet);
                assert(self@.wallets =~= expected.wallets);
                Ok(index)
            },
            None => Err(Error::MultisigNotFound),
        }
    }

    /// Records the approval of owner `who` for the proposal at `index` of
    /// wallet `id`.
    pub fn confirm(&mut self, who: AccountId, id: MultisigId, index: ProposalIndex) -> (confirmed:
        Result<(), Error>)
        requires
            old(self).wf(),
        ensures
            final(self).wf(),
            match confirmed {
                Ok(()) => old(self)@.confirm(who, id, index) == Ok::<State, Error>(final(self)@),
                Err(e) => old(self)@.confirm(who, id, index) == Err::<State, Error>(e)
                    && final(self)@ == old(self)@,
            },
    {
        match self.wallets.get(&id) {
            None => {
                return Err(Error::MultisigNotFound);
            },
            Some(wallet) => {
                if !contains_account(&wallet.config.owners, who) {
                    return Err(Error::NotAnOwner);
                }
                if index as usize >= wallet.proposals.len() {
                    return Err(Error::ProposalNotFound);
                }
                let record = &wallet.proposals[index as usize];
                if record.proposal.executed {
                    return Err(Error::AlreadyExecuted);
                }
                if contains_account(&record.approvals, who) {
                    return Err(Error::AlreadyConfirmed);
                }
            },
        }
        proof {
            law_apply_keeps_inv(self@, Operation::Confirm { who, id, index });
        }
        let ghost expected = old(self)@.confirm(who, id, index)->Ok_0;
        match self.wallets.remove(&id) {
            Some(wallet) => {
                let mut wallet = wallet;
                let ghost before = wallet@;
                wallet.proposals[index as usize].approvals.push(who);
                assert(wallet@.proposals =~= before.proposals.update(
                    index as int,
                    before.proposals[index as int].approved_by(who),
                ));
                self.wallets.insert(id, wallet);
                assert(self@.wallets =~= expected.wallets);
                Ok(())
            },
            None => Err(Error::MultisigNotFound),
        }
    }

    /// Decides whether the action with digest `call_hash` may now be
    /// dispatched for the proposal at `index` of wallet `id`.
    pub fn authorize(&self, id: MultisigId, index: ProposalIndex, call_hash: &CallHash) -> (allowed:
        Result<(), Error>)
        requires
            self.wf(),
        ensures
            allowed == self@.authorize(id, index, *call_hash),
    {
        match self.wallets.get(&id) {
            None => Err(Error::MultisigNotFound),
            Some(wallet) => {
                if index as usize >= wallet.proposals.len() {
                    return Err(Error::ProposalNotFound);
                }
                let record = &wallet.proposals[index as usize];
                if record.proposal.executed {
                    return Err(Error::AlreadyExecuted);
                }
                if !same_hash(&record.proposal.call_hash, call_hash) {
                    return Err(Error::CallHashMismatch);
                }
                if record.approvals.len() < wallet.config.threshold as usize {
                    return Err(Error::NotEnoughApprovals);
                }
                Ok(())
            },
        }
    }

    /// Records what the dispatch of the action of the proposal at `index` of
    /// wallet `id` came to.
    pub fn conclude(&mut self, id: MultisigId, index: ProposalIndex, succeeded: bool)
        requires
            old(self).wf(),
        ensures
            final(self).wf(),
            final(self)@ == old(self)@.conclude(id, index, succeeded),
    {
        if !succeeded {
            return;
        }
        match self.wallets.get(&id) {
            None => {
                return;
            },
            Some(wallet) => {
                if index as usize >= wallet.proposals.len() {
                    return;
                }
            },
        }
        proof {
            law_apply_keeps_inv(self@, Operation::Conclude { id, index, succeeded });
        }
        let ghost expected = old(self)@.conclude(id, index, succeeded);
        match self.wallets.remove(&id) {
            Some(wallet) => {
                let mut wallet = wallet;
                let ghost before = wallet@;
                wallet.proposals[index as usize].proposal.executed = true;
                assert(wallet@.proposals =~= before.proposals.update(
                    index as int,
                    before.proposals[index as int].finalized(),
                ));
                self.wallets.insert(id, wallet);
                assert(self@.wallets =~= expected.wallets);
            },
            None => {},
        }
    }

    /// Removes wallet `id` and all that is kept for it, at the request of
    /// `who`. `sovereign` is the wallet's own account and `balance` what that
    /// account holds.
    pub fn destroy(
        &mut self,
        who: AccountId,
        id: MultisigId,
        sovereign: AccountId,
        balance: u128,
    ) -> (destroyed: Result<(), Error>)
        requires
            old(self).wf(),
        ensures
            final(self).wf(),
            match destroyed {
                Ok(()) => old(self)@.destroy(who, id, sovereign, balance) == Ok::<State, Error>(
                    final(self)@,
                ),
                Err(e) => old(self)@.destroy(who, id, sovereign, balance) == Err::<State, Error>(e)
                    && final(self)@ == old(self)@,
            },
    {
        if who != sovereign {
            return Err(Error::MustBeMultisig);
        }
        if self.wallets.get(&id).is_none() {
            return Err(Error::MultisigNotFound);
        }
        if balance != 0 {
            return Err(Error::NonZeroBalance);
        }
        proof {
            law_apply_keeps_inv(self@, Operation::Destroy { who, id, sovereign, balance });
        }
        let ghost expected = old(self)@.destroy(who, id, sovereign, balance)->Ok_0;
        self.wallets.remove(&id);
        assert(self@.wallets =~= expected.wallets);
        Ok(())
    }
}

} // verus!
