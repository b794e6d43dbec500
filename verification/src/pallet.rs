//! The wallet registry as its callers use it: operations on actions and
//! callers, each committed operation recorded as a notification.

use vstd::prelude::*;
use std::marker::PhantomData;
use crate::address::{derive_account, sovereign_account};
use crate::hashing::{blake2_256_digest, hash_call};
use crate::model::State;
use crate::registry::Registry;
use crate::types::{
    AccountId, CallHash, DispatchResult, Error, Event, Multisig, MultisigId, Proposal,
    ProposalIndex,
};

verus! {

/// What a deployment fixes once and for all.
pub trait Config {
    /// The largest number of owners a wallet may have.
    fn max_owners() -> u32;
}

/// The configuration under which a wallet may have up to `MAX` owners.
pub struct MaxOwners<const MAX: u32>;

impl<const MAX: u32> Config for MaxOwners<MAX> {
    fn max_owners() -> (max: u32)
        ensures
            max == MAX,
    {
        MAX
    }
}

/// Mathematical value of a [`Pallet`].
pub struct PalletState {
    /// The wallets and their proposals.
    pub registry: State,
    /// The notifications of all committed operations, oldest first.
    pub events: Seq<Event>,
}

/// The order to run an approved action: under which account, and for which
/// proposal. Only [`Pallet::execute_proposal`] issues one, and
/// [`Pallet::conclude_execution`] takes it back.
#[derive(Debug, PartialEq, Eq)]
pub struct Dispatch {
    multisig_id: MultisigId,
    proposal_index: ProposalIndex,
    origin: AccountId,
}

/// Mathematical value of a [`Dispatch`].
pub struct DispatchView {
    pub multisig_id: MultisigId,
    pub proposal_index: ProposalIndex,
    pub origin: AccountId,
}

impl View for Dispatch {
    type V = DispatchView;

    closed spec fn view(&self) -> DispatchView {
        DispatchView {
            multisig_id: self.multisig_id,
            proposal_index: self.proposal_index,
            origin: self.origin,
        }
    }
}

impl Dispatch {
    /// The wallet whose action is to run.
    pub fn multisig_id(&self) -> (id: MultisigId)
        ensures
            id == self@.multisig_id,
    {
        self.multisig_id
    }

    /// The proposal whose action is to run.
    pub fn proposal_index(&self) -> (index: ProposalIndex)
        ensures
            index == self@.proposal_index,
    {
        self.proposal_index
    }

    /// The account under which the action is to run.
    pub fn origin(&self) -> (origin: AccountId)
        ensures
            origin == self@.origin,
    {
        self.origin
    }
}

/// Multi-owner wallets under the configuration `T`.
pub struct Pallet<T: Config> {
    registry: Registry,
    events: Vec<Event>,
    config: PhantomData<T>,
}

impl<T: Config> View for Pallet<T> {
    type V = PalletState;

    closed spec fn view(&self) -> PalletState {
        PalletState { registry: self.registry@, events: self.events@ }
    }
}

impl<T: Config> Pallet<T> {
    /// The pallet is well formed when its registry meets the invariant.
    pub open spec fn wf(&self) -> bool {
        self@.registry.inv()
    }

    /// A pallet with no wallet and no notification, whose wallets may have up
    /// to `max_owners` owners.
    pub fn with_max_owners(max_owners: u32) -> (pallet: Self)
        ensures
            pallet.wf(),
            pallet@.registry == State::empty(max_owners),
            pallet@.events == Seq::<Event>::empty(),
    {
        Pallet { registry: Registry::new(max_owners), events: Vec::new(), config: PhantomData }
    }

    /// A pallet with no wallet and no notification, under the bound on owners
    /// that the configuration gives when it is asked here, once.
    pub fn new() -> (pallet: Self)
        ensures
            pallet.wf(),
            pallet@.registry == State::empty(pallet@.registry.max_owners),
            pallet@.events == Seq::<Event>::empty(),
    {
        Self::with_max_owners(T::max_owners())
    }

    /// Derives the account of wallet `seed`: the same account for the same
    /// identifier, whatever the state.
    pub fn multi_account_id(seed: MultisigId) -> (account: AccountId)
        ensures
            account == sovereign_account(seed),
    {
        derive_account(seed)
    }

    /// Creates a wallet on behalf of `who` and returns its identifier and its
    /// account.
    pub fn create_multisig(&mut self, who: AccountId, owners: Vec<AccountId>, threshold: u32) -> (created: Result<(MultisigId, AccountId), Error>)
        requires
            old(self).wf(),
        ensures
            final(self).wf(),
            match created {
                Ok((id, account)) => {
                    &&& old(self)@.registry.create(owners@, threshold) == Ok::<
                        (State, MultisigId),
                        Error,
                    >((final(self)@.registry, id))
                    &&& account == sovereign_account(id)
                    &&& final(self)@.events == old(self)@.events.push(
                        Event::MultisigCreated {
                            creator: who,
                            multisig_id: id,
                            multisig_account: account,
                        },
                    )
                },
                Err(e) => {
                    &&& old(self)@.registry.create(owners@, threshold) == Err::<
                        (State, MultisigId),
                        Error,
                    >(e)
                    &&& final(self)@ == old(self)@
                },
            },
    {
        match self.registry.create(owners, threshold) {
            Ok(id) => {
                let account = derive_account(id);
                self.events.push(
                    Event::MultisigCreated {
                        creator: who,
                        multisig_id: id,
                        multisig_account: account,
                    },
                );
                Ok((id, account))
            },
            Err(e) => Err(e),
        }
    }

    /// Submits the digest of an action to wallet `id` on behalf of owner
    /// `who`, who thereby approves it. Returns the proposal's index.
    pub fn submit_call_hash(&mut self, who: AccountId, id: MultisigId, call_hash: CallHash) -> (submitted: Result<ProposalIndex, Error>)
        requires
            old(self).wf(),
        ensures
            final(self).wf(),
            match submitted {
                Ok(index) => {
                    &&& old(self)@.registry.submit(who, id, call_hash) == Ok::<
                        (State, ProposalIndex),
                        Error,
                    >((final(self)@.registry, index))
                    &&& final(self)@.events == old(self)@.events.push(
                        Event::ProposalSubmitted {
                            multisig_id: id,
                            proposal_index: index,
                            call_hash,
                        },
                    )
                },
                Err(e) => {
                    &&& old(self)@.registry.submit(who, id, call_hash) == Err::<
                        (State, ProposalIndex),
                        Error,
                    >(e)
                    &&& final(self)@ == old(self)@
                },
            },
    {
        match self.registry.submit(who, id, call_hash) {
            Ok(index) => {
                self.events.push(
                    Event::ProposalSubmitted { multisig_id: id, proposal_index: index, call_hash },
                );
                Ok(index)
            },
            Err(e) => Err(e),
        }
    }

    /// Submits the action `call`, given in its encoded form, to wallet `id` on
    /// behalf of owner `who`. Only the digest of `call` is kept.
    pub fn submit_proposal(&mut self, who: AccountId, id: MultisigId, call: &[u8]) -> (submitted:
        Result<ProposalIndex, Error>)
        requires
            old(self).wf(),
        ensures
            final(self).wf(),
            match submitted {
                Ok(index) => {
                    &&& old(self)@.registry.submit(who, id, blake2_256_digest(call@)) == Ok::<
                        (State, ProposalIndex),
                        Error,
                    >((final(self)@.registry, index))
                    &&& final(self)@.events == old(self)@.events.push(
                        Event::ProposalSubmitted {
                            multisig_id: id,
                            proposal_index: index,
                            call_hash: blake2_256_digest(call@),
                        },
                    )
                },
                Err(e) => {
                    &&& old(self)@.registry.submit(who, id, blake2_256_digest(call@)) == Err::<
                        (State, ProposalIndex),
                        Error,
                    >(e)
                    &&& final(self)@ == old(self)@
                },
            },
    {
        let call_hash = hash_call(call);
        self.submit_call_hash(who, id, call_hash)
    }

    /// Records the approval of owner `who` for the proposal at `index` of
    /// wallet `id`.
    pub fn confirm_proposal(&mut self, who: AccountId, id: MultisigId, index: ProposalIndex) -> (confirmed: Result<(), Error>)
        requires
            old(self).wf(),
        ensures
            final(self).wf(),
            match confirmed {
                Ok(()) => {
                    &&& old(self)@.registry.confirm(who, id, index) == Ok::<State, Error>(
                        final(self)@.registry,
                    )
                    &&& final(self)@.events == old(self)@.events.push(
                        Event::Confirmation { who, multisig_id: id, proposal_index: index },
                    )
                },
                Err(e) => {
                    &&& old(self)@.registry.confirm(who, id, index) == Err::<State, Error>(e)
                    &&& final(self)@ == old(self)@
                },
            },
    {
        match self.registry.confirm(who, id, index) {
            Ok(()) => {
                self.events.push(
                    Event::Confirmation { who, multisig_id: id, proposal_index: index },
                );
                Ok(())
            },
            Err(e) => Err(e),
        }
    }

    /// Checks that the revealed action `call` is the one that the owners of
    /// wallet `id` approved at `index`, and orders its dispatch under the
    /// wallet's account. Nothing changes until the outcome is handed to
    /// [`Pallet::conclude_execution`].
    pub fn execute_proposal(&self, id: MultisigId, index: ProposalIndex, call: &[u8]) -> (order:
        Result<Dispatch, Error>)
        requires
            self.wf(),
        ensures
            match order {
                Ok(dispatch) => {
                    &&& self@.registry.authorize(id, index, blake2_256_digest(call@)) is Ok
                    &&& dispatch@ == DispatchView {
                        multisig_id: id,
                        proposal_index: index,
                        origin: sovereign_account(id),
                    }
                },
                Err(e) => self@.registry.authorize(id, index, blake2_256_digest(call@)) == Err::<
                    (),
                    Error,
                >(e),
            },
    {
        let call_hash = hash_call(call);
        match self.registry.authorize(id, index, &call_hash) {
            Ok(()) => Ok(
                Dispatch { multisig_id: id, proposal_index: index, origin: derive_account(id) },
            ),
            Err(e) => Err(e),
        }
    }

    /// Takes note of what the dispatch ordered by `dispatch` came to. The
    /// proposal is marked as executed where the dispatch succeeded and the
    /// wallet still exists; a failed dispatch leaves it open for another
    /// attempt. The outcome is recorded in either case.
    pub fn conclude_execution(&mut self, dispatch: Dispatch, result: DispatchResult)
        requires
            old(self).wf(),
        ensures
            final(self).wf(),
            final(self)@.registry == old(self)@.registry.conclude(
                dispatch@.multisig_id,
                dispatch@.proposal_index,
                result is Ok,
            ),
            final(self)@.events == old(self)@.events.push(
                Event::ProposalExecuted {
                    multisig_id: dispatch@.multisig_id,
                    proposal_index: dispatch@.proposal_index,
                    result,
                },
            ),
    {
        self.registry.conclude(dispatch.multisig_id, dispatch.proposal_index, result.is_ok());
        self.events.push(
            Event::ProposalExecuted {
                multisig_id: dispatch.multisig_id,
                proposal_index: dispatch.proposal_index,
                result,
            },
        );
    }

    /// Removes wallet `id` and all that is kept for it. Only the wallet's own
    /// account may ask for this, and only while that account holds nothing;
    /// `balance` is what it holds.
    pub fn destroy_multisig(&mut self, who: AccountId, id: MultisigId, balance: u128) -> (destroyed:
        Result<(), Error>)
        requires
            old(self).wf(),
        ensures
            final(self).wf(),
            match destroyed {
                Ok(()) => {
                    &&& old(self)@.registry.destroy(who, id, sovereign_account(id), balance)
                        == Ok::<State, Error>(final(self)@.registry)
                    &&& final(self)@.events == old(self)@.events.push(
                        Event::MultisigDestroyed { multisig_id: id },
                    )
                },
                Err(e) => {
                    &&& old(self)@.registry.destroy(who, id, sovereign_account(id), balance)
                        == Err::<State, Error>(e)
                    &&& final(self)@ == old(self)@
                },
            },
    {
        let sovereign = derive_account(id);
        match self.registry.destroy(who, id, sovereign, balance) {
            Ok(()) => {
                self.events.push(Event::MultisigDestroyed { multisig_id: id });
                Ok(())
            },
            Err(e) => Err(e),
        }
    }

    /// The largest number of owners a wallet may have.
    pub fn max_owners(&self) -> (max: u32)
        ensures
            max == self@.registry.max_owners,
    {
        self.registry.max_owners()
    }

    /// The identifier that the next wallet will get.
    pub fn next_multisig_id(&self) -> (next: MultisigId)
        ensures
            next == self@.registry.next_multisig_id,
    {
        self.registry.next_multisig_id()
    }

    /// The configuration of wallet `id`, if it exists.
    pub fn multisigs(&self, id: MultisigId) -> (found: Option<Multisig>)
        ensures
            match found {
                Some(m) => self@.registry.wallets.contains_key(id) && m@.owners
                    == self@.registry.wallets[id].owners && m.threshold
                    == self@.registry.wallets[id].threshold,
                None => !self@.registry.wallets.contains_key(id),
            },
    {
        self.registry.multisig(id)
    }

    /// The proposal at `index` of wallet `id`, if there is one.
    pub fn proposals(&self, id: MultisigId, index: ProposalIndex) -> (found: Option<Proposal>)
        ensures
            found == self@.registry.proposal(id, index),
    {
        self.registry.proposal(id, index)
    }

    /// The approvals of the proposal at `index` of wallet `id`, in the order in
    /// which they were given; empty where there is no such proposal.
    pub fn approvals(&self, id: MultisigId, index: ProposalIndex) -> (list: Vec<AccountId>)
        ensures
            list@ == self@.registry.approvals(id, index),
    {
        self.registry.approvals(id, index)
    }

    /// The index that the next proposal of wallet `id` will get; zero where
    /// there is no such wallet.
    pub fn next_proposal_index(&self, id: MultisigId) -> (next: ProposalIndex)
        requires
            self.wf(),
        ensures
            next == self@.registry.next_proposal_index(id),
    {
        self.registry.next_proposal_index(id)
    }

    /// The notifications recorded so far, oldest first.
    pub fn events(&self) -> (events: &Vec<Event>)
        ensures
            events@ == self@.events,
    {
        &self.events
    }

    /// Hands out the notifications recorded so far, oldest first, and starts
    /// the record afresh.
    pub fn take_events(&mut self) -> (events: Vec<Event>)
        ensures
            events@ == old(self)@.events,
            final(self)@.events == Seq::<Event>::empty(),
            final(self)@.registry == old(self)@.registry,
    {
        let mut events: Vec<Event> = Vec::new();
        std::mem::swap(&mut self.events, &mut events);
        events
    }
}

} // verus!
