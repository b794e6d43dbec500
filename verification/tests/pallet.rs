// The five operations, each against a small runtime that holds the pallet, the
// balances of accounts and a record of remarks, and that dispatches actions.

use multisig::pallet::{Config, Pallet};
use multisig::types::{DispatchError, DispatchResult, Error, Event};
use parity_scale_codec::Encode;
use sp_io::hashing::blake2_256;
use std::collections::BTreeMap;

struct Test;

impl Config for Test {
    fn max_owners() -> u32 {
        10
    }
}

const SYSTEM: u8 = 0;
const MULTISIG: u8 = 2;
const REMARK: u8 = 0;
const REMARK_WITH_EVENT: u8 = 7;
const DESTROY_MULTISIG: u8 = 4;

fn remark(remark: Vec<u8>) -> Vec<u8> {
    (SYSTEM, REMARK, remark).encode()
}

fn remark_with_event(remark: Vec<u8>) -> Vec<u8> {
    (SYSTEM, REMARK_WITH_EVENT, remark).encode()
}

fn destroy_call(multisig_id: u32) -> Vec<u8> {
    (MULTISIG, DESTROY_MULTISIG, multisig_id).encode()
}

struct Runtime {
    multisig: Pallet<Test>,
    balances: BTreeMap<u64, u128>,
    remarked: Vec<(u64, [u8; 32])>,
}

impl Runtime {
    fn new() -> Runtime {
        Runtime { multisig: Pallet::new(), balances: BTreeMap::new(), remarked: Vec::new() }
    }

    fn free_balance(&self, who: u64) -> u128 {
        self.balances.get(&who).copied().unwrap_or(0)
    }

    fn deposit_creating(&mut self, who: u64, amount: u128) {
        *self.balances.entry(who).or_insert(0) += amount;
    }

    fn destroy_multisig(&mut self, who: u64, multisig_id: u32) -> Result<(), Error> {
        let balance = self.free_balance(Pallet::<Test>::multi_account_id(multisig_id));
        self.multisig.destroy_multisig(who, multisig_id, balance)
    }

    fn dispatch(&mut self, call: &[u8], origin: u64) -> DispatchResult {
        match (call[0], call[1]) {
            (SYSTEM, REMARK) => Ok(()),
            (SYSTEM, REMARK_WITH_EVENT) => {
                let remark = <Vec<u8> as parity_scale_codec::Decode>::decode(&mut &call[2..])
                    .map_err(|_| DispatchError::Other(b"undecodable".to_vec()))?;
                self.remarked.push((origin, blake2_256(&remark)));
                Ok(())
            },
            (MULTISIG, DESTROY_MULTISIG) => {
                let multisig_id = <u32 as parity_scale_codec::Decode>::decode(&mut &call[2..])
                    .map_err(|_| DispatchError::Other(b"undecodable".to_vec()))?;
                self.destroy_multisig(origin, multisig_id).map_err(DispatchError::Multisig)
            },
            _ => Err(DispatchError::Other(b"unknown call".to_vec())),
        }
    }

    fn execute_proposal(
        &mut self,
        _who: u64,
        multisig_id: u32,
        proposal_index: u32,
        call: Vec<u8>,
    ) -> Result<(), Error> {
        let order = self.multisig.execute_proposal(multisig_id, proposal_index, &call)?;
        let result = self.dispatch(&call, order.origin());
        self.multisig.conclude_execution(order, result);
        Ok(())
    }

    // All that can be observed of the runtime, to tell whether anything changed.
    fn observed(&self) -> String {
        let mut out = format!(
            "next={} events={:?} balances={:?} remarked={:?}",
            self.multisig.next_multisig_id(),
            self.multisig.events(),
            self.balances,
            self.remarked
        );
        for id in 0..self.multisig.next_multisig_id() + 1 {
            out += &format!(" [{} {:?}", id, self.multisig.multisigs(id));
            for index in 0..self.multisig.next_proposal_index(id) + 1 {
                out += &format!(
                    " ({} {:?} {:?})",
                    index,
                    self.multisig.proposals(id, index),
                    self.multisig.approvals(id, index)
                );
            }
            out += "]";
        }
        out
    }
}

fn assert_noop(runtime: &mut Runtime, act: fn(&mut Runtime) -> Result<(), Error>, expected: Error) {
    let before = runtime.observed();
    assert_eq!(act(runtime), Err(expected));
    assert_eq!(runtime.observed(), before);
}

fn last_event(runtime: &Runtime) -> &Event {
    runtime.multisig.events().last().unwrap()
}

// create_multisig

#[test]
fn it_creates_a_multisig_successfully() {
    let mut runtime = Runtime::new();
    let owners = vec![1, 2, 3];
    let threshold = 2;
    let creator = 1;

    assert!(runtime.multisig.create_multisig(creator, owners.clone(), threshold).is_ok());

    let multisig_id = 0;
    let multisig = runtime.multisig.multisigs(multisig_id).unwrap();
    assert_eq!(multisig.owners.to_vec(), owners);
    assert_eq!(multisig.threshold, threshold);
    assert_eq!(runtime.multisig.next_multisig_id(), 1);
    let multisig_account = Pallet::<Test>::multi_account_id(multisig_id);
    assert_eq!(
        last_event(&runtime),
        &Event::MultisigCreated { creator, multisig_id, multisig_account }
    );
}

#[test]
fn fails_if_threshold_is_zero() {
    let mut runtime = Runtime::new();
    assert_noop(
        &mut runtime,
        |r| r.multisig.create_multisig(1, vec![1, 2, 3], 0).map(|_| ()),
        Error::InvalidThreshold,
    );
}

#[test]
fn fails_if_threshold_is_greater_than_owners() {
    let mut runtime = Runtime::new();
    assert_noop(
        &mut runtime,
        |r| r.multisig.create_multisig(1, vec![1, 2, 3], 4).map(|_| ()),
        Error::InvalidThreshold,
    );
}

#[test]
fn fails_if_too_many_owners() {
    let mut runtime = Runtime::new();
    assert_noop(
        &mut runtime,
        |r| {
            let owners = (1..=11).collect::<Vec<u64>>();
            r.multisig.create_multisig(1, owners, 2).map(|_| ())
        },
        Error::TooManyOwners,
    );
}

// submit_proposal

fn create_test_multisig(runtime: &mut Runtime) -> u32 {
    let owners = vec![1, 2, 3];
    let threshold = 2;
    assert!(runtime.multisig.create_multisig(1, owners, threshold).is_ok());
    0
}

#[test]
fn it_submits_a_proposal_successfully() {
    let mut runtime = Runtime::new();
    let multisig_id = create_test_multisig(&mut runtime);
    let proposer = 1;
    let call = remark(vec![0; 10]);
    let call_hash = blake2_256(&call);

    assert!(runtime.multisig.submit_proposal(proposer, multisig_id, &call).is_ok());

    let proposal_index = 0;
    let proposal = runtime.multisig.proposals(multisig_id, proposal_index).unwrap();
    assert_eq!(proposal.call_hash, call_hash);
    assert!(!proposal.executed);
    let expected_approvals: Vec<u64> = vec![proposer];
    assert_eq!(runtime.multisig.approvals(multisig_id, proposal_index), expected_approvals);
    assert_eq!(runtime.multisig.next_proposal_index(multisig_id), 1);
    assert_eq!(
        last_event(&runtime),
        &Event::ProposalSubmitted { multisig_id, proposal_index, call_hash }
    );
}

#[test]
fn fails_if_multisig_not_found() {
    let mut runtime = Runtime::new();
    assert_noop(
        &mut runtime,
        |r| {
            let non_existent_multisig_id = 99;
            let call = remark(vec![]);
            r.multisig.submit_proposal(1, non_existent_multisig_id, &call).map(|_| ())
        },
        Error::MultisigNotFound,
    );
}

#[test]
fn fails_if_not_an_owner() {
    let mut runtime = Runtime::new();
    create_test_multisig(&mut runtime);
    assert_noop(
        &mut runtime,
        |r| {
            let multisig_id = 0;
            let not_an_owner = 4;
            let call = remark(vec![]);
            r.multisig.submit_proposal(not_an_owner, multisig_id, &call).map(|_| ())
        },
        Error::NotAnOwner,
    );
}

// confirm_proposal

fn setup_multisig_with_proposal(runtime: &mut Runtime) -> (u32, u32) {
    let owners = vec![1, 2, 3];
    let threshold = 2;
    let proposer = 1;
    let call = remark(vec![0; 10]);

    assert!(runtime.multisig.create_multisig(proposer, owners, threshold).is_ok());
    let multisig_id = 0;

    assert!(runtime.multisig.submit_proposal(proposer, multisig_id, &call).is_ok());
    let proposal_index = 0;

    (multisig_id, proposal_index)
}

#[test]
fn it_confirms_a_proposal_successfully() {
    let mut runtime = Runtime::new();
    let (multisig_id, proposal_index) = setup_multisig_with_proposal(&mut runtime);
    let confirmer = 2;

    assert_eq!(runtime.multisig.confirm_proposal(confirmer, multisig_id, proposal_index), Ok(()));

    let expected_approvals: Vec<u64> = vec![1, 2];
    assert_eq!(runtime.multisig.approvals(multisig_id, proposal_index), expected_approvals);
    assert_eq!(
        last_event(&runtime),
        &Event::Confirmation { who: confirmer, multisig_id, proposal_index }
    );
}

#[test]
fn fails_if_already_confirmed() {
    let mut runtime = Runtime::new();
    setup_multisig_with_proposal(&mut runtime);
    assert_noop(
        &mut runtime,
        |r| {
            let proposer = 1;
            r.multisig.confirm_proposal(proposer, 0, 0)
        },
        Error::AlreadyConfirmed,
    );
}

#[test]
fn fails_if_proposal_not_found() {
    let mut runtime = Runtime::new();
    setup_multisig_with_proposal(&mut runtime);
    assert_noop(
        &mut runtime,
        |r| {
            let non_existent_proposal_index = 99;
            r.multisig.confirm_proposal(2, 0, non_existent_proposal_index)
        },
        Error::ProposalNotFound,
    );
}

#[test]
fn fails_if_proposal_already_executed() {
    // The proposal is brought to its executed state by the operations
    // themselves: owner 3 supplies the second approval and the action runs.
    let mut runtime = Runtime::new();
    let (multisig_id, proposal_index) = setup_multisig_with_proposal(&mut runtime);
    assert_eq!(runtime.multisig.confirm_proposal(3, multisig_id, proposal_index), Ok(()));
    assert_eq!(
        runtime.execute_proposal(3, multisig_id, proposal_index, remark(vec![0; 10])),
        Ok(())
    );
    assert!(runtime.multisig.proposals(multisig_id, proposal_index).unwrap().executed);

    assert_noop(&mut runtime, |r| r.multisig.confirm_proposal(2, 0, 0), Error::AlreadyExecuted);
}

// execute_proposal

fn setup_ready_to_execute_proposal(runtime: &mut Runtime) -> (u32, u32, Vec<u8>) {
    let owners = vec![1, 2, 3];
    let threshold = 2;
    let proposer = 1;
    let confirmer = 2;
    let call = remark_with_event(vec![42]);

    assert!(runtime.multisig.create_multisig(proposer, owners, threshold).is_ok());
    let multisig_id = 0;

    assert!(runtime.multisig.submit_proposal(proposer, multisig_id, &call).is_ok());
    let proposal_index = 0;

    assert_eq!(runtime.multisig.confirm_proposal(confirmer, multisig_id, proposal_index), Ok(()));

    (multisig_id, proposal_index, call)
}

#[test]
fn it_executes_a_proposal_successfully() {
    let mut runtime = Runtime::new();
    let (multisig_id, proposal_index, call) = setup_ready_to_execute_proposal(&mut runtime);
    let executor = 4;

    assert_eq!(runtime.execute_proposal(executor, multisig_id, proposal_index, call.clone()), Ok(()));

    let proposal = runtime.multisig.proposals(multisig_id, proposal_index).unwrap();
    assert!(proposal.executed);
    let result: DispatchResult = Ok(());
    assert_eq!(
        last_event(&runtime),
        &Event::ProposalExecuted { multisig_id, proposal_index, result }
    );
    let multisig_account = Pallet::<Test>::multi_account_id(multisig_id);
    let remark_hash = blake2_256(&vec![42]);
    assert!(runtime.remarked.contains(&(multisig_account, remark_hash)));
}

#[test]
fn fails_if_not_enough_approvals() {
    let mut runtime = Runtime::new();
    let owners = vec![1, 2, 3];
    let threshold = 2;
    assert!(runtime.multisig.create_multisig(1, owners, threshold).is_ok());
    let multisig_id = 0;
    let call = remark(vec![]);
    assert!(runtime.multisig.submit_proposal(1, multisig_id, &call).is_ok());

    assert_noop(
        &mut runtime,
        |r| r.execute_proposal(1, 0, 0, remark(vec![])),
        Error::NotEnoughApprovals,
    );
}

#[test]
fn fails_if_call_hash_mismatches() {
    let mut runtime = Runtime::new();
    let (_multisig_id, _proposal_index, _call) = setup_ready_to_execute_proposal(&mut runtime);

    assert_noop(
        &mut runtime,
        |r| {
            let different_call = remark(vec![99]);
            r.execute_proposal(1, 0, 0, different_call)
        },
        Error::CallHashMismatch,
    );
}

// destroy_multisig

#[test]
fn it_destroys_a_multisig_successfully() {
    let mut runtime = Runtime::new();
    let owners = vec![1, 2, 3];
    let threshold = 2;
    assert!(runtime.multisig.create_multisig(1, owners, threshold).is_ok());
    let multisig_id = 0;

    let destroy = destroy_call(multisig_id);
    assert!(runtime.multisig.submit_proposal(1, multisig_id, &destroy).is_ok());
    let proposal_index = 0;
    assert_eq!(runtime.multisig.confirm_proposal(2, multisig_id, proposal_index), Ok(()));
    assert_eq!(runtime.execute_proposal(3, multisig_id, proposal_index, destroy), Ok(()));

    assert!(runtime.multisig.multisigs(multisig_id).is_none());
    assert!(runtime.multisig.proposals(multisig_id, proposal_index).is_none());
    assert!(runtime.multisig.approvals(multisig_id, proposal_index).is_empty());
    assert_eq!(runtime.multisig.next_proposal_index(multisig_id), 0);
    assert!(runtime.multisig.events().contains(&Event::MultisigDestroyed { multisig_id }));
}

#[test]
fn fails_if_origin_is_not_sovereign_account() {
    let mut runtime = Runtime::new();
    let owners = vec![1, 2, 3];
    let threshold = 2;
    assert!(runtime.multisig.create_multisig(1, owners, threshold).is_ok());

    assert_noop(&mut runtime, |r| r.destroy_multisig(1, 0), Error::MustBeMultisig);
    assert!(runtime.multisig.multisigs(0).is_some());
}

#[test]
fn fails_if_balance_is_not_zero() {
    let mut runtime = Runtime::new();
    let owners = vec![1, 2, 3];
    let threshold = 2;
    assert!(runtime.multisig.create_multisig(1, owners, threshold).is_ok());
    let multisig_id = 0;
    let multisig_account = Pallet::<Test>::multi_account_id(multisig_id);
    runtime.deposit_creating(multisig_account, 100);

    let destroy = destroy_call(multisig_id);
    assert!(runtime.multisig.submit_proposal(1, multisig_id, &destroy).is_ok());
    let proposal_index = 0;
    assert_eq!(runtime.multisig.confirm_proposal(2, multisig_id, proposal_index), Ok(()));
    assert_eq!(runtime.execute_proposal(3, multisig_id, proposal_index, destroy), Ok(()));

    let result: DispatchResult = Err(DispatchError::Multisig(Error::NonZeroBalance));
    assert_eq!(
        last_event(&runtime),
        &Event::ProposalExecuted { multisig_id, proposal_index, result }
    );
    assert!(runtime.multisig.multisigs(multisig_id).is_some());
    assert_eq!(runtime.free_balance(multisig_account), 100);
}
