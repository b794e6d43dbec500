//! What holds of the registry's operations, whatever the state and the inputs.

use vstd::prelude::*;
use crate::address::sovereign_account;
use crate::model::{Operation, State, WalletState};
use crate::types::{AccountId, CallHash, Error, MultisigId, Proposal, ProposalIndex};

verus! {

/// A list without repetition whose members all occur in another list is no
/// longer than that list.
pub proof fn lemma_distinct_members_bounded(part: Seq<AccountId>, whole: Seq<AccountId>)
    requires
        part.no_duplicates(),
        forall|k: int| 0 <= k < part.len() ==> whole.contains(#[trigger] part[k]),
    ensures
        part.len() <= whole.len(),
{
    part.unique_seq_to_set();
    whole.lemma_cardinality_of_set();
    assert(part.to_set().subset_of(whole.to_set())) by {
        assert forall|a: AccountId| part.to_set().contains(a) implies whole.to_set().contains(a) by {
            let k = choose|k: int| 0 <= k < part.len() && part[k] == a;
            assert(whole.contains(part[k]));
        }
    }
    vstd::set_lib::lemma_len_subset(part.to_set(), whole.to_set());
}

/// The approvals of a proposal never outnumber the owners of its wallet, nor
/// the bound on owners.
pub proof fn law_approvals_within_owners(s: State, id: MultisigId, index: ProposalIndex)
    requires
        s.inv(),
        s.has_proposal(id, index),
    ensures
        s.approvals(id, index).len() <= s.wallets[id].owners.len(),
        s.approvals(id, index).len() <= s.max_owners,
        s.approvals(id, index).no_duplicates(),
{
    let wallet = s.wallets[id];
    assert(wallet.proposals[index as int].inv(wallet.owners));
    lemma_distinct_members_bounded(s.approvals(id, index), wallet.owners);
}

/// Every wallet that exists has a threshold between one and the number of
/// its owners, and no more owners than the bound.
pub proof fn law_threshold_within_owners(s: State, id: MultisigId)
    requires
        s.inv(),
        s.wallets.contains_key(id),
    ensures
        1 <= s.wallets[id].threshold <= s.wallets[id].owners.len() <= s.max_owners,
{
}

/// Every operation keeps the invariant.
pub proof fn law_apply_keeps_inv(s: State, op: Operation)
    requires
        s.inv(),
    ensures
        s.apply(op).inv(),
{
}

/// The counter of identifiers never goes back, and the bound on owners never
/// changes.
pub proof fn law_counter_never_goes_back(s: State, op: Operation)
    ensures
        s.apply(op).next_multisig_id >= s.next_multisig_id,
        s.apply(op).max_owners == s.max_owners,
{
}

/// An identifier that was handed out and whose wallet is gone is never in
/// use again.
pub proof fn law_identifiers_are_not_reused(s: State, op: Operation, id: MultisigId)
    requires
        s.inv(),
        id < s.next_multisig_id,
        !s.wallets.contains_key(id),
    ensures
        !s.apply(op).wallets.contains_key(id),
{
}

/// A wallet's owners and threshold stay as they were created, for as long as
/// the wallet exists.
pub proof fn law_wallets_are_immutable(s: State, op: Operation, id: MultisigId)
    requires
        s.inv(),
        s.wallets.contains_key(id),
        s.apply(op).wallets.contains_key(id),
    ensures
        s.apply(op).wallets[id].owners == s.wallets[id].owners,
        s.apply(op).wallets[id].threshold == s.wallets[id].threshold,
{
}

/// For as long as its wallet exists, a proposal stays where it is, keeps its
/// digest and its approvals in their order, and once executed stays executed.
pub proof fn law_proposals_persist(s: State, op: Operation, id: MultisigId, index: ProposalIndex)
    requires
        s.inv(),
        s.has_proposal(id, index),
        s.apply(op).wallets.contains_key(id),
    ensures
        s.apply(op).has_proposal(id, index),
        s.apply(op).proposal(id, index)->0.call_hash == s.proposal(id, index)->0.call_hash,
        s.proposal(id, index)->0.executed ==> s.apply(op).proposal(id, index)->0.executed,
        s.approvals(id, index).is_prefix_of(s.apply(op).approvals(id, index)),
{
}

/// Only recording a successful dispatch marks a proposal as executed.
pub proof fn law_only_execution_finalizes(
    s: State,
    op: Operation,
    id: MultisigId,
    index: ProposalIndex,
)
    requires
        s.inv(),
        s.has_proposal(id, index),
        !s.proposal(id, index)->0.executed,
        s.apply(op).has_proposal(id, index),
        s.apply(op).proposal(id, index)->0.executed,
    ensures
        op == (Operation::Conclude { id, index, succeeded: true }),
{
}

/// Any run of operations keeps the invariant, never takes the counter of
/// identifiers back, and leaves the bound on owners alone.
pub proof fn law_run_keeps_inv(s: State, ops: Seq<Operation>)
    requires
        s.inv(),
    ensures
        s.apply_all(ops).inv(),
        s.apply_all(ops).next_multisig_id >= s.next_multisig_id,
        s.apply_all(ops).max_owners == s.max_owners,
    decreases ops.len(),
{
    if ops.len() > 0 {
        law_run_keeps_inv(s, ops.drop_last());
        law_apply_keeps_inv(s.apply_all(ops.drop_last()), ops.last());
        law_counter_never_goes_back(s.apply_all(ops.drop_last()), ops.last());
    }
}

/// A wallet that exists before and after a run of operations existed all
/// along, unchanged, and so did each of its proposals: at the same index, with
/// the same digest, with the approvals it had still in front, and executed if
/// it was.
pub proof fn law_run_keeps_proposals(
    s: State,
    ops: Seq<Operation>,
    id: MultisigId,
    index: ProposalIndex,
)
    requires
        s.inv(),
        s.has_proposal(id, index),
        s.apply_all(ops).wallets.contains_key(id),
    ensures
        s.apply_all(ops).wallets[id].owners == s.wallets[id].owners,
        s.apply_all(ops).wallets[id].threshold == s.wallets[id].threshold,
        s.apply_all(ops).has_proposal(id, index),
        s.apply_all(ops).proposal(id, index)->0.call_hash == s.proposal(id, index)->0.call_hash,
        s.proposal(id, index)->0.executed ==> s.apply_all(ops).proposal(id, index)->0.executed,
        s.approvals(id, index).is_prefix_of(s.apply_all(ops).approvals(id, index)),
    decreases ops.len(),
{
    if ops.len() > 0 {
        let before = s.apply_all(ops.drop_last());
        law_run_keeps_inv(s, ops.drop_last());
        if !before.wallets.contains_key(id) {
            law_identifiers_are_not_reused(before, ops.last(), id);
        }
        law_run_keeps_proposals(s, ops.drop_last(), id, index);
        law_wallets_are_immutable(before, ops.last(), id);
        law_proposals_persist(before, ops.last(), id, index);
    }
}

/// Whatever a dispatched action did to the registry, if its wallet is still
/// there when its success is recorded, so is the proposal, and it is marked
/// as executed with the digest that was approved.
pub proof fn law_success_is_recorded(
    s: State,
    ops: Seq<Operation>,
    id: MultisigId,
    index: ProposalIndex,
    call_hash: CallHash,
)
    requires
        s.inv(),
        s.authorize(id, index, call_hash) is Ok,
        s.apply_all(ops).wallets.contains_key(id),
    ensures
        s.apply_all(ops).conclude(id, index, true).proposal(id, index) == Some(
            Proposal { call_hash, executed: true },
        ),
{
    law_run_keeps_proposals(s, ops, id, index);
}

/// An action may be dispatched only when as many distinct owners of the
/// wallet as its threshold asks for have approved it.
pub proof fn law_execution_has_quorum(
    s: State,
    id: MultisigId,
    index: ProposalIndex,
    call_hash: CallHash,
)
    requires
        s.inv(),
        s.authorize(id, index, call_hash) is Ok,
    ensures
        s.approvals(id, index).len() >= s.wallets[id].threshold >= 1,
        s.approvals(id, index).no_duplicates(),
        forall|k: int|
            0 <= k < s.approvals(id, index).len() ==> s.wallets[id].owners.contains(
                #[trigger] s.approvals(id, index)[k],
            ),
{
    let wallet = s.wallets[id];
    assert(wallet.proposals[index as int].inv(wallet.owners));
}

/// Deriving a wallet's account depends on the identifier alone.
pub proof fn law_derivation_is_deterministic(a: MultisigId, b: MultisigId)
    requires
        a == b,
    ensures
        sovereign_account(a) == sovereign_account(b),
{
}

/// With a threshold between one and the number of owners, no more owners than
/// the bound, and the counter not exhausted, creation succeeds: the wallet
/// gets an identifier that no wallet has and none ever had, it is stored as
/// given with no proposal, and every other wallet is as before.
pub proof fn law_create_succeeds(s: State, owners: Seq<AccountId>, threshold: u32)
    requires
        s.inv(),
        1 <= threshold <= owners.len() <= s.max_owners,
        s.next_multisig_id < u32::MAX,
    ensures
        s.create(owners, threshold) matches Ok(next) && {
            &&& next.1 == s.next_multisig_id
            &&& !s.wallets.contains_key(next.1)
            &&& next.0.next_multisig_id == next.1 + 1
            &&& next.0.wallets == s.wallets.insert(next.1, WalletState::created(owners, threshold))
            &&& next.0.next_proposal_index(next.1) == 0
            &&& next.0.inv()
        },
{
}

/// Creation is rejected with `InvalidThreshold` when the threshold is zero or
/// exceeds the number of owners, and the owners are within the bound.
pub proof fn law_create_rejects_bad_threshold(s: State, owners: Seq<AccountId>, threshold: u32)
    requires
        owners.len() <= s.max_owners,
        threshold == 0 || threshold > owners.len(),
    ensures
        s.create(owners, threshold) == Err::<(State, MultisigId), Error>(Error::InvalidThreshold),
        s.apply(Operation::Create { owners, threshold }) == s,
{
}

/// Creation is rejected with `TooManyOwners` when there are more owners than
/// the bound, whatever the threshold.
pub proof fn law_create_rejects_too_many_owners(s: State, owners: Seq<AccountId>, threshold: u32)
    requires
        owners.len() > s.max_owners,
    ensures
        s.create(owners, threshold) == Err::<(State, MultisigId), Error>(Error::TooManyOwners),
        s.apply(Operation::Create { owners, threshold }) == s,
{
}

/// Submission to an existing wallet is rejected with `NotAnOwner` for a
/// caller who is not one of its owners.
pub proof fn law_submit_rejects_non_owner(
    s: State,
    who: AccountId,
    id: MultisigId,
    call_hash: CallHash,
)
    requires
        s.wallets.contains_key(id),
        !s.wallets[id].owners.contains(who),
    ensures
        s.submit(who, id, call_hash) == Err::<(State, ProposalIndex), Error>(Error::NotAnOwner),
{
}

/// Submission by an owner succeeds while the wallet's counter is not
/// exhausted: the proposal gets the next index, is not executed, carries the
/// digest given, and is approved by the proposer and no one else. Nothing
/// else changes.
pub proof fn law_submit_seeds_approvals(
    s: State,
    who: AccountId,
    id: MultisigId,
    call_hash: CallHash,
)
    requires
        s.inv(),
        s.wallets.contains_key(id),
        s.wallets[id].owners.contains(who),
        s.wallets[id].proposals.len() < u32::MAX,
    ensures
        s.submit(who, id, call_hash) matches Ok(next) && {
            &&& next.1 == s.next_proposal_index(id)
            &&& next.0.next_proposal_index(id) == next.1 + 1
            &&& next.0.proposal(id, next.1) == Some(Proposal { call_hash, executed: false })
            &&& next.0.approvals(id, next.1) == seq![who]
            &&& next.0.wallets.dom() == s.wallets.dom()
            &&& forall|other: MultisigId|
                other != id && s.wallets.contains_key(other) ==> #[trigger] next.0.wallets[other]
                    == s.wallets[other]
            &&& forall|index: ProposalIndex|
                index < next.1 ==> #[trigger] next.0.proposal(id, index) == s.proposal(id, index)
                    && next.0.approvals(id, index) == s.approvals(id, index)
        },
{
    let next = s.submit(who, id, call_hash)->Ok_0;
    assert(next.0.wallets.dom() =~= s.wallets.dom());
}

/// An approval that succeeds appends the caller to the approvals and changes
/// nothing else.
pub proof fn law_confirm_appends(s: State, who: AccountId, id: MultisigId, index: ProposalIndex)
    requires
        s.inv(),
        s.confirm(who, id, index) is Ok,
    ensures
        s.confirm(who, id, index)->Ok_0.approvals(id, index) == s.approvals(id, index).push(who),
        s.confirm(who, id, index)->Ok_0.proposal(id, index) == s.proposal(id, index),
        s.wallets[id].owners.contains(who),
        !s.approvals(id, index).contains(who),
{
}

/// An owner who has approved a proposal cannot approve it again: the second
/// approval is rejected with `AlreadyConfirmed`.
pub proof fn law_confirm_twice_is_rejected(
    s: State,
    who: AccountId,
    id: MultisigId,
    index: ProposalIndex,
)
    requires
        s.confirm(who, id, index) is Ok,
    ensures
        s.confirm(who, id, index)->Ok_0.confirm(who, id, index) == Err::<State, Error>(
            Error::AlreadyConfirmed,
        ),
{
    let next = s.confirm(who, id, index)->Ok_0;
    let approvals = s.wallets[id].proposals[index as int].approvals;
    assert(approvals.push(who)[approvals.len() as int] == who);
}

/// The proposer of a proposal cannot approve it: the approval is rejected with
/// `AlreadyConfirmed`.
pub proof fn law_proposer_has_confirmed(
    s: State,
    who: AccountId,
    id: MultisigId,
    call_hash: CallHash,
)
    requires
        s.submit(who, id, call_hash) is Ok,
    ensures
        s.submit(who, id, call_hash)->Ok_0.0.confirm(
            who,
            id,
            s.submit(who, id, call_hash)->Ok_0.1,
        ) == Err::<State, Error>(Error::AlreadyConfirmed),
{
    assert(seq![who][0] == who);
}

/// Once a proposal is executed, an owner's approval of it is rejected with
/// `AlreadyExecuted`.
pub proof fn law_confirm_after_execution_is_rejected(
    s: State,
    who: AccountId,
    id: MultisigId,
    index: ProposalIndex,
)
    requires
        s.has_proposal(id, index),
        s.proposal(id, index)->0.executed,
        s.wallets[id].owners.contains(who),
    ensures
        s.confirm(who, id, index) == Err::<State, Error>(Error::AlreadyExecuted),
{
}

/// Dispatch of an unexecuted proposal's own action is refused with
/// `NotEnoughApprovals` while fewer owners have approved than the threshold
/// asks for.
pub proof fn law_execute_needs_quorum(
    s: State,
    id: MultisigId,
    index: ProposalIndex,
    call_hash: CallHash,
)
    requires
        s.has_proposal(id, index),
        s.proposal(id, index) == Some(Proposal { call_hash, executed: false }),
        s.approvals(id, index).len() < s.wallets[id].threshold,
    ensures
        s.authorize(id, index, call_hash) == Err::<(), Error>(Error::NotEnoughApprovals),
{
}

/// Dispatch for an unexecuted proposal is refused with `CallHashMismatch` when
/// the digest of the action supplied differs from the digest stored, however
/// many owners have approved.
pub proof fn law_execute_rejects_other_action(
    s: State,
    id: MultisigId,
    index: ProposalIndex,
    call_hash: CallHash,
)
    requires
        s.has_proposal(id, index),
        !s.proposal(id, index)->0.executed,
        s.proposal(id, index)->0.call_hash != call_hash,
    ensures
        s.authorize(id, index, call_hash) == Err::<(), Error>(Error::CallHashMismatch),
{
}

/// Dispatch is allowed exactly when the proposal exists, is not executed,
/// carries the digest supplied, and has as many approvals as the threshold.
pub proof fn law_execute_allowed_exactly(
    s: State,
    id: MultisigId,
    index: ProposalIndex,
    call_hash: CallHash,
)
    ensures
        s.authorize(id, index, call_hash) is Ok <==> {
            &&& s.has_proposal(id, index)
            &&& s.proposal(id, index) == Some(Proposal { call_hash, executed: false })
            &&& s.approvals(id, index).len() >= s.wallets[id].threshold
        },
{
}

/// After a successful dispatch of an allowed action, with the wallet still
/// there, the proposal is executed, and a further dispatch of the same action
/// is refused with `AlreadyExecuted`: no action runs twice.
pub proof fn law_execute_finalizes(
    s: State,
    id: MultisigId,
    index: ProposalIndex,
    call_hash: CallHash,
)
    requires
        s.authorize(id, index, call_hash) is Ok,
    ensures
        s.conclude(id, index, true).proposal(id, index) == Some(
            Proposal { call_hash, executed: true },
        ),
        s.conclude(id, index, true).approvals(id, index) == s.approvals(id, index),
        s.conclude(id, index, true).authorize(id, index, call_hash) == Err::<(), Error>(
            Error::AlreadyExecuted,
        ),
{
}

/// A failed dispatch changes nothing, so the same action may be dispatched
/// again, any number of times.
pub proof fn law_failed_dispatch_can_be_retried(
    s: State,
    id: MultisigId,
    index: ProposalIndex,
    call_hash: CallHash,
)
    ensures
        s.conclude(id, index, false) == s,
        s.conclude(id, index, false).authorize(id, index, call_hash) == s.authorize(
            id,
            index,
            call_hash,
        ),
{
}

/// Where the dispatched action removed the wallet, recording its success
/// changes nothing.
pub proof fn law_dispatch_that_destroys_leaves_no_trace(
    s: State,
    id: MultisigId,
    index: ProposalIndex,
    succeeded: bool,
)
    requires
        !s.wallets.contains_key(id),
    ensures
        s.conclude(id, index, succeeded) == s,
{
}

/// Destruction is refused with `MustBeMultisig` for every caller but the
/// wallet's own account, whether or not the wallet exists.
pub proof fn law_destroy_rejects_other_callers(
    s: State,
    who: AccountId,
    id: MultisigId,
    sovereign: AccountId,
    balance: u128,
)
    requires
        who != sovereign,
    ensures
        s.destroy(who, id, sovereign, balance) == Err::<State, Error>(Error::MustBeMultisig),
{
}

/// Destruction of an existing wallet by its own account is refused with
/// `NonZeroBalance` while that account holds anything.
pub proof fn law_destroy_rejects_funded_wallet(
    s: State,
    id: MultisigId,
    sovereign: AccountId,
    balance: u128,
)
    requires
        s.wallets.contains_key(id),
        balance != 0,
    ensures
        s.destroy(sovereign, id, sovereign, balance) == Err::<State, Error>(Error::NonZeroBalance),
{
}

/// Destruction of an existing wallet by its own account, holding nothing,
/// succeeds: the wallet is gone, and with it every proposal, every approval
/// and its index counter. Every other wallet is as before, and no later
/// creation brings the identifier back.
pub proof fn law_destroy_removes_everything(s: State, id: MultisigId, sovereign: AccountId)
    requires
        s.inv(),
        s.wallets.contains_key(id),
    ensures
        s.destroy(sovereign, id, sovereign, 0) matches Ok(next) && {
            &&& next.wallets == s.wallets.remove(id)
            &&& !next.wallets.contains_key(id)
            &&& next.next_proposal_index(id) == 0
            &&& forall|index: ProposalIndex|
                #![trigger next.proposal(id, index)]
                #![trigger next.approvals(id, index)]
                next.proposal(id, index) is None && next.approvals(id, index).len() == 0
            &&& next.next_multisig_id == s.next_multisig_id
            &&& id < next.next_multisig_id
            &&& next.inv()
        },
{
}

} // verus!
