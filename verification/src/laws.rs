//! What holds of every wallet, proved of the state machine that the
//! operations implement.

use crate::category::{max_owners, UserCategory};
use crate::error::MultisigError;
use crate::identity::Identity;
use crate::model::{initialize_check, Proposal, WalletState};
use vstd::prelude::*;

verus! {

/// A wallet whose creation is accepted has distinct owners, no more of them
/// than its tier admits, and a threshold of at least two and at most the
/// number of owners.
pub proof fn law_created_wallet_keeps_quorum(
    creator: Identity,
    owners: Seq<Identity>,
    threshold: nat,
    category: UserCategory,
    nonce: u8,
    created_at: i64,
)
    requires
        initialize_check(owners, threshold, max_owners(category)) is None,
    ensures
        ({
            let wallet = WalletState::created(creator, owners, threshold, nonce, created_at);
            &&& 2 <= wallet.threshold <= wallet.owners.len()
            &&& wallet.owners.len() <= max_owners(category)
            &&& wallet.owners.no_duplicates()
            &&& wallet.wf()
        }),
{
}

/// Owners among whom one is named twice are never accepted; where their
/// number is within the tier's cap, the error says so.
pub proof fn law_duplicate_owners_rejected(owners: Seq<Identity>, threshold: nat, category: UserCategory)
    requires
        !owners.no_duplicates(),
    ensures
        initialize_check(owners, threshold, max_owners(category)) is Some,
        owners.len() <= max_owners(category) ==> initialize_check(
            owners,
            threshold,
            max_owners(category),
        ) == Some(MultisigError::DuplicateOwners),
{
}

/// In a sound wallet the approvals of a pending proposal are distinct
/// owners, so there are no more of them than there are owners.
pub proof fn law_approvals_are_distinct_owners(wallet: WalletState, i: int)
    requires
        wallet.wf(),
        0 <= i < wallet.pending.len(),
    ensures
        wallet.pending[i].approvals.no_duplicates(),
        wallet.pending[i].approvals.len() <= wallet.owners.len(),
        forall|k: int|
            0 <= k < wallet.pending[i].approvals.len() ==> wallet.is_owner(
                #[trigger] wallet.pending[i].approvals[k],
            ),
{
    wallet.lemma_approvals_bounded(i);
}

/// Every accepted operation keeps a sound wallet sound.
pub proof fn law_operations_keep_soundness(
    wallet: WalletState,
    who: Identity,
    to: Identity,
    amount: nat,
    balance: nat,
    id: nat,
)
    requires
        wallet.wf(),
    ensures
        amount > 0 && wallet.propose_check(who, amount, balance) is None ==> wallet.propose(
            who,
            to,
            amount,
        ).wf(),
        wallet.approve_check(who, id) is None ==> wallet.approve(who, id).wf(),
        wallet.settle_check(id, to) is None ==> wallet.settle(id).wf(),
{
    if amount > 0 && wallet.propose_check(who, amount, balance) is None {
        wallet.lemma_propose_wf(who, to, amount);
    }
    if wallet.approve_check(who, id) is None {
        wallet.lemma_approve_wf(who, id);
    }
    if wallet.settle_check(id, to) is None {
        wallet.lemma_settle_wf(id);
    }
}

/// An owner who has approved a proposal cannot approve it again.
pub proof fn law_second_approval_rejected(wallet: WalletState, approver: Identity, id: nat)
    requires
        wallet.approve_check(approver, id) is None,
    ensures
        wallet.approve(approver, id).approve_check(approver, id) == Some(
            MultisigError::AlreadyApproved,
        ),
{
    wallet.lemma_position_exists(id);
    wallet.approve(approver, id).lemma_position_is(wallet.position(id), id);
    let approvals = wallet.proposal(id).approvals;
    assert(approvals.push(approver)[approvals.len() as int] == approver);
}

/// A proposal is executed at most once: after its transfer is settled, its
/// identifier is pending no more, so neither a second execution nor a later
/// approval finds it.
pub proof fn law_executed_once(
    wallet: WalletState,
    id: nat,
    recipient: Identity,
    balance: nat,
    later_caller: Identity,
    later_recipient: Identity,
    later_balance: nat,
)
    requires
        wallet.wf(),
        wallet.execute_check(id, recipient, balance) is None,
    ensures
        wallet.settle_check(id, recipient) is None,
        !wallet.settle(id).has_proposal(id),
        wallet.settle(id).execute_check(id, later_recipient, later_balance) == Some(
            MultisigError::TransactionNotFound,
        ),
        wallet.settle(id).settle_check(id, later_recipient) == Some(MultisigError::TransactionNotFound),
        wallet.is_owner(later_caller) ==> wallet.settle(id).approve_check(later_caller, id) == Some(
            MultisigError::TransactionNotFound,
        ),
{
    wallet.lemma_settle_wf(id);
}

/// A proposal leaves the pending set only with its quorum, unexecuted, and
/// for the recipient that it names.
pub proof fn law_settled_with_quorum(wallet: WalletState, id: nat, recipient: Identity)
    requires
        wallet.settle_check(id, recipient) is None,
    ensures
        wallet.has_proposal(id),
        wallet.proposal(id).approvals.len() >= wallet.threshold,
        wallet.proposal(id).to == recipient,
        !wallet.proposal(id).executed,
{
}

/// A fresh proposal in a sound wallet has the approval of its proposer
/// alone, which is under every threshold: it cannot be executed.
pub proof fn law_fresh_proposal_lacks_quorum(
    wallet: WalletState,
    proposer: Identity,
    to: Identity,
    amount: nat,
    recipient: Identity,
    balance: nat,
)
    requires
        wallet.wf(),
        wallet.is_owner(proposer),
        amount > 0,
    ensures
        ({
            let id = wallet.transaction_count;
            let next = wallet.propose(proposer, to, amount);
            &&& next.has_proposal(id)
            &&& next.proposal(id) == Proposal::fresh(id, proposer, to, amount)
            &&& next.execute_check(id, recipient, balance) == Some(MultisigError::ThresholdNotMet)
        }),
{
    lemma_fresh_is_last(wallet, proposer, to, amount);
}

/// In a wallet with a threshold of two, the approval of a second owner
/// makes a fresh proposal executable for its destination, where the balance
/// covers the amount.
pub proof fn law_second_owner_completes_quorum_of_two(
    wallet: WalletState,
    proposer: Identity,
    approver: Identity,
    to: Identity,
    amount: nat,
    balance: nat,
)
    requires
        wallet.wf(),
        wallet.threshold == 2,
        wallet.is_owner(proposer),
        wallet.is_owner(approver),
        approver != proposer,
        0 < amount <= balance,
    ensures
        ({
            let id = wallet.transaction_count;
            let proposed = wallet.propose(proposer, to, amount);
            let approved = proposed.approve(approver, id);
            &&& proposed.approve_check(approver, id) is None
            &&& approved.proposal(id).approvals == seq![proposer, approver]
            &&& approved.execute_check(id, to, balance) is None
        }),
{
    let id = wallet.transaction_count;
    let approved = wallet.propose(proposer, to, amount).approve(approver, id);
    lemma_fresh_is_last(wallet, proposer, to, amount);
    approved.lemma_position_is(wallet.pending.len() as int, id);
}

/// A request for more than the live balance is rejected for that reason,
/// whoever makes it.
pub proof fn law_overdraft_rejected(wallet: WalletState, proposer: Identity, amount: nat, balance: nat)
    requires
        amount > balance,
    ensures
        wallet.propose_check(proposer, amount, balance) == Some(MultisigError::InsufficientBalance),
{
}

/// Identifiers are handed out in order and never again: an accepted
/// request takes the count as its identifier and raises the count by one,
/// and no other operation changes the count.
pub proof fn law_identifiers_never_reused(
    wallet: WalletState,
    who: Identity,
    to: Identity,
    amount: nat,
    id: nat,
)
    ensures
        wallet.propose(who, to, amount).transaction_count == wallet.transaction_count + 1,
        wallet.propose(who, to, amount).pending.last().id == wallet.transaction_count,
        wallet.approve(who, id).transaction_count == wallet.transaction_count,
        wallet.settle(id).transaction_count == wallet.transaction_count,
{
}

/// The fresh proposal of a sound wallet stands last in the pending set and
/// is the one that its identifier names.
proof fn lemma_fresh_is_last(wallet: WalletState, proposer: Identity, to: Identity, amount: nat)
    requires
        wallet.wf(),
    ensures
        ({
            let id = wallet.transaction_count;
            let next = wallet.propose(proposer, to, amount);
            &&& next.is_first_with_id(wallet.pending.len() as int, id)
            &&& next.has_proposal(id)
            &&& next.position(id) == wallet.pending.len()
            &&& next.proposal(id) == Proposal::fresh(id, proposer, to, amount)
        }),
{
    let next = wallet.propose(proposer, to, amount);
    next.lemma_position_is(wallet.pending.len() as int, wallet.transaction_count);
}

} // verus!
