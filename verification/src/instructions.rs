//! The operations of the wallet.
//!
//! Each operation validates first and commits after: a rejected operation
//! returns its error and leaves everything it was handed unchanged.

use crate::accounts::{
    ApproveRequest, ExecuteRequest, GetOwners, GetPendingTransactions, GetWalletBalance,
    InitializeMultisig, RequestWithdrawal, WalletCreated,
};
use crate::category::{get_max_owners, max_owners, UserCategory};
use crate::error::MultisigError;
use crate::identity::Identity;
use crate::model::{initialize_check, Proposal, WalletState};
use crate::transfer::{
    authority_seeds, is_system_transfer, signer_seeds, system_transfer, TransferOrder,
};
use crate::wallet::{contains_identity, copy_identities, has_duplicates, proposals, Transaction};
use vstd::prelude::*;

verus! {

/// Creates the wallet in the account of `ctx`.
///
/// The rules are tried in order and the first one broken decides the error:
/// too many owners for the tier, an owner named twice, a threshold under
/// two, a threshold over the number of owners. On success the account holds
/// the new wallet, with no pending transaction and a count of zero, and the
/// event of its creation is returned for the host to emit.
pub fn initialize_multisig_wallet(
    ctx: &mut InitializeMultisig,
    nonce: u8,
    owners: Vec<Identity>,
    threshold: u8,
    category: UserCategory,
) -> (result: Result<WalletCreated, MultisigError>)
    ensures
        match result {
            Ok(event) => {
                &&& initialize_check(owners@, threshold as nat, max_owners(category)) is None
                &&& final(ctx).multisig.data@ == WalletState::created(
                    old(ctx).creator,
                    owners@,
                    threshold as nat,
                    nonce,
                    old(ctx).unix_timestamp,
                )
                &&& final(ctx).multisig.data@.wf()
                &&& final(ctx).multisig.key == old(ctx).multisig.key
                &&& final(ctx).multisig.lamports == old(ctx).multisig.lamports
                &&& final(ctx).creator == old(ctx).creator
                &&& final(ctx).unix_timestamp == old(ctx).unix_timestamp
                &&& event == (WalletCreated {
                    creator: old(ctx).creator,
                    wallet: old(ctx).multisig.key,
                    timestamp: old(ctx).unix_timestamp,
                })
            },
            Err(e) => {
                &&& initialize_check(owners@, threshold as nat, max_owners(category)) == Some(e)
                &&& *final(ctx) == *old(ctx)
            },
        },
        result is Ok ==> 2 <= threshold <= owners@.len() <= max_owners(category),
{
    let cap = get_max_owners(&category);
    if owners.len() > cap as usize {
        return Err(MultisigError::TooManyOwners);
    }
    if has_duplicates(owners.as_slice()) {
        return Err(MultisigError::DuplicateOwners);
    }
    if threshold < 2 {
        return Err(MultisigError::ThresholdTooLow);
    }
    if threshold as usize > owners.len() {
        return Err(MultisigError::ThresholdExceedsOwners);
    }
    proof {
        WalletState::lemma_created_wf(
            ctx.creator,
            owners@,
            threshold as nat,
            max_owners(category),
            nonce,
            ctx.unix_timestamp,
        );
    }
    ctx.multisig.data.creator = ctx.creator;
    ctx.multisig.data.owners = owners;
    ctx.multisig.data.threshold = threshold;
    ctx.multisig.data.transaction_count = 0;
    ctx.multisig.data.pending_transactions = Vec::new();
    ctx.multisig.data.nonce = nonce;
    ctx.multisig.data.created_at = ctx.unix_timestamp;
    proof {
        assert(ctx.multisig.data@.pending =~= Seq::empty());
    }
    Ok(WalletCreated { creator: ctx.creator, wallet: ctx.multisig.key, timestamp: ctx.unix_timestamp })
}

/// Requests the transfer of `amount` to `destination`.
///
/// The amount is held against the account's live balance first, then the
/// signer against the owners. On success the request is pending under the
/// next identifier, approved by the signer alone, and a copy of it is
/// returned.
pub fn request_withdrawal(
    ctx: &mut RequestWithdrawal,
    destination: Identity,
    amount: u64,
) -> (result: Result<Transaction, MultisigError>)
    requires
        amount > 0,
        old(ctx).multisig.data.transaction_count < u64::MAX,
    ensures
        match result {
            Ok(created) => {
                &&& old(ctx).multisig.data@.propose_check(
                    old(ctx).signer,
                    amount as nat,
                    old(ctx).multisig.lamports as nat,
                ) is None
                &&& final(ctx).multisig.data@ == old(ctx).multisig.data@.propose(
                    old(ctx).signer,
                    destination,
                    amount as nat,
                )
                &&& created@ == Proposal::fresh(
                    old(ctx).multisig.data@.transaction_count,
                    old(ctx).signer,
                    destination,
                    amount as nat,
                )
                &&& final(ctx).multisig.key == old(ctx).multisig.key
                &&& final(ctx).multisig.lamports == old(ctx).multisig.lamports
                &&& final(ctx).signer == old(ctx).signer
            },
            Err(e) => {
                &&& old(ctx).multisig.data@.propose_check(
                    old(ctx).signer,
                    amount as nat,
                    old(ctx).multisig.lamports as nat,
                ) == Some(e)
                &&& *final(ctx) == *old(ctx)
            },
        },
        amount > old(ctx).multisig.lamports ==> (result matches Err(e) && e
            == MultisigError::InsufficientBalance) && *final(ctx) == *old(ctx),
        old(ctx).multisig.data@.wf() ==> final(ctx).multisig.data@.wf(),
{
    if amount > ctx.multisig.lamports {
        return Err(MultisigError::InsufficientBalance);
    }
    if !ctx.multisig.data.is_owner(&ctx.signer) {
        return Err(MultisigError::NotAnOwner);
    }
    let transaction_id = ctx.multisig.data.transaction_count;
    let mut approvals: Vec<Identity> = Vec::new();
    approvals.push(ctx.signer);
    let transaction = Transaction { id: transaction_id, to: destination, amount, approvals, executed: false };
    let created = transaction.duplicate();
    proof {
        if ctx.multisig.data@.wf() {
            ctx.multisig.data@.lemma_propose_wf(ctx.signer, destination, amount as nat);
        }
    }
    ctx.multisig.data.transaction_count = transaction_id + 1;
    ctx.multisig.data.pending_transactions.push(transaction);
    proof {
        assert(ctx.multisig.data@.pending =~= old(ctx).multisig.data@.pending.push(created@));
    }
    Ok(created)
}

/// Adds the signer's approval to the pending transaction `transaction_id`.
///
/// Rejected, in this order: a signer who is no owner, an identifier that is
/// not pending, a transaction already executed, a signer who has approved
/// it before. Nothing but the list of approvals changes.
pub fn approve_request(
    ctx: &mut ApproveRequest,
    transaction_id: u64,
) -> (result: Result<(), MultisigError>)
    ensures
        match result {
            Ok(()) => {
                &&& old(ctx).multisig.data@.approve_check(old(ctx).signer, transaction_id as nat) is None
                &&& final(ctx).multisig.data@ == old(ctx).multisig.data@.approve(
                    old(ctx).signer,
                    transaction_id as nat,
                )
                &&& final(ctx).multisig.key == old(ctx).multisig.key
                &&& final(ctx).multisig.lamports == old(ctx).multisig.lamports
                &&& final(ctx).signer == old(ctx).signer
            },
            Err(e) => {
                &&& old(ctx).multisig.data@.approve_check(old(ctx).signer, transaction_id as nat) == Some(e)
                &&& *final(ctx) == *old(ctx)
            },
        },
        old(ctx).multisig.data@.wf() ==> final(ctx).multisig.data@.wf(),
{
    if !ctx.multisig.data.is_owner(&ctx.signer) {
        return Err(MultisigError::NotAnOwner);
    }
    let place = match ctx.multisig.data.position(transaction_id) {
        Some(place) => place,
        None => {
            return Err(MultisigError::TransactionNotFound);
        },
    };
    if ctx.multisig.data.pending_transactions[place].executed {
        return Err(MultisigError::TransactionAlreadyExecuted);
    }
    if contains_identity(&ctx.multisig.data.pending_transactions[place].approvals, &ctx.signer) {
        return Err(MultisigError::AlreadyApproved);
    }
    proof {
        if ctx.multisig.data@.wf() {
            ctx.multisig.data@.lemma_approve_wf(ctx.signer, transaction_id as nat);
        }
    }
    let approver = ctx.signer;
    ctx.multisig.data.pending_transactions[place].approvals.push(approver);
    proof {
        assert(ctx.multisig.data@.pending =~= old(ctx).multisig.data@.pending.update(
            place as int,
            old(ctx).multisig.data@.pending[place as int].approved_by(approver),
        ));
    }
    Ok(())
}

/// Decides whether the pending transaction `transaction_id` may be executed
/// now, and if so gives the transfer for the host to perform.
///
/// Rejected, in this order: an identifier that is not pending, a transaction
/// already executed, fewer approvals than the threshold, a recipient other
/// than the stored destination, a live balance under the amount. Nothing is
/// changed: once the ledger has performed the transfer, `settle_request`
/// takes the transaction out of the pending set; if the ledger fails, the
/// transaction stays pending as it is.
///
/// The order moves the stored amount from the wallet's account to the
/// stored destination, and is signed by the wallet's own authority.
pub fn execute_request(
    ctx: &ExecuteRequest,
    transaction_id: u64,
) -> (result: Result<TransferOrder, MultisigError>)
    ensures
        match result {
            Ok(order) => {
                let wallet = ctx.multisig.data@;
                let proposal = wallet.proposal(transaction_id as nat);
                &&& wallet.execute_check(
                    transaction_id as nat,
                    ctx.recipient,
                    ctx.multisig.lamports as nat,
                ) is None
                &&& proposal.amount <= u64::MAX
                &&& is_system_transfer(
                    order.instruction,
                    ctx.multisig.key,
                    proposal.to,
                    proposal.amount as u64,
                )
                &&& order.signer_seeds.deep_view() == authority_seeds(
                    wallet.creator,
                    wallet.nonce,
                    ctx.bump,
                )
            },
            Err(e) => ctx.multisig.data@.execute_check(
                transaction_id as nat,
                ctx.recipient,
                ctx.multisig.lamports as nat,
            ) == Some(e),
        },
{
    let place = match ctx.multisig.data.executable(transaction_id, &ctx.recipient) {
        Ok(place) => place,
        Err(e) => {
            return Err(e);
        },
    };
    let transaction = &ctx.multisig.data.pending_transactions[place];
    if transaction.amount > ctx.multisig.lamports {
        return Err(MultisigError::InsufficientBalance);
    }
    Ok(
        TransferOrder {
            instruction: system_transfer(&ctx.multisig.key, &transaction.to, transaction.amount),
            signer_seeds: signer_seeds(&ctx.multisig.data.creator, ctx.multisig.data.nonce, ctx.bump),
        },
    )
}

/// Records that the ledger has performed the transfer of the pending
/// transaction `transaction_id`: the transaction leaves the pending set and
/// is returned, marked executed.
///
/// The rules of execution that do not depend on the balance are held again,
/// in the same order, so that no transaction leaves the pending set without
/// its quorum or for another recipient than its destination.
pub fn settle_request(
    ctx: &mut ExecuteRequest,
    transaction_id: u64,
) -> (result: Result<Transaction, MultisigError>)
    ensures
        match result {
            Ok(done) => {
                &&& old(ctx).multisig.data@.settle_check(transaction_id as nat, old(ctx).recipient) is None
                &&& final(ctx).multisig.data@ == old(ctx).multisig.data@.settle(transaction_id as nat)
                &&& done@ == (Proposal {
                    executed: true,
                    ..old(ctx).multisig.data@.proposal(transaction_id as nat)
                })
                &&& final(ctx).multisig.key == old(ctx).multisig.key
                &&& final(ctx).multisig.lamports == old(ctx).multisig.lamports
                &&& final(ctx).recipient == old(ctx).recipient
                &&& final(ctx).signer == old(ctx).signer
                &&& final(ctx).bump == old(ctx).bump
            },
            Err(e) => {
                &&& old(ctx).multisig.data@.settle_check(transaction_id as nat, old(ctx).recipient) == Some(e)
                &&& *final(ctx) == *old(ctx)
            },
        },
        old(ctx).multisig.data@.wf() ==> final(ctx).multisig.data@.wf(),
{
    let place = match ctx.multisig.data.executable(transaction_id, &ctx.recipient) {
        Ok(place) => place,
        Err(e) => {
            return Err(e);
        },
    };
    proof {
        if ctx.multisig.data@.wf() {
            ctx.multisig.data@.lemma_settle_wf(transaction_id as nat);
        }
    }
    let mut done = ctx.multisig.data.pending_transactions.remove(place);
    done.executed = true;
    proof {
        assert(ctx.multisig.data@.pending =~= old(ctx).multisig.data@.pending.remove(place as int));
    }
    Ok(done)
}

/// The live balance of the wallet's account.
pub fn get_wallet_balance(ctx: &GetWalletBalance) -> (result: Result<u64, MultisigError>)
    ensures
        result matches Ok(balance) && balance == ctx.multisig.lamports,
{
    Ok(ctx.multisig.lamports)
}

/// The pending transactions of the wallet, in the order of their requests.
pub fn get_pending_transactions(
    ctx: &GetPendingTransactions,
) -> (result: Result<Vec<Transaction>, MultisigError>)
    ensures
        result matches Ok(pending) && proposals(pending@) == ctx.multisig.data@.pending,
{
    let stored = &ctx.multisig.data.pending_transactions;
    let mut pending: Vec<Transaction> = Vec::new();
    let mut i: usize = 0;
    while i < stored.len()
        invariant
            i <= stored.len(),
            pending@.len() == i,
            forall|j: int| 0 <= j < i ==> pending@[j]@ == stored@[j]@,
        decreases stored.len() - i,
    {
        pending.push(stored[i].duplicate());
        i += 1;
    }
    proof {
    }
    Ok(pending)
}

/// The owners of the wallet.
pub fn get_owners(ctx: &GetOwners) -> (result: Result<Vec<Identity>, MultisigError>)
    ensures
        result matches Ok(owners) && owners@ == ctx.multisig.data@.owners,
{
    Ok(copy_identities(&ctx.multisig.data.owners))
}

} // verus!
