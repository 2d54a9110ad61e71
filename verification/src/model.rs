//! The wallet as a mathematical state machine.
//!
//! A [`WalletState`] is the view of a wallet; the checks say which rule, if
//! any, rejects an operation, and the transitions say what an accepted
//! operation does to the state. The executable operations are specified
//! against these functions, and the laws of the wallet are proved about them.

use crate::category::MAX_OWNERS;
use crate::error::MultisigError;
use crate::identity::Identity;
use vstd::prelude::*;

verus! {

/// A request to transfer `amount` to `to`, with the owners who approved it.
pub struct Proposal {
    pub id: nat,
    pub to: Identity,
    pub amount: nat,
    pub approvals: Seq<Identity>,
    pub executed: bool,
}

/// Configuration and pending proposals of one wallet.
pub struct WalletState {
    pub creator: Identity,
    pub owners: Seq<Identity>,
    pub threshold: nat,
    pub transaction_count: nat,
    pub pending: Seq<Proposal>,
    pub nonce: u8,
    pub created_at: i64,
}

impl Proposal {
    /// The proposal that `proposer` creates: approved by the proposer alone.
    pub open spec fn fresh(id: nat, proposer: Identity, to: Identity, amount: nat) -> Proposal {
        Proposal { id, to, amount, approvals: seq![proposer], executed: false }
    }

    /// The proposal with one more approval.
    pub open spec fn approved_by(self, approver: Identity) -> Proposal {
        Proposal { approvals: self.approvals.push(approver), ..self }
    }

    /// Enough owners have approved.
    pub open spec fn quorum_reached(self, threshold: nat) -> bool {
        self.approvals.len() >= threshold
    }

    /// The proposal is a sound entry of a wallet with these owners that has
    /// handed out `transaction_count` identifiers: its identifier was handed
    /// out, its amount is positive, and its approvals are a non-empty list of
    /// distinct owners.
    pub open spec fn valid_for(self, owners: Seq<Identity>, transaction_count: nat) -> bool {
        &&& self.id < transaction_count
        &&& self.amount > 0
        &&& self.approvals.len() > 0
        &&& self.approvals.no_duplicates()
        &&& forall|k: int| 0 <= k < self.approvals.len() ==> owners.contains(#[trigger] self.approvals[k])
    }
}

/// The first rule that a requested configuration breaks, if any.
pub open spec fn initialize_check(owners: Seq<Identity>, threshold: nat, cap: nat) -> Option<MultisigError> {
    if owners.len() > cap {
        Some(MultisigError::TooManyOwners)
    } else if !owners.no_duplicates() {
        Some(MultisigError::DuplicateOwners)
    } else if threshold < 2 {
        Some(MultisigError::ThresholdTooLow)
    } else if threshold > owners.len() {
        Some(MultisigError::ThresholdExceedsOwners)
    } else {
        None
    }
}

impl WalletState {
    /// The wallet as it is right after creation.
    pub open spec fn created(
        creator: Identity,
        owners: Seq<Identity>,
        threshold: nat,
        nonce: u8,
        created_at: i64,
    ) -> WalletState {
        WalletState {
            creator,
            owners,
            threshold,
            transaction_count: 0,
            pending: Seq::empty(),
            nonce,
            created_at,
        }
    }

    /// The quorum invariant, the owner cap, and the soundness of every
    /// pending proposal; pending identifiers are pairwise distinct.
    pub open spec fn wf(self) -> bool {
        &&& self.owners.no_duplicates()
        &&& 2 <= self.threshold <= self.owners.len()
        &&& self.owners.len() <= MAX_OWNERS
        &&& forall|i: int|
            0 <= i < self.pending.len() ==> (#[trigger] self.pending[i]).valid_for(
                self.owners,
                self.transaction_count,
            )
        &&& forall|i: int, j: int|
            #![trigger self.pending[i], self.pending[j]]
            0 <= i < j < self.pending.len() ==> self.pending[i].id != self.pending[j].id
    }

    pub open spec fn is_owner(self, who: Identity) -> bool {
        self.owners.contains(who)
    }

    /// Some pending proposal has this identifier.
    pub open spec fn has_proposal(self, id: nat) -> bool {
        exists|i: int| 0 <= i < self.pending.len() && (#[trigger] self.pending[i]).id == id
    }

    /// `i` is the place of the first pending proposal with this identifier.
    pub open spec fn is_first_with_id(self, i: int, id: nat) -> bool {
        &&& 0 <= i < self.pending.len()
        &&& self.pending[i].id == id
        &&& forall|j: int| 0 <= j < i ==> (#[trigger] self.pending[j]).id != id
    }

    /// The place of the first pending proposal with this identifier; only
    /// meaningful where there is one.
    pub open spec fn position(self, id: nat) -> int {
        choose|i: int| self.is_first_with_id(i, id)
    }

    /// The pending proposal that an identifier names.
    pub open spec fn proposal(self, id: nat) -> Proposal {
        self.pending[self.position(id)]
    }

    /// Why a withdrawal request is rejected, if it is. The balance is the
    /// wallet's live balance at the time of the request.
    pub open spec fn propose_check(self, proposer: Identity, amount: nat, balance: nat) -> Option<
        MultisigError,
    > {
        if amount > balance {
            Some(MultisigError::InsufficientBalance)
        } else if !self.is_owner(proposer) {
            Some(MultisigError::NotAnOwner)
        } else {
            None
        }
    }

    /// The wallet after an accepted withdrawal request.
    pub open spec fn propose(self, proposer: Identity, to: Identity, amount: nat) -> WalletState {
        WalletState {
            transaction_count: self.transaction_count + 1,
            pending: self.pending.push(Proposal::fresh(self.transaction_count, proposer, to, amount)),
            ..self
        }
    }

    /// Why an approval is rejected, if it is.
    pub open spec fn approve_check(self, approver: Identity, id: nat) -> Option<MultisigError> {
        if !self.is_owner(approver) {
            Some(MultisigError::NotAnOwner)
        } else if !self.has_proposal(id) {
            Some(MultisigError::TransactionNotFound)
        } else if self.proposal(id).executed {
            Some(MultisigError::TransactionAlreadyExecuted)
        } else if self.proposal(id).approvals.contains(approver) {
            Some(MultisigError::AlreadyApproved)
        } else {
            None
        }
    }

    /// The wallet after an accepted approval.
    pub open spec fn approve(self, approver: Identity, id: nat) -> WalletState {
        WalletState {
            pending: self.pending.update(self.position(id), self.proposal(id).approved_by(approver)),
            ..self
        }
    }

    /// Why a proposal may not leave the pending set as executed, if it may
    /// not: the rules of execution that do not depend on the balance.
    pub open spec fn settle_check(self, id: nat, recipient: Identity) -> Option<MultisigError> {
        if !self.has_proposal(id) {
            Some(MultisigError::TransactionNotFound)
        } else if self.proposal(id).executed {
            Some(MultisigError::TransactionAlreadyExecuted)
        } else if !self.proposal(id).quorum_reached(self.threshold) {
            Some(MultisigError::ThresholdNotMet)
        } else if recipient != self.proposal(id).to {
            Some(MultisigError::RecipientMismatch)
        } else {
            None
        }
    }

    /// Why an execution is rejected, if it is. The balance is the wallet's
    /// live balance at the time of the execution.
    pub open spec fn execute_check(self, id: nat, recipient: Identity, balance: nat) -> Option<
        MultisigError,
    > {
        if self.settle_check(id, recipient) is Some {
            self.settle_check(id, recipient)
        } else if balance < self.proposal(id).amount {
            Some(MultisigError::InsufficientBalance)
        } else {
            None
        }
    }

    /// The wallet after the transfer of a proposal went through: the proposal
    /// is no longer pending.
    pub open spec fn settle(self, id: nat) -> WalletState {
        WalletState { pending: self.pending.remove(self.position(id)), ..self }
    }
}

} // verus!
