//! The wallet record and its pending transactions, as they are stored.

use crate::error::MultisigError;
use crate::identity::Identity;
use crate::model::{Proposal, WalletState};
use vstd::prelude::*;

verus! {

/// One requested transfer, pending until it is executed.
#[derive(Clone, Debug, PartialEq, Eq)]
pub struct Transaction {
    pub id: u64,
    pub to: Identity,
    pub amount: u64,
    pub approvals: Vec<Identity>,
    pub executed: bool,
}

impl View for Transaction {
    type V = Proposal;

    open spec fn view(&self) -> Proposal {
        Proposal {
            id: self.id as nat,
            to: self.to,
            amount: self.amount as nat,
            approvals: self.approvals@,
            executed: self.executed,
        }
    }
}

impl Default for Transaction {
    /// The blank transaction: identifier and amount zero, the zero identity
    /// as destination, no approval, not executed.
    fn default() -> (blank: Transaction)
        ensures
            blank@.id == 0,
            blank@.to.is_zero(),
            blank@.amount == 0,
            blank@.approvals.len() == 0,
            !blank@.executed,
    {
        Transaction { id: 0, to: Identity::default(), amount: 0, approvals: Vec::new(), executed: false }
    }
}

/// The proposals that a list of stored transactions stands for.
pub open spec fn proposals(stored: Seq<Transaction>) -> Seq<Proposal> {
    stored.map_values(|t: Transaction| t@)
}

/// The durable record of one wallet.
#[derive(Clone, Debug, PartialEq, Eq)]
pub struct MultisigWallet {
    pub creator: Identity,
    pub owners: Vec<Identity>,
    pub threshold: u8,
    pub transaction_count: u64,
    pub pending_transactions: Vec<Transaction>,
    pub nonce: u8,
    pub created_at: i64,
}

impl View for MultisigWallet {
    type V = WalletState;

    open spec fn view(&self) -> WalletState {
        WalletState {
            creator: self.creator,
            owners: self.owners@,
            threshold: self.threshold as nat,
            transaction_count: self.transaction_count as nat,
            pending: proposals(self.pending_transactions@),
            nonce: self.nonce,
            created_at: self.created_at,
        }
    }
}

impl Default for MultisigWallet {
    /// The blank record of an account in which no wallet was created yet.
    fn default() -> (blank: MultisigWallet)
        ensures
            blank@.creator.is_zero(),
            blank@.owners.len() == 0,
            blank@.threshold == 0,
            blank@.transaction_count == 0,
            blank@.pending.len() == 0,
            blank@.nonce == 0,
            blank@.created_at == 0,
    {
        MultisigWallet {
            creator: Identity::default(),
            owners: Vec::new(),
            threshold: 0,
            transaction_count: 0,
            pending_transactions: Vec::new(),
            nonce: 0,
            created_at: 0,
        }
    }
}

/// Whether `who` occurs in `list`.
pub fn contains_identity(list: &Vec<Identity>, who: &Identity) -> (found: bool)
    ensures
        found == list@.contains(*who),
{
    let mut i: usize = 0;
    while i < list.len()
        invariant
            i <= list.len(),
            forall|j: int| 0 <= j < i ==> list@[j] != *who,
        decreases list.len() - i,
    {
        if list[i] == *who {
            return true;
        }
        i += 1;
    }
    false
}

/// A copy of a list of identities.
pub fn copy_identities(list: &Vec<Identity>) -> (copy: Vec<Identity>)
    ensures
        copy@ == list@,
{
    let mut copy: Vec<Identity> = Vec::new();
    let mut i: usize = 0;
    while i < list.len()
        invariant
            i <= list.len(),
            copy@ == list@.take(i as int),
        decreases list.len() - i,
    {
        copy.push(list[i]);
        i += 1;
    }
    copy
}

/// Whether some identity occurs twice in `owners`.
pub fn has_duplicates(owners: &[Identity]) -> (twice: bool)
    ensures
        twice == !owners@.no_duplicates(),
{
    let mut i: usize = 0;
    while i < owners.len()
        invariant
            i <= owners.len(),
            forall|a: int, b: int| 0 <= a < b < i ==> owners@[a] != owners@[b],
        decreases owners.len() - i,
    {
        let mut j: usize = 0;
        while j < i
            invariant
                j <= i < owners.len(),
                forall|a: int| 0 <= a < j ==> owners@[a] != owners@[i as int],
            decreases i - j,
        {
            if owners[j] == owners[i] {
                return true;
            }
            j += 1;
        }
        i += 1;
    }
    false
}

impl Transaction {
    /// A copy of the transaction.
    pub fn duplicate(&self) -> (copy: Transaction)
        ensures
            copy@ == self@,
    {
        Transaction {
            id: self.id,
            to: self.to,
            amount: self.amount,
            approvals: copy_identities(&self.approvals),
            executed: self.executed,
        }
    }
}

impl MultisigWallet {
    /// Whether `who` is one of the wallet's owners.
    pub fn is_owner(&self, who: &Identity) -> (owner: bool)
        ensures
            owner == self@.is_owner(*who),
    {
        contains_identity(&self.owners, who)
    }

    /// The place of the first pending transaction with this identifier.
    pub fn position(&self, transaction_id: u64) -> (place: Option<usize>)
        ensures
            place is Some <==> self@.has_proposal(transaction_id as nat),
            place matches Some(i) ==> self@.is_first_with_id(i as int, transaction_id as nat)
                && self@.position(transaction_id as nat) == i,
    {
        let mut i: usize = 0;
        while i < self.pending_transactions.len()
            invariant
                i <= self.pending_transactions.len(),
                forall|j: int| 0 <= j < i ==> (#[trigger] self@.pending[j]).id != transaction_id,
            decreases self.pending_transactions.len() - i,
        {
            if self.pending_transactions[i].id == transaction_id {
                proof {
                    self@.lemma_position_is(i as int, transaction_id as nat);
                }
                return Some(i);
            }
            i += 1;
        }
        None
    }

    /// The place of the pending transaction `transaction_id`, where it may
    /// leave the pending set as executed for `recipient`: it is pending, not
    /// executed, has its quorum, and names `recipient` as its destination.
    /// Else the first of these rules that is broken.
    pub fn executable(&self, transaction_id: u64, recipient: &Identity) -> (result: Result<usize, MultisigError>)
        ensures
            match result {
                Ok(place) => {
                    &&& self@.settle_check(transaction_id as nat, *recipient) is None
                    &&& self@.is_first_with_id(place as int, transaction_id as nat)
                    &&& self@.position(transaction_id as nat) == place
                },
                Err(e) => self@.settle_check(transaction_id as nat, *recipient) == Some(e),
            },
    {
        let place = match self.position(transaction_id) {
            Some(place) => place,
            None => {
                return Err(MultisigError::TransactionNotFound);
            },
        };
        let transaction = &self.pending_transactions[place];
        if transaction.executed {
            return Err(MultisigError::TransactionAlreadyExecuted);
        }
        if transaction.approvals.len() < self.threshold as usize {
            return Err(MultisigError::ThresholdNotMet);
        }
        if *recipient != transaction.to {
            return Err(MultisigError::RecipientMismatch);
        }
        Ok(place)
    }
}

} // verus!