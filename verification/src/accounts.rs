//! What each operation is handed by the ledger: the wallet's account, the
//! verified identity of the caller, and the other values that the operation
//! reads.

use crate::identity::Identity;
use crate::wallet::MultisigWallet;
use vstd::prelude::*;

verus! {

/// The wallet's account on the ledger: its address, its live balance, and
/// the wallet record that it holds.
#[derive(Clone, Debug, PartialEq, Eq)]
pub struct WalletAccount {
    pub key: Identity,
    pub lamports: u64,
    pub data: MultisigWallet,
}

/// Accounts of wallet creation. `unix_timestamp` is the reading of the
/// ledger's clock.
#[derive(Clone, Debug, PartialEq, Eq)]
pub struct InitializeMultisig {
    pub multisig: WalletAccount,
    pub creator: Identity,
    pub unix_timestamp: i64,
}

/// Accounts of a withdrawal request.
#[derive(Clone, Debug, PartialEq, Eq)]
pub struct RequestWithdrawal {
    pub multisig: WalletAccount,
    pub signer: Identity,
}

/// Accounts of an approval.
#[derive(Clone, Debug, PartialEq, Eq)]
pub struct ApproveRequest {
    pub multisig: WalletAccount,
    pub signer: Identity,
}

/// Accounts of an execution. `bump` is the bump seed of the wallet's
/// address.
#[derive(Clone, Debug, PartialEq, Eq)]
pub struct ExecuteRequest {
    pub multisig: WalletAccount,
    pub recipient: Identity,
    pub signer: Identity,
    pub bump: u8,
}

/// Accounts of the balance query.
#[derive(Clone, Debug, PartialEq, Eq)]
pub struct GetWalletBalance {
    pub multisig: WalletAccount,
}

/// Accounts of the query for pending transactions.
#[derive(Clone, Debug, PartialEq, Eq)]
pub struct GetPendingTransactions {
    pub multisig: WalletAccount,
}

/// Accounts of the query for owners.
#[derive(Clone, Debug, PartialEq, Eq)]
pub struct GetOwners {
    pub multisig: WalletAccount,
}

/// The event of a wallet's creation.
#[derive(Clone, Copy, Debug, PartialEq, Eq)]
pub struct WalletCreated {
    pub creator: Identity,
    pub wallet: Identity,
    pub timestamp: i64,
}

} // verus!
