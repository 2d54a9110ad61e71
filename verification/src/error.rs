//! Why an operation on a wallet is rejected.

use vstd::prelude::*;

verus! {

/// The rejections of the wallet's operations. A rejected operation leaves
/// the wallet exactly as it was.
#[derive(Clone, Copy, Debug, PartialEq, Eq, Structural)]
pub enum MultisigError {
    TooManyOwners,
    TooFewOwners,
    ThresholdTooLow,
    ThresholdExceedsOwners,
    NotAnOwner,
    InsufficientBalance,
    OwnerAlreadyExists,
    TransactionAlreadyExecuted,
    AlreadyApproved,
    TransactionNotFound,
    ThresholdNotMet,
    RecipientMismatch,
    DuplicateOwners,
}

impl MultisigError {
    /// The text shown to a caller for each rejection.
    pub open spec fn message_text(self) -> Seq<char> {
        match self {
            MultisigError::TooManyOwners => "Number of owners exceeds the limit for this category"@,
            MultisigError::TooFewOwners => "Number of owners not enough for multisig"@,
            MultisigError::ThresholdTooLow => "Threshold must be at least 2 to ensure collaboration"@,
            MultisigError::ThresholdExceedsOwners => "Threshold cannot exceed the number of owners"@,
            MultisigError::NotAnOwner => "Signer is not an owner of the multisig wallet"@,
            MultisigError::InsufficientBalance => "Insufficient balance in the multisig wallet"@,
            MultisigError::OwnerAlreadyExists => "Owner already exists in the multisig wallet"@,
            MultisigError::TransactionAlreadyExecuted => "Transaction already executed"@,
            MultisigError::AlreadyApproved => "Signer has already approved this transaction"@,
            MultisigError::TransactionNotFound => "Transaction not found"@,
            MultisigError::ThresholdNotMet => "Threshold not met for execution"@,
            MultisigError::RecipientMismatch => "Recipient account does not match transaction record"@,
            MultisigError::DuplicateOwners => "Duplicate owners not allowed"@,
        }
    }

    /// The message of this rejection.
    pub fn message(&self) -> (text: &'static str)
        ensures
            text@ == self.message_text(),
    {
        match self {
            MultisigError::TooManyOwners => "Number of owners exceeds the limit for this category",
            MultisigError::TooFewOwners => "Number of owners not enough for multisig",
            MultisigError::ThresholdTooLow => "Threshold must be at least 2 to ensure collaboration",
            MultisigError::ThresholdExceedsOwners => "Threshold cannot exceed the number of owners",
            MultisigError::NotAnOwner => "Signer is not an owner of the multisig wallet",
            MultisigError::InsufficientBalance => "Insufficient balance in the multisig wallet",
            MultisigError::OwnerAlreadyExists => "Owner already exists in the multisig wallet",
            MultisigError::TransactionAlreadyExecuted => "Transaction already executed",
            MultisigError::AlreadyApproved => "Signer has already approved this transaction",
            MultisigError::TransactionNotFound => "Transaction not found",
            MultisigError::ThresholdNotMet => "Threshold not met for execution",
            MultisigError::RecipientMismatch => "Recipient account does not match transaction record",
            MultisigError::DuplicateOwners => "Duplicate owners not allowed",
        }
    }
}

} // verus!
