use sigritto::accounts::{
    ApproveRequest, ExecuteRequest, GetOwners, GetPendingTransactions, GetWalletBalance,
    InitializeMultisig, RequestWithdrawal, WalletAccount,
};
use sigritto::category::UserCategory;
use sigritto::error::MultisigError;
use sigritto::identity::Identity;
use sigritto::instructions::{
    approve_request, execute_request, get_owners, get_pending_transactions, get_wallet_balance,
    initialize_multisig_wallet, request_withdrawal, settle_request,
};
use sigritto::transfer::{signer_seeds, AccountRole};
use sigritto::wallet::{MultisigWallet, Transaction};

fn id(tag: u8) -> Identity {
    Identity::new([tag; 32])
}

const A: u8 = 1;
const B: u8 = 2;
const C: u8 = 3;
const D: u8 = 4;
const E: u8 = 5;
const WALLET: u8 = 200;

fn blank_wallet() -> MultisigWallet {
    MultisigWallet::default()
}

/// Wallet of owners A, B and C with threshold 2, created by A with nonce 7.
fn created(lamports: u64) -> WalletAccount {
    let mut ctx = InitializeMultisig {
        multisig: WalletAccount { key: id(WALLET), lamports, data: blank_wallet() },
        creator: id(A),
        unix_timestamp: 1_700_000_000,
    };
    let result =
        initialize_multisig_wallet(&mut ctx, 7, vec![id(A), id(B), id(C)], 2, UserCategory::Free);
    assert!(result.is_ok());
    ctx.multisig
}

fn propose(multisig: WalletAccount, signer: u8, to: u8, amount: u64) -> WalletAccount {
    let mut ctx = RequestWithdrawal { multisig, signer: id(signer) };
    assert!(request_withdrawal(&mut ctx, id(to), amount).is_ok());
    ctx.multisig
}

fn approve(multisig: WalletAccount, signer: u8, transaction_id: u64) -> WalletAccount {
    let mut ctx = ApproveRequest { multisig, signer: id(signer) };
    assert_eq!(approve_request(&mut ctx, transaction_id), Ok(()));
    ctx.multisig
}

fn execution(multisig: WalletAccount, recipient: u8) -> ExecuteRequest {
    ExecuteRequest { multisig, recipient: id(recipient), signer: id(A), bump: 254 }
}

/// A proposes 100 to D, B approves.
fn approved(lamports: u64) -> WalletAccount {
    approve(propose(created(lamports), A, D, 100), B, 0)
}

#[test]
fn a_fresh_proposal_lacks_its_quorum() {
    let ctx = execution(propose(created(1_000), A, D, 100), D);

    assert_eq!(execute_request(&ctx, 0), Err(MultisigError::ThresholdNotMet));
}

#[test]
fn the_second_approval_makes_a_proposal_executable() {
    let proposed = propose(created(1_000), A, D, 100);
    assert_eq!(
        execute_request(&execution(proposed.clone(), D), 0),
        Err(MultisigError::ThresholdNotMet)
    );
    let ctx = execution(approve(proposed, C, 0), D);

    assert!(execute_request(&ctx, 0).is_ok());
}

#[test]
fn the_order_is_the_system_transfer_of_the_stored_amount() {
    let ctx = execution(approved(1_000), D);
    let order = execute_request(&ctx, 0).unwrap();

    assert_eq!(order.instruction.program_id, id(0));
    assert_eq!(
        order.instruction.accounts,
        vec![
            AccountRole { pubkey: id(WALLET), is_signer: true, is_writable: true },
            AccountRole { pubkey: id(D), is_signer: false, is_writable: true },
        ]
    );
    assert_eq!(order.instruction.data, vec![2, 0, 0, 0, 100, 0, 0, 0, 0, 0, 0, 0]);
}

#[test]
fn the_amount_is_encoded_in_little_endian() {
    let account = approve(propose(created(u64::MAX), A, D, 0x0102_0304_0506_0708), B, 0);
    let order = execute_request(&execution(account, D), 0).unwrap();

    assert_eq!(order.instruction.data, vec![2, 0, 0, 0, 8, 7, 6, 5, 4, 3, 2, 1]);
}

#[test]
fn the_order_is_signed_by_the_wallets_authority() {
    let ctx = execution(approved(1_000), D);
    let order = execute_request(&ctx, 0).unwrap();

    assert_eq!(
        order.signer_seeds,
        vec![b"multisig".to_vec(), vec![A; 32], vec![7], vec![254]]
    );
    assert_eq!(order.signer_seeds, signer_seeds(&id(A), 7, 254));
}

#[test]
fn deciding_an_execution_changes_nothing() {
    let ctx = execution(approved(1_000), D);
    let before = ctx.clone();
    assert!(execute_request(&ctx, 0).is_ok());

    assert_eq!(ctx, before);
}

#[test]
fn a_substituted_recipient_is_rejected() {
    let mut ctx = execution(approved(1_000), E);
    let before = ctx.clone();

    assert_eq!(execute_request(&ctx, 0), Err(MultisigError::RecipientMismatch));
    assert_eq!(settle_request(&mut ctx, 0), Err(MultisigError::RecipientMismatch));
    assert_eq!(ctx, before);
    assert_eq!(
        ctx.multisig.data.pending_transactions,
        vec![Transaction {
            id: 0,
            to: id(D),
            amount: 100,
            approvals: vec![id(A), id(B)],
            executed: false
        }]
    );
}

#[test]
fn an_execution_over_the_live_balance_is_rejected() {
    let mut account = approved(1_000);
    account.lamports = 99;
    let ctx = execution(account, D);

    assert_eq!(execute_request(&ctx, 0), Err(MultisigError::InsufficientBalance));
}

#[test]
fn an_execution_of_the_whole_balance_is_accepted() {
    let mut account = approved(1_000);
    account.lamports = 100;
    let ctx = execution(account, D);

    assert!(execute_request(&ctx, 0).is_ok());
}

#[test]
fn an_execution_of_an_unknown_transaction_is_rejected() {
    let mut ctx = execution(approved(1_000), D);
    let before = ctx.clone();

    assert_eq!(execute_request(&ctx, 1), Err(MultisigError::TransactionNotFound));
    assert_eq!(settle_request(&mut ctx, 1), Err(MultisigError::TransactionNotFound));
    assert_eq!(ctx, before);
}

#[test]
fn an_execution_of_an_executed_transaction_is_rejected() {
    let mut account = approved(1_000);
    account.data.pending_transactions[0].executed = true;
    let mut ctx = execution(account, D);
    let before = ctx.clone();

    assert_eq!(execute_request(&ctx, 0), Err(MultisigError::TransactionAlreadyExecuted));
    assert_eq!(settle_request(&mut ctx, 0), Err(MultisigError::TransactionAlreadyExecuted));
    assert_eq!(ctx, before);
}

#[test]
fn the_rules_of_execution_are_tried_in_order() {
    // executed, without quorum, wrong recipient, no balance: executed wins
    let mut account = propose(created(1_000), A, D, 100);
    account.lamports = 0;
    account.data.pending_transactions[0].executed = true;
    assert_eq!(
        execute_request(&execution(account.clone(), E), 0),
        Err(MultisigError::TransactionAlreadyExecuted)
    );
    // without quorum, wrong recipient, no balance: the quorum wins
    account.data.pending_transactions[0].executed = false;
    assert_eq!(
        execute_request(&execution(account.clone(), E), 0),
        Err(MultisigError::ThresholdNotMet)
    );
    // wrong recipient, no balance: the recipient wins
    let account = approve(account, B, 0);
    assert_eq!(
        execute_request(&execution(account.clone(), E), 0),
        Err(MultisigError::RecipientMismatch)
    );
    // no balance
    assert_eq!(
        execute_request(&execution(account, D), 0),
        Err(MultisigError::InsufficientBalance)
    );
}

#[test]
fn settling_takes_the_transaction_out() {
    let mut ctx = execution(approved(1_000), D);
    let result = settle_request(&mut ctx, 0);

    assert_eq!(
        result,
        Ok(Transaction {
            id: 0,
            to: id(D),
            amount: 100,
            approvals: vec![id(A), id(B)],
            executed: true
        })
    );
    assert!(ctx.multisig.data.pending_transactions.is_empty());
    assert_eq!(ctx.multisig.data.transaction_count, 1);
    assert_eq!(ctx.multisig.data.owners, vec![id(A), id(B), id(C)]);
    assert_eq!(ctx.multisig.lamports, 1_000);
}

#[test]
fn settling_without_quorum_is_rejected() {
    let mut ctx = execution(propose(created(1_000), A, D, 100), D);
    let before = ctx.clone();

    assert_eq!(settle_request(&mut ctx, 0), Err(MultisigError::ThresholdNotMet));
    assert_eq!(ctx, before);
}

#[test]
fn settling_keeps_the_other_transactions_in_order() {
    let account = propose(propose(propose(created(1_000), A, D, 10), B, E, 20), C, D, 30);
    let account = approve(account, A, 1);
    let mut ctx = execution(account, E);
    assert!(settle_request(&mut ctx, 1).is_ok());

    let ids: Vec<u64> = ctx.multisig.data.pending_transactions.iter().map(|t| t.id).collect();
    assert_eq!(ids, vec![0, 2]);
    assert_eq!(ctx.multisig.data.transaction_count, 3);
}

#[test]
fn identifiers_are_not_reused_after_an_execution() {
    let mut ctx = execution(approved(1_000), D);
    assert!(settle_request(&mut ctx, 0).is_ok());
    let account = propose(ctx.multisig, B, E, 5);

    assert_eq!(account.data.pending_transactions[0].id, 1);
    assert_eq!(account.data.transaction_count, 2);
}

#[test]
fn a_second_execution_finds_nothing() {
    let mut ctx = execution(approved(1_000), D);
    assert!(execute_request(&ctx, 0).is_ok());
    assert!(settle_request(&mut ctx, 0).is_ok());
    ctx.multisig.lamports = 900;

    assert_eq!(execute_request(&ctx, 0), Err(MultisigError::TransactionNotFound));
    assert_eq!(settle_request(&mut ctx, 0), Err(MultisigError::TransactionNotFound));
}

#[test]
fn a_failed_transfer_leaves_the_transaction_pending() {
    let ctx = execution(approved(1_000), D);
    let before = ctx.clone();
    // the host asks, the ledger fails, nothing is settled
    assert!(execute_request(&ctx, 0).is_ok());

    assert_eq!(ctx, before);
    assert_eq!(ctx.multisig.data.pending_transactions.len(), 1);
    assert!(!ctx.multisig.data.pending_transactions[0].executed);
    assert!(execute_request(&ctx, 0).is_ok());
}

#[test]
fn end_to_end() {
    let account = created(1_000);

    let account = propose(account, A, D, 100);
    assert_eq!(account.data.pending_transactions.len(), 1);
    assert_eq!(account.data.pending_transactions[0].id, 0);
    assert_eq!(account.data.pending_transactions[0].approvals, vec![id(A)]);

    let account = approve(account, B, 0);
    assert_eq!(account.data.pending_transactions[0].approvals, vec![id(A), id(B)]);

    let mut ctx = execution(account, D);
    let order = execute_request(&ctx, 0).unwrap();
    assert_eq!(order.instruction.accounts[0].pubkey, id(WALLET));
    assert_eq!(order.instruction.accounts[1].pubkey, id(D));
    assert_eq!(order.instruction.data[4..], 100u64.to_le_bytes());
    assert!(settle_request(&mut ctx, 0).is_ok());
    ctx.multisig.lamports -= 100;

    let pending =
        get_pending_transactions(&GetPendingTransactions { multisig: ctx.multisig.clone() });
    assert_eq!(pending, Ok(Vec::new()));

    let mut late = ApproveRequest { multisig: ctx.multisig, signer: id(C) };
    assert_eq!(approve_request(&mut late, 0), Err(MultisigError::TransactionNotFound));
}

#[test]
fn recipient_mismatch() {
    let mut ctx = execution(approved(1_000), E);
    let before = ctx.clone();

    assert_eq!(execute_request(&ctx, 0), Err(MultisigError::RecipientMismatch));
    assert_eq!(ctx, before);
    assert_eq!(ctx.multisig.data.pending_transactions.len(), 1);
    assert!(!ctx.multisig.data.pending_transactions[0].executed);
    assert_eq!(ctx.multisig.data.pending_transactions[0].to, id(D));
    // still executable for the stored destination
    ctx.recipient = id(D);
    assert!(execute_request(&ctx, 0).is_ok());
}

#[test]
fn the_queries_read_the_account() {
    let account = propose(approved(1_000), C, E, 1);

    assert_eq!(get_wallet_balance(&GetWalletBalance { multisig: account.clone() }), Ok(1_000));
    assert_eq!(
        get_owners(&GetOwners { multisig: account.clone() }),
        Ok(vec![id(A), id(B), id(C)])
    );
    assert_eq!(
        get_pending_transactions(&GetPendingTransactions { multisig: account.clone() }),
        Ok(account.data.pending_transactions.clone())
    );
    assert_eq!(
        account.data.pending_transactions,
        vec![
            Transaction {
                id: 0,
                to: id(D),
                amount: 100,
                approvals: vec![id(A), id(B)],
                executed: false
            },
            Transaction { id: 1, to: id(E), amount: 1, approvals: vec![id(C)], executed: false },
        ]
    );
}

#[test]
fn the_first_of_two_transactions_with_one_identifier_is_found() {
    let mut account = propose(propose(created(1_000), A, D, 10), B, E, 20);
    account.data.pending_transactions[1].id = 0;
    let account = approve(account, C, 0);

    assert_eq!(account.data.pending_transactions[0].approvals, vec![id(A), id(C)]);
    assert_eq!(account.data.pending_transactions[1].approvals, vec![id(B)]);
    assert_eq!(account.data.position(0), Some(0));
}
