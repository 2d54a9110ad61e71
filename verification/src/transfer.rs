//! The transfer that an approved proposal hands to the ledger: a system
//! transfer instruction, and the seeds of the wallet's own signing
//! authority.

use crate::identity::Identity;
use anchor_lang::solana_program::instruction::AccountMeta;
use anchor_lang::solana_program::pubkey::Pubkey;
use anchor_lang::solana_program::system_instruction;
use vstd::bytes::spec_u64_to_le_bytes;
use vstd::prelude::*;

verus! {

/// How an instruction uses one account.
#[derive(Clone, Copy, Debug, PartialEq, Eq)]
pub struct AccountRole {
    pub pubkey: Identity,
    pub is_signer: bool,
    pub is_writable: bool,
}

/// An instruction for the ledger, as plain values.
#[derive(Clone, Debug, PartialEq, Eq)]
pub struct TransferInstruction {
    pub program_id: Identity,
    pub accounts: Vec<AccountRole>,
    pub data: Vec<u8>,
}

/// What the host performs for a proposal that may be executed.
#[derive(Clone, Debug, PartialEq, Eq)]
pub struct TransferOrder {
    pub instruction: TransferInstruction,
    pub signer_seeds: Vec<Vec<u8>>,
}

/// The identity of the ledger's system program: thirty-two zero bytes.
pub open spec fn is_system_program(id: Identity) -> bool {
    id.is_zero()
}

/// The data of a system transfer: the number 2 as four little-endian bytes,
/// then the amount as eight little-endian bytes.
pub open spec fn transfer_data(lamports: u64) -> Seq<u8> {
    seq![2u8, 0u8, 0u8, 0u8] + spec_u64_to_le_bytes(lamports)
}

/// `ix` is the system transfer of `lamports` from `from` to `to`: both
/// accounts writable, only the source signing.
pub open spec fn is_system_transfer(
    ix: TransferInstruction,
    from: Identity,
    to: Identity,
    lamports: u64,
) -> bool {
    &&& is_system_program(ix.program_id)
    &&& ix.accounts@.len() == 2
    &&& ix.accounts@[0] == (AccountRole { pubkey: from, is_signer: true, is_writable: true })
    &&& ix.accounts@[1] == (AccountRole { pubkey: to, is_signer: false, is_writable: true })
    &&& ix.data@ == transfer_data(lamports)
}

/// Builds the transfer with `system_instruction::transfer` of
/// `solana_program` and hands it back as plain values. The contract states
/// what that function's source shows: the system program as the target, the
/// source as a writable signer, the destination as writable, and the
/// fixed-width little-endian encoding of the `Transfer` variant, which is the
/// third of the system instructions.
#[verifier::external_body]
pub(crate) fn system_transfer(from: &Identity, to: &Identity, lamports: u64) -> (ix: TransferInstruction)
    ensures
        is_system_transfer(ix, *from, *to, lamports),
{
    let (from, to) = (Pubkey::new_from_array(from.bytes), Pubkey::new_from_array(to.bytes));
    let built = system_instruction::transfer(&from, &to, lamports);
    let role = |a: &AccountMeta| AccountRole {
        pubkey: Identity { bytes: a.pubkey.to_bytes() },
        is_signer: a.is_signer,
        is_writable: a.is_writable,
    };
    TransferInstruction {
        program_id: Identity { bytes: built.program_id.to_bytes() },
        accounts: built.accounts.iter().map(role).collect(),
        data: built.data,
    }
}

/// The first seed of every wallet's signing authority: the text `multisig`.
pub open spec fn seed_prefix() -> Seq<u8> {
    seq![0x6du8, 0x75u8, 0x6cu8, 0x74u8, 0x69u8, 0x73u8, 0x69u8, 0x67u8]
}

/// The seeds of a wallet's signing authority: the prefix, the creator, the
/// nonce and the bump.
pub open spec fn authority_seeds(creator: Identity, nonce: u8, bump: u8) -> Seq<Seq<u8>> {
    seq![seed_prefix(), creator.bytes@, seq![nonce], seq![bump]]
}

/// The seeds by which the wallet of `creator` and `nonce` signs.
pub fn signer_seeds(creator: &Identity, nonce: u8, bump: u8) -> (seeds: Vec<Vec<u8>>)
    ensures
        seeds.deep_view() == authority_seeds(*creator, nonce, bump),
{
    let prefix: Vec<u8> = vec![0x6du8, 0x75u8, 0x6cu8, 0x74u8, 0x69u8, 0x73u8, 0x69u8, 0x67u8];
    let mut creator_bytes: Vec<u8> = Vec::new();
    let mut i: usize = 0;
    while i < 32
        invariant
            i <= 32,
            creator_bytes@ == creator.bytes@.take(i as int),
        decreases 32 - i,
    {
        creator_bytes.push(creator.bytes[i]);
        i += 1;
    }
    let seeds: Vec<Vec<u8>> = vec![prefix, creator_bytes, vec![nonce], vec![bump]];
    proof {
        assert(seeds.deep_view() =~~= authority_seeds(*creator, nonce, bump));
    }
    seeds
}

} // verus!
