//! The outside types that run through the planner, and the outside calls it makes.
use solana_instruction::Instruction;
use solana_program::pubkey::Pubkey;
use crate::model::{Address, DepositAccounts, PoolFields, StakeAdjustment, ValidatorEntry};
use borsh::BorshDeserialize;
use spl_stake_pool::state::{StakePool, ValidatorList};
use std::num::NonZeroU32;
use vstd::prelude::*;

verus! {

/// An encoded program instruction, carried through the planner unread.
#[verifier::external_type_specification]
#[verifier::external_body]
pub struct ExInstruction(Instruction);

/// The pool's on-chain record, handed unread to the instruction builders.
#[verifier::external_type_specification]
#[verifier::external_body]
pub struct ExStakePool(StakePool);

/// The pool's on-chain validator list, handed unread to the instruction builders.
#[verifier::external_type_specification]
#[verifier::external_body]
pub struct ExValidatorList(ValidatorList);

/// The pool record that a run of bytes decodes to, if any.
pub uninterp spec fn decoded_pool_of(data: Seq<u8>) -> Option<StakePool>;

/// The validator list record that a run of bytes decodes to, if any.
pub uninterp spec fn decoded_list_of(data: Seq<u8>) -> Option<ValidatorList>;

/// The entries that a validator list record holds, in list order.
pub uninterp spec fn validator_entries_of(list: ValidatorList) -> Seq<ValidatorEntry>;

/// The addresses and totals that a pool record holds.
pub uninterp spec fn pool_fields_of(pool: StakePool) -> PoolFields;

/// The validator-level and pool-level update instructions for a pool.
pub uninterp spec fn update_instructions_of(
    pool: StakePool,
    list: ValidatorList,
    pool_address: Address,
) -> (Seq<Instruction>, Seq<Instruction>);

/// The withdraw authority that the stake pool program derives for a pool.
pub uninterp spec fn withdraw_authority_of(pool_address: Address) -> Address;

/// The associated token account of an owner for a mint.
pub uninterp spec fn associated_account_of(owner: Address, mint: Address) -> Address;

/// The system program's transfer of currency between two accounts.
pub uninterp spec fn transfer_of(from: Address, to: Address, lamports: u64) -> Instruction;

/// The stake pool program's deposit of currency.
pub uninterp spec fn deposit_of(accounts: DepositAccounts, lamports: u64) -> Instruction;

/// The stake pool program's increase of a validator's stake.
pub uninterp spec fn increase_of(pool: StakePool, args: StakeAdjustment) -> Instruction;

/// The stake pool program's decrease of a validator's stake.
pub uninterp spec fn decrease_of(pool: StakePool, args: StakeAdjustment) -> Instruction;

/// Relies on borsh's `BorshDeserialize::deserialize` for `StakePool`: the
/// outcome depends on the bytes alone.
#[verifier::external_body]
pub(crate) fn decode_pool(data: &Vec<u8>) -> (r: Option<StakePool>)
    ensures
        r == decoded_pool_of(data@),
{
    let mut bytes: &[u8] = data.as_slice();
    StakePool::deserialize(&mut bytes).ok()
}

/// Relies on borsh's `BorshDeserialize::deserialize` for `ValidatorList`: the
/// outcome depends on the bytes alone.
#[verifier::external_body]
pub(crate) fn decode_list(data: &Vec<u8>) -> (r: Option<ValidatorList>)
    ensures
        r == decoded_list_of(data@),
{
    let mut bytes: &[u8] = data.as_slice();
    ValidatorList::deserialize(&mut bytes).ok()
}

/// Reads the public fields of spl_stake_pool's `StakePool` record.
#[verifier::external_body]
pub(crate) fn pool_fields(pool: &StakePool) -> (r: PoolFields)
    ensures
        r == pool_fields_of(*pool),
{
    PoolFields {
        manager: pool.manager.to_bytes(),
        pool_mint: pool.pool_mint.to_bytes(),
        reserve_stake: pool.reserve_stake.to_bytes(),
        manager_fee_account: pool.manager_fee_account.to_bytes(),
        validator_list: pool.validator_list.to_bytes(),
        total_lamports: pool.total_lamports,
        pool_token_supply: pool.pool_token_supply,
    }
}

/// Reads the entries of spl_stake_pool's `ValidatorList::validators`, in order,
/// one for one.
#[verifier::external_body]
pub(crate) fn list_entries(list: &ValidatorList) -> (r: Vec<ValidatorEntry>)
    ensures
        r@ == validator_entries_of(*list),
{
    list.validators.iter().map(|v| ValidatorEntry {
        vote_account: v.vote_account_address.to_bytes(),
        active_stake_lamports: u64::from(v.active_stake_lamports),
        transient_stake_lamports: u64::from(v.transient_stake_lamports),
        validator_seed_suffix: u32::from(v.validator_seed_suffix),
        transient_seed_suffix: u64::from(v.transient_seed_suffix),
    }).collect()
}

/// Relies on spl_stake_pool's `instruction::update_stake_pool`: one
/// validator-level update for each chunk of at most four entries of the list,
/// then the pool balance update and the cleanup of removed entries.
#[verifier::external_body]
pub(crate) fn update_instructions(
    pool: &StakePool,
    list: &ValidatorList,
    pool_address: &Address,
) -> (r: (Vec<Instruction>, Vec<Instruction>))
    ensures
        (r.0@, r.1@) == update_instructions_of(*pool, *list, *pool_address),
        r.0@.len() == (validator_entries_of(*list).len() + 3) / 4,
        r.1@.len() == 2,
{
    spl_stake_pool::instruction::update_stake_pool(
        &spl_stake_pool::id(),
        pool,
        list,
        &Pubkey::new_from_array(*pool_address),
        false,
    )
}

/// Relies on spl_stake_pool's `find_withdraw_authority_program_address`,
/// for the stake pool program.
#[verifier::external_body]
pub(crate) fn withdraw_authority(pool_address: &Address) -> (r: Address)
    ensures
        r == withdraw_authority_of(*pool_address),
{
    spl_stake_pool::find_withdraw_authority_program_address(
        &spl_stake_pool::id(),
        &Pubkey::new_from_array(*pool_address),
    ).0.to_bytes()
}

/// Relies on spl_associated_token_account_client's `get_associated_token_address`.
#[verifier::external_body]
pub(crate) fn associated_account(owner: &Address, mint: &Address) -> (r: Address)
    ensures
        r == associated_account_of(*owner, *mint),
{
    spl_associated_token_account_client::address::get_associated_token_address(
        &Pubkey::new_from_array(*owner),
        &Pubkey::new_from_array(*mint),
    ).to_bytes()
}

/// Relies on solana_program's `system_instruction::transfer`.
#[verifier::external_body]
pub(crate) fn transfer(from: &Address, to: &Address, lamports: u64) -> (r: Instruction)
    ensures
        r == transfer_of(*from, *to, lamports),
{
    solana_program::system_instruction::transfer(
        &Pubkey::new_from_array(*from),
        &Pubkey::new_from_array(*to),
        lamports,
    )
}

/// Relies on spl_stake_pool's `instruction::deposit_sol`, for the stake pool
/// program and the token program.
#[verifier::external_body]
pub(crate) fn deposit(accounts: &DepositAccounts, lamports: u64) -> (r: Instruction)
    ensures
        r == deposit_of(*accounts, lamports),
{
    let a = accounts;
    spl_stake_pool::instruction::deposit_sol(
        &spl_stake_pool::id(),
        &Pubkey::new_from_array(a.pool),
        &Pubkey::new_from_array(a.withdraw_authority),
        &Pubkey::new_from_array(a.reserve_stake),
        &Pubkey::new_from_array(a.source),
        &Pubkey::new_from_array(a.destination),
        &Pubkey::new_from_array(a.manager_fee_account),
        &Pubkey::new_from_array(a.referrer),
        &Pubkey::new_from_array(a.pool_mint),
        &spl_token::id(),
        lamports,
    )
}

/// Relies on spl_stake_pool's `instruction::increase_additional_validator_stake_with_vote`.
#[verifier::external_body]
pub(crate) fn increase(pool: &StakePool, args: &StakeAdjustment) -> (r: Instruction)
    requires
        args.validator_seed != Some(0u32),
    ensures
        r == increase_of(*pool, *args),
{
    spl_stake_pool::instruction::increase_additional_validator_stake_with_vote(
        &spl_stake_pool::id(),
        pool,
        &Pubkey::new_from_array(args.pool),
        &Pubkey::new_from_array(args.vote_account),
        args.lamports,
        args.validator_seed.and_then(NonZeroU32::new),
        args.transient_seed,
        args.ephemeral_seed,
    )
}

/// Relies on spl_stake_pool's `instruction::decrease_additional_validator_stake_with_vote`.
#[verifier::external_body]
pub(crate) fn decrease(pool: &StakePool, args: &StakeAdjustment) -> (r: Instruction)
    requires
        args.validator_seed != Some(0u32),
    ensures
        r == decrease_of(*pool, *args),
{
    spl_stake_pool::instruction::decrease_additional_validator_stake_with_vote(
        &spl_stake_pool::id(),
        pool,
        &Pubkey::new_from_array(args.pool),
        &Pubkey::new_from_array(args.vote_account),
        args.lamports,
        args.validator_seed.and_then(NonZeroU32::new),
        args.transient_seed,
        args.ephemeral_seed,
    )
}

} // verus!
