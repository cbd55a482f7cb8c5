//! The planner's own view of pool state, and the batches it plans.
use solana_instruction::Instruction;
use spl_stake_pool::state::{StakePool, ValidatorList};
use vstd::prelude::*;

verus! {

/// A ledger address, as its 32 bytes.
pub type Address = [u8; 32];

/// One entry of a pool's validator list.
#[derive(Clone, Copy, Debug, PartialEq, Eq)]
pub struct ValidatorEntry {
    pub vote_account: Address,
    pub active_stake_lamports: u64,
    pub transient_stake_lamports: u64,
    pub validator_seed_suffix: u32,
    pub transient_seed_suffix: u64,
}

/// The addresses and totals that a pool record holds.
#[derive(Clone, Copy, Debug)]
pub struct PoolFields {
    pub manager: Address,
    pub pool_mint: Address,
    pub reserve_stake: Address,
    pub manager_fee_account: Address,
    pub validator_list: Address,
    pub total_lamports: u64,
    pub pool_token_supply: u64,
}

/// A decoded pool record: the record itself, for the instruction builders,
/// and the fields that the planner reads.
pub struct PoolState {
    pub record: StakePool,
    pub fields: PoolFields,
}

/// A decoded validator list: the record itself, for the instruction builders,
/// and its entries in list order.
pub struct ValidatorSet {
    pub record: ValidatorList,
    pub entries: Vec<ValidatorEntry>,
}

/// Why an operation could not be planned.
#[derive(Clone, Copy, Debug, PartialEq, Eq)]
pub enum PlanError {
    /// The account holds no data.
    AccountNotFound,
    /// The account's data is not a record of the expected layout.
    DecodeError,
    /// A currency amount is negative or not finite.
    InvalidAmount,
    /// No validator list entry has the requested vote account.
    ValidatorNotFound,
}

/// Instructions that go into one transaction, with the accounts that must sign
/// it and whether the plan waits for its confirmation before going on.
pub struct InstructionBatch {
    pub instructions: Vec<Instruction>,
    pub signers: Vec<Address>,
    pub wait: bool,
}

/// What a batch is, as plain sequences.
pub struct BatchView {
    pub instructions: Seq<Instruction>,
    pub signers: Seq<Address>,
    pub wait: bool,
}

impl View for InstructionBatch {
    type V = BatchView;

    open spec fn view(&self) -> BatchView {
        BatchView { instructions: self.instructions@, signers: self.signers@, wait: self.wait }
    }
}

/// The accounts that a deposit of currency into the pool names.
#[derive(Clone, Copy, Debug)]
pub struct DepositAccounts {
    pub pool: Address,
    pub withdraw_authority: Address,
    pub reserve_stake: Address,
    pub source: Address,
    pub destination: Address,
    pub manager_fee_account: Address,
    pub referrer: Address,
    pub pool_mint: Address,
}

/// The arguments of one change of a validator's stake.
#[derive(Clone, Copy, Debug)]
pub struct StakeAdjustment {
    pub pool: Address,
    pub vote_account: Address,
    pub lamports: u64,
    pub validator_seed: Option<u32>,
    pub transient_seed: u64,
    pub ephemeral_seed: u64,
}

/// Which way a validator's stake moves.
#[derive(Clone, Copy, Debug, PartialEq, Eq)]
pub enum Direction {
    Increase,
    Decrease,
}

} // verus!
