//! Plans of instruction batches: pool maintenance, deposits, and changes of a
//! validator's stake.
use crate::address::same_address;
use crate::ledger::{
    associated_account, associated_account_of, decrease, decrease_of, deposit, deposit_of,
    increase, increase_of, transfer, transfer_of, update_instructions, update_instructions_of,
    validator_entries_of, withdraw_authority, withdraw_authority_of,
};
use crate::model::{
    Address, BatchView, DepositAccounts, Direction, InstructionBatch, PlanError, PoolFields,
    PoolState, StakeAdjustment, ValidatorEntry, ValidatorSet,
};
use solana_instruction::Instruction;
use spl_stake_pool::state::StakePool;
use vstd::prelude::*;

verus! {

/// The ephemeral stake seed that changes of a validator's stake use.
pub const DEFAULT_EPHEMERAL_SEED: u64 = 0;

/// Batch `i` of the maintenance plan: one batch per validator-level update,
/// the last of them waited for, then the pool-level updates, waited for.
pub open spec fn maintenance_batch(
    updates: Seq<Instruction>,
    finals: Seq<Instruction>,
    payer: Address,
    i: int,
) -> BatchView {
    if i < updates.len() {
        BatchView {
            instructions: seq![updates[i]],
            signers: seq![payer],
            wait: i == updates.len() - 1,
        }
    } else {
        BatchView { instructions: finals, signers: seq![payer], wait: true }
    }
}

/// Whether a batch is exactly batch `i` of the maintenance plan.
pub open spec fn is_maintenance_batch(
    b: BatchView,
    updates: Seq<Instruction>,
    finals: Seq<Instruction>,
    payer: Address,
    i: int,
) -> bool {
    let m = maintenance_batch(updates, finals, payer, i);
    b.instructions =~= m.instructions && b.signers =~= m.signers && b.wait == m.wait
}

fn single_signer(payer: &Address) -> (r: Vec<Address>)
    ensures
        r@ =~= seq![*payer],
{
    let mut r: Vec<Address> = Vec::new();
    r.push(*payer);
    r
}

/// Orders validator-level and pool-level update instructions into batches:
/// each validator-level update alone in a batch, not waited for but the last;
/// then all pool-level updates in one batch, waited for.
pub fn plan_pool_update(
    updates: Vec<Instruction>,
    finals: Vec<Instruction>,
    payer: &Address,
) -> (plan: Vec<InstructionBatch>)
    ensures
        plan@.len() == updates@.len() + 1,
        forall|i: int|
            0 <= i < plan@.len() ==> is_maintenance_batch(
                #[trigger] plan@[i]@,
                updates@,
                finals@,
                *payer,
                i,
            ),
{
    let ghost all = updates@;
    let n: usize = updates.len();
    let mut rest = updates;
    let mut plan: Vec<InstructionBatch> = Vec::new();
    let mut k: usize = 0;
    while k < n
        invariant
            n == all.len(),
            k <= n,
            rest@ == all.subrange(k as int, n as int),
            plan@.len() == k,
            forall|i: int|
                0 <= i < k ==> is_maintenance_batch(#[trigger] plan@[i]@, all, finals@, *payer, i),
        decreases n - k,
    {
        let ix = rest.remove(0);
        let mut one: Vec<Instruction> = Vec::new();
        one.push(ix);
        plan.push(InstructionBatch { instructions: one, signers: single_signer(payer), wait: k + 1 == n });
        proof {
            assert(ix == all[k as int]);
            assert(is_maintenance_batch(plan@[k as int]@, all, finals@, *payer, k as int));
        }
        k = k + 1;
        assert(rest@ =~= all.subrange(k as int, n as int));
    }
    let ghost fin = finals@;
    plan.push(InstructionBatch { instructions: finals, signers: single_signer(payer), wait: true });
    assert(is_maintenance_batch(plan@[n as int]@, all, fin, *payer, n as int));
    plan
}

/// The maintenance plan of a pool: the batches of `plan_pool_update` over the
/// stake pool program's update instructions, one validator-level update for
/// each chunk of up to four list entries.
pub fn plan_maintenance(
    pool_address: &Address,
    pool: &PoolState,
    validators: &ValidatorSet,
    payer: &Address,
) -> (plan: Vec<InstructionBatch>)
    ensures
        ({
            let (updates, finals) = update_instructions_of(pool.record, validators.record, *pool_address);
            &&& updates.len() == (validator_entries_of(validators.record).len() + 3) / 4
            &&& finals.len() == 2
            &&& plan@.len() == updates.len() + 1
            &&& forall|i: int|
                0 <= i < plan@.len() ==> is_maintenance_batch(
                    #[trigger] plan@[i]@,
                    updates,
                    finals,
                    *payer,
                    i,
                )
        }),
{
    let (updates, finals) = update_instructions(&pool.record, &validators.record, pool_address);
    plan_pool_update(updates, finals, payer)
}

/// With `n` validator-level updates the maintenance plan has `n + 1` batches:
/// the first `n - 1` are not waited for, the `n`-th is, and so is the final
/// pool-level batch; with no update only the final batch stands.
pub proof fn maintenance_waits(updates: Seq<Instruction>, finals: Seq<Instruction>, payer: Address)
    ensures
        forall|i: int|
            0 <= i < updates.len() - 1 ==> !(#[trigger] maintenance_batch(updates, finals, payer, i)).wait
                && maintenance_batch(updates, finals, payer, i).instructions.len() == 1,
        updates.len() > 0 ==> maintenance_batch(updates, finals, payer, updates.len() - 1).wait,
        maintenance_batch(updates, finals, payer, updates.len() as int).wait,
        maintenance_batch(updates, finals, payer, updates.len() as int).instructions == finals,
{
}

/// The accounts of a deposit from `source` into the pool, with the payer's
/// associated pool-token account as destination and as referrer.
pub open spec fn deposit_accounts_spec(
    pool_address: Address,
    fields: PoolFields,
    payer: Address,
    source: Address,
) -> DepositAccounts {
    let destination = associated_account_of(payer, fields.pool_mint);
    DepositAccounts {
        pool: pool_address,
        withdraw_authority: withdraw_authority_of(pool_address),
        reserve_stake: fields.reserve_stake,
        source,
        destination,
        manager_fee_account: fields.manager_fee_account,
        referrer: destination,
        pool_mint: fields.pool_mint,
    }
}

/// The deposit batch: the transfer from the payer to the ephemeral account,
/// then the deposit from the ephemeral account; signed by both, waited for.
pub open spec fn deposit_batch(
    lamports: u64,
    pool_address: Address,
    fields: PoolFields,
    payer: Address,
    ephemeral: Address,
) -> BatchView {
    BatchView {
        instructions: seq![
            transfer_of(payer, ephemeral, lamports),
            deposit_of(deposit_accounts_spec(pool_address, fields, payer, ephemeral), lamports),
        ],
        signers: seq![payer, ephemeral],
        wait: true,
    }
}

/// Plans a deposit of `lamports` from the payer, routed through a fresh
/// ephemeral account.
pub fn plan_deposit(
    lamports: u64,
    pool_address: &Address,
    pool: &PoolState,
    payer: &Address,
    ephemeral: &Address,
) -> (batch: InstructionBatch)
    ensures
        batch@.instructions =~= deposit_batch(lamports, *pool_address, pool.fields, *payer, *ephemeral).instructions,
        batch@.signers =~= deposit_batch(lamports, *pool_address, pool.fields, *payer, *ephemeral).signers,
        batch@.wait,
{
    let destination = associated_account(payer, &pool.fields.pool_mint);
    let accounts = DepositAccounts {
        pool: *pool_address,
        withdraw_authority: withdraw_authority(pool_address),
        reserve_stake: pool.fields.reserve_stake,
        source: *ephemeral,
        destination,
        manager_fee_account: pool.fields.manager_fee_account,
        referrer: destination,
        pool_mint: pool.fields.pool_mint,
    };
    let mut instructions: Vec<Instruction> = Vec::new();
    instructions.push(transfer(payer, ephemeral, lamports));
    instructions.push(deposit(&accounts, lamports));
    let mut signers: Vec<Address> = Vec::new();
    signers.push(*payer);
    signers.push(*ephemeral);
    InstructionBatch { instructions, signers, wait: true }
}

/// The validator seed of an entry: absent for a zero suffix, which names the
/// default stake account; else the suffix itself.
pub open spec fn validator_seed_spec(suffix: u32) -> Option<u32> {
    if suffix == 0 {
        None
    } else {
        Some(suffix)
    }
}

/// The validator seed of an entry with the given suffix.
pub fn validator_seed(suffix: u32) -> (r: Option<u32>)
    ensures
        r == validator_seed_spec(suffix),
{
    if suffix == 0 {
        None
    } else {
        Some(suffix)
    }
}

/// Whether entry `i` is the first entry with the given vote account.
pub open spec fn is_first_match(entries: Seq<ValidatorEntry>, vote_account: Address, i: int) -> bool {
    &&& 0 <= i < entries.len()
    &&& entries[i].vote_account@ == vote_account@
    &&& forall|j: int| 0 <= j < i ==> (#[trigger] entries[j]).vote_account@ != vote_account@
}

/// Whether any entry has the given vote account.
pub open spec fn has_vote_account(entries: Seq<ValidatorEntry>, vote_account: Address) -> bool {
    exists|i: int| 0 <= i < entries.len() && (#[trigger] entries[i]).vote_account@ == vote_account@
}

/// The index of the first entry with the given vote account, if any.
pub fn find_validator(entries: &Vec<ValidatorEntry>, vote_account: &Address) -> (r: Option<usize>)
    ensures
        match r {
            Some(i) => is_first_match(entries@, *vote_account, i as int),
            None => !has_vote_account(entries@, *vote_account),
        },
{
    let mut i: usize = 0;
    while i < entries.len()
        invariant
            i <= entries@.len(),
            forall|j: int| 0 <= j < i ==> (#[trigger] entries@[j]).vote_account@ != vote_account@,
        decreases entries@.len() - i,
    {
        if same_address(&entries[i].vote_account, vote_account) {
            return Some(i);
        }
        i = i + 1;
    }
    None
}

/// The arguments of a change of `lamports` to the stake of an entry's validator.
pub open spec fn adjustment_spec(pool_address: Address, entry: ValidatorEntry, lamports: u64) -> StakeAdjustment {
    StakeAdjustment {
        pool: pool_address,
        vote_account: entry.vote_account,
        lamports,
        validator_seed: validator_seed_spec(entry.validator_seed_suffix),
        transient_seed: entry.transient_seed_suffix,
        ephemeral_seed: DEFAULT_EPHEMERAL_SEED,
    }
}

/// The arguments of a change of `lamports` to the stake of an entry's validator.
pub fn adjustment_for(pool_address: &Address, entry: &ValidatorEntry, lamports: u64) -> (r: StakeAdjustment)
    ensures
        r == adjustment_spec(*pool_address, *entry, lamports),
{
    StakeAdjustment {
        pool: *pool_address,
        vote_account: entry.vote_account,
        lamports,
        validator_seed: validator_seed(entry.validator_seed_suffix),
        transient_seed: entry.transient_seed_suffix,
        ephemeral_seed: DEFAULT_EPHEMERAL_SEED,
    }
}

/// The instruction of a change of stake in the given direction.
pub open spec fn adjustment_instruction(direction: Direction, pool: StakePool, args: StakeAdjustment) -> Instruction {
    match direction {
        Direction::Increase => increase_of(pool, args),
        Direction::Decrease => decrease_of(pool, args),
    }
}

/// Whether a batch is the plan of a change of stake of entry `i`.
pub open spec fn is_adjustment_batch(
    b: BatchView,
    direction: Direction,
    lamports: u64,
    pool_address: Address,
    pool: StakePool,
    entries: Seq<ValidatorEntry>,
    payer: Address,
    i: int,
) -> bool {
    &&& b.instructions =~= seq![
        adjustment_instruction(direction, pool, adjustment_spec(pool_address, entries[i], lamports)),
    ]
    &&& b.signers =~= seq![payer]
    &&& b.wait
}

/// Plans a change of `lamports` to the stake of the validator with the given
/// vote account: one instruction, waited for. Fails, planning nothing, when no
/// entry of the list has that vote account.
pub fn plan_stake_adjustment(
    direction: Direction,
    lamports: u64,
    vote_account: &Address,
    pool_address: &Address,
    pool: &PoolState,
    validators: &ValidatorSet,
    payer: &Address,
) -> (r: Result<InstructionBatch, PlanError>)
    ensures
        r is Err <==> !has_vote_account(validators.entries@, *vote_account),
        r is Err ==> r == Err::<InstructionBatch, PlanError>(PlanError::ValidatorNotFound),
        r is Ok ==> exists|i: int|
            is_first_match(validators.entries@, *vote_account, i) && #[trigger] is_adjustment_batch(
                r->Ok_0@,
                direction,
                lamports,
                *pool_address,
                pool.record,
                validators.entries@,
                *payer,
                i,
            ),
{
    match find_validator(&validators.entries, vote_account) {
        None => Err(PlanError::ValidatorNotFound),
        Some(i) => {
            let args = adjustment_for(pool_address, &validators.entries[i], lamports);
            let ix = match direction {
                Direction::Increase => increase(&pool.record, &args),
                Direction::Decrease => decrease(&pool.record, &args),
            };
            let mut instructions: Vec<Instruction> = Vec::new();
            instructions.push(ix);
            let batch = InstructionBatch { instructions, signers: single_signer(payer), wait: true };
            assert(is_adjustment_batch(
                batch@,
                direction,
                lamports,
                *pool_address,
                pool.record,
                validators.entries@,
                *payer,
                i as int,
            ));
            let r = Ok(batch);
            assert(r->Ok_0@ == batch@);
            r
        },
    }
}

} // verus!
