use solana_instruction::{AccountMeta, Instruction};
use solana_program::pubkey::Pubkey;
use spl_stake_pool::state::{StakePool, ValidatorList, ValidatorStakeInfo};
use stake_pool_ops::address::{derive_associated_account, derive_withdraw_authority, same_address};
use stake_pool_ops::model::{Direction, PlanError, PoolState, ValidatorEntry, ValidatorSet};
use stake_pool_ops::planner::{
    find_validator, plan_deposit, plan_maintenance, plan_pool_update, plan_stake_adjustment,
    validator_seed, DEFAULT_EPHEMERAL_SEED,
};
use stake_pool_ops::session::{start, step, Action, Event, Phase};
use stake_pool_ops::state::{read_pool_state, read_validator_set};

fn marker(tag: u8) -> Instruction {
    Instruction::new_with_bytes(
        Pubkey::new_from_array([9u8; 32]),
        &[tag],
        vec![AccountMeta::new(Pubkey::new_from_array([tag; 32]), false)],
    )
}

fn sample_pool() -> StakePool {
    let mut pool = StakePool::default();
    pool.manager = Pubkey::new_from_array([11u8; 32]);
    pool.pool_mint = Pubkey::new_from_array([12u8; 32]);
    pool.reserve_stake = Pubkey::new_from_array([13u8; 32]);
    pool.manager_fee_account = Pubkey::new_from_array([14u8; 32]);
    pool.validator_list = Pubkey::new_from_array([15u8; 32]);
    pool.total_lamports = 42;
    pool.pool_token_supply = 40;
    pool
}

fn sample_state() -> PoolState {
    read_pool_state(&borsh::to_vec(&sample_pool()).unwrap()).unwrap()
}

fn sample_list(votes: &[(u8, u32, u64)]) -> ValidatorList {
    let mut list = ValidatorList::new(10);
    list.validators.clear();
    for (vote, seed, transient) in votes {
        list.validators.push(ValidatorStakeInfo {
            vote_account_address: Pubkey::new_from_array([*vote; 32]),
            validator_seed_suffix: (*seed).into(),
            transient_seed_suffix: (*transient).into(),
            active_stake_lamports: 1_000u64.into(),
            transient_stake_lamports: 0u64.into(),
            ..ValidatorStakeInfo::default()
        });
    }
    list
}

fn sample_set(votes: &[(u8, u32, u64)]) -> ValidatorSet {
    read_validator_set(&borsh::to_vec(&sample_list(votes)).unwrap()).unwrap()
}

#[test]
fn maintenance_three_updates_then_final() {
    let payer = [1u8; 32];
    let updates = vec![marker(1), marker(2), marker(3)];
    let finals = vec![marker(4), marker(5)];
    let plan = plan_pool_update(updates, finals, &payer);
    assert_eq!(plan.len(), 4);
    let waits: Vec<bool> = plan.iter().map(|b| b.wait).collect();
    assert_eq!(waits, vec![false, false, true, true]);
    assert_eq!(plan[0].instructions, vec![marker(1)]);
    assert_eq!(plan[1].instructions, vec![marker(2)]);
    assert_eq!(plan[2].instructions, vec![marker(3)]);
    assert_eq!(plan[3].instructions, vec![marker(4), marker(5)]);
    for b in &plan {
        assert_eq!(b.signers, vec![payer]);
    }
}

#[test]
fn maintenance_without_updates_is_final_only() {
    let plan = plan_pool_update(vec![], vec![marker(7), marker(8)], &[1u8; 32]);
    assert_eq!(plan.len(), 1);
    assert!(plan[0].wait);
    assert_eq!(plan[0].instructions, vec![marker(7), marker(8)]);
}

#[test]
fn maintenance_single_update_is_waited_for() {
    let plan = plan_pool_update(vec![marker(1)], vec![marker(2)], &[1u8; 32]);
    assert_eq!(plan.len(), 2);
    assert!(plan[0].wait);
    assert!(plan[1].wait);
}

#[test]
fn maintenance_from_records_chunks_validators() {
    let pool_address = [3u8; 32];
    let payer = [1u8; 32];
    let pool = sample_state();
    let list = sample_list(&[(21, 0, 0), (22, 0, 0), (23, 0, 0), (24, 0, 0), (25, 0, 0)]);
    let set = sample_set(&[(21, 0, 0), (22, 0, 0), (23, 0, 0), (24, 0, 0), (25, 0, 0)]);
    let plan = plan_maintenance(&pool_address, &pool, &set, &payer);
    let (updates, finals) = spl_stake_pool::instruction::update_stake_pool(
        &spl_stake_pool::id(),
        &sample_pool(),
        &list,
        &Pubkey::new_from_array(pool_address),
        false,
    );
    assert_eq!(updates.len(), 2);
    assert_eq!(plan.len(), 3);
    assert_eq!(plan[0].instructions, vec![updates[0].clone()]);
    assert!(!plan[0].wait);
    assert_eq!(plan[1].instructions, vec![updates[1].clone()]);
    assert!(plan[1].wait);
    assert_eq!(plan[2].instructions, finals);
    assert!(plan[2].wait);
}

#[test]
fn deposit_transfers_then_deposits() {
    let lamports = solana_native_token::sol_to_lamports(2.3);
    assert_eq!(lamports, 2_300_000_000);
    let pool_address = [3u8; 32];
    let payer = [1u8; 32];
    let ephemeral = [2u8; 32];
    let pool = sample_state();
    let batch = plan_deposit(lamports, &pool_address, &pool, &payer, &ephemeral);
    assert!(batch.wait);
    assert_eq!(batch.signers, vec![payer, ephemeral]);
    assert_eq!(batch.instructions.len(), 2);
    let payer_key = Pubkey::new_from_array(payer);
    let ephemeral_key = Pubkey::new_from_array(ephemeral);
    assert_eq!(
        batch.instructions[0],
        solana_program::system_instruction::transfer(&payer_key, &ephemeral_key, 2_300_000_000)
    );
    let pool_key = Pubkey::new_from_array(pool_address);
    let destination = spl_associated_token_account_client::address::get_associated_token_address(
        &payer_key,
        &Pubkey::new_from_array([12u8; 32]),
    );
    let authority =
        spl_stake_pool::find_withdraw_authority_program_address(&spl_stake_pool::id(), &pool_key).0;
    let expected = spl_stake_pool::instruction::deposit_sol(
        &spl_stake_pool::id(),
        &pool_key,
        &authority,
        &Pubkey::new_from_array([13u8; 32]),
        &ephemeral_key,
        &destination,
        &Pubkey::new_from_array([14u8; 32]),
        &destination,
        &Pubkey::new_from_array([12u8; 32]),
        &spl_token::id(),
        2_300_000_000,
    );
    assert_eq!(batch.instructions[1], expected);
}

#[test]
fn increase_known_validator_uses_entry_seeds() {
    let lamports = solana_native_token::sol_to_lamports(5.0);
    assert_eq!(lamports, 5_000_000_000);
    let pool_address = [3u8; 32];
    let payer = [1u8; 32];
    let pool = sample_state();
    let set = sample_set(&[(21, 3, 1), (22, 0, 7)]);
    let batch =
        plan_stake_adjustment(Direction::Increase, lamports, &[22u8; 32], &pool_address, &pool, &set, &payer)
            .unwrap();
    assert!(batch.wait);
    assert_eq!(batch.signers, vec![payer]);
    let expected = spl_stake_pool::instruction::increase_additional_validator_stake_with_vote(
        &spl_stake_pool::id(),
        &sample_pool(),
        &Pubkey::new_from_array(pool_address),
        &Pubkey::new_from_array([22u8; 32]),
        5_000_000_000,
        None,
        7,
        0,
    );
    assert_eq!(batch.instructions, vec![expected]);
}

#[test]
fn decrease_known_validator_with_explicit_seed() {
    let pool_address = [3u8; 32];
    let pool = sample_state();
    let set = sample_set(&[(21, 3, 1), (22, 0, 7)]);
    let batch =
        plan_stake_adjustment(Direction::Decrease, 9, &[21u8; 32], &pool_address, &pool, &set, &[1u8; 32])
            .unwrap();
    let expected = spl_stake_pool::instruction::decrease_additional_validator_stake_with_vote(
        &spl_stake_pool::id(),
        &sample_pool(),
        &Pubkey::new_from_array(pool_address),
        &Pubkey::new_from_array([21u8; 32]),
        9,
        std::num::NonZeroU32::new(3),
        1,
        0,
    );
    assert_eq!(batch.instructions, vec![expected]);
}

#[test]
fn decrease_unknown_validator_is_not_found() {
    let pool = sample_state();
    let set = sample_set(&[(21, 3, 1), (22, 0, 7)]);
    let r = plan_stake_adjustment(Direction::Decrease, 5, &[99u8; 32], &[3u8; 32], &pool, &set, &[1u8; 32]);
    assert!(matches!(r, Err(PlanError::ValidatorNotFound)));
}

#[test]
fn adjustment_on_empty_list_is_not_found() {
    let pool = sample_state();
    let set = sample_set(&[]);
    let r = plan_stake_adjustment(Direction::Increase, 5, &[21u8; 32], &[3u8; 32], &pool, &set, &[1u8; 32]);
    assert!(matches!(r, Err(PlanError::ValidatorNotFound)));
}

#[test]
fn validator_seed_absent_exactly_for_zero() {
    assert_eq!(validator_seed(0), None);
    assert_eq!(validator_seed(1), Some(1));
    assert_eq!(validator_seed(u32::MAX), Some(u32::MAX));
    assert_eq!(DEFAULT_EPHEMERAL_SEED, 0);
}

#[test]
fn find_validator_takes_first_match() {
    let entry = |v: u8| ValidatorEntry {
        vote_account: [v; 32],
        active_stake_lamports: 0,
        transient_stake_lamports: 0,
        validator_seed_suffix: 0,
        transient_seed_suffix: 0,
    };
    let entries = vec![entry(1), entry(2), entry(3)];
    assert_eq!(find_validator(&entries, &[2u8; 32]), Some(1));
    assert_eq!(find_validator(&entries, &[4u8; 32]), None);
    assert_eq!(find_validator(&vec![], &[4u8; 32]), None);
}

#[test]
fn read_pool_state_errors_and_fields() {
    assert!(matches!(read_pool_state(&vec![]), Err(PlanError::AccountNotFound)));
    assert!(matches!(read_pool_state(&vec![200u8; 3]), Err(PlanError::DecodeError)));
    let state = sample_state();
    assert_eq!(state.record, sample_pool());
    assert_eq!(state.fields.manager, [11u8; 32]);
    assert_eq!(state.fields.pool_mint, [12u8; 32]);
    assert_eq!(state.fields.reserve_stake, [13u8; 32]);
    assert_eq!(state.fields.manager_fee_account, [14u8; 32]);
    assert_eq!(state.fields.validator_list, [15u8; 32]);
    assert_eq!(state.fields.total_lamports, 42);
    assert_eq!(state.fields.pool_token_supply, 40);
}

#[test]
fn read_validator_set_errors_and_entries() {
    assert!(matches!(read_validator_set(&vec![]), Err(PlanError::AccountNotFound)));
    assert!(matches!(read_validator_set(&vec![7u8; 2]), Err(PlanError::DecodeError)));
    let set = sample_set(&[(21, 3, 1), (22, 0, 7)]);
    assert_eq!(set.entries.len(), 2);
    assert_eq!(set.entries[0].vote_account, [21u8; 32]);
    assert_eq!(set.entries[0].validator_seed_suffix, 3);
    assert_eq!(set.entries[0].transient_seed_suffix, 1);
    assert_eq!(set.entries[0].active_stake_lamports, 1_000);
    assert_eq!(set.entries[1].vote_account, [22u8; 32]);
    assert_eq!(set.entries[1].transient_seed_suffix, 7);
}

#[test]
fn derivations_are_repeatable_and_match_programs() {
    let pool = [3u8; 32];
    let a = derive_withdraw_authority(&pool);
    let b = derive_withdraw_authority(&pool);
    assert_eq!(a, b);
    assert_ne!(a, pool);
    let expected = spl_stake_pool::find_withdraw_authority_program_address(
        &spl_stake_pool::id(),
        &Pubkey::new_from_array(pool),
    )
    .0;
    assert_eq!(a, expected.to_bytes());
    let owner = [1u8; 32];
    let mint = [12u8; 32];
    let c = derive_associated_account(&owner, &mint);
    assert_eq!(c, derive_associated_account(&owner, &mint));
    assert_ne!(c, owner);
    let expected_account = spl_associated_token_account_client::address::get_associated_token_address(
        &Pubkey::new_from_array(owner),
        &Pubkey::new_from_array(mint),
    );
    assert_eq!(c, expected_account.to_bytes());
}

#[test]
fn same_address_compares_every_byte() {
    let a = [5u8; 32];
    let mut b = [5u8; 32];
    assert!(same_address(&a, &b));
    b[31] = 6;
    assert!(!same_address(&a, &b));
}

#[test]
fn run_with_three_maintenance_batches_then_one_operation() {
    let (mut phase, action) = start();
    assert_eq!((phase, action), (Phase::FetchState, Action::Fetch));
    let mut actions = vec![];
    let events = [
        Event::StateFetched { maintenance_batches: 3 },
        Event::BatchLanded,
        Event::BatchLanded,
        Event::BatchLanded,
        Event::OperationPlanned { batches: 1 },
        Event::BatchLanded,
    ];
    for e in events {
        let (p, a) = step(phase, e);
        phase = p;
        actions.push(a);
    }
    assert_eq!(
        actions,
        vec![
            Action::SubmitMaintenance { index: 0 },
            Action::SubmitMaintenance { index: 1 },
            Action::SubmitMaintenance { index: 2 },
            Action::Plan,
            Action::SubmitOperation { index: 0 },
            Action::Stop,
        ]
    );
    assert_eq!(phase, Phase::Done);
}

#[test]
fn run_aborts_on_failure_and_stays_failed() {
    let p = Phase::Maintenance { next: 1, total: 3 };
    assert_eq!(step(p, Event::Failure), (Phase::Failed, Action::Stop));
    assert_eq!(step(Phase::Failed, Event::BatchLanded), (Phase::Failed, Action::Stop));
    assert_eq!(step(Phase::Done, Event::Failure), (Phase::Done, Action::Stop));
    assert_eq!(step(Phase::BuildOperation, Event::Failure), (Phase::Failed, Action::Stop));
}

#[test]
fn run_without_maintenance_goes_to_planning() {
    assert_eq!(
        step(Phase::FetchState, Event::StateFetched { maintenance_batches: 0 }),
        (Phase::BuildOperation, Action::Plan)
    );
    assert_eq!(
        step(Phase::BuildOperation, Event::OperationPlanned { batches: 0 }),
        (Phase::Done, Action::Stop)
    );
    assert_eq!(step(Phase::FetchState, Event::BatchLanded), (Phase::Failed, Action::Stop));
}
