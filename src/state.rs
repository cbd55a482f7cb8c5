//! Decoding of the pool and validator list records from account data.
use crate::ledger::{
    decode_list, decode_pool, decoded_list_of, decoded_pool_of, list_entries, pool_fields,
    pool_fields_of, validator_entries_of,
};
use crate::model::{PlanError, PoolState, ValidatorSet};
use vstd::prelude::*;

verus! {

/// Decodes a pool record from an account's data. An account without data is
/// not found; data that is no pool record fails to decode.
pub fn read_pool_state(data: &Vec<u8>) -> (r: Result<PoolState, PlanError>)
    ensures
        data@.len() == 0 ==> r == Err::<PoolState, PlanError>(PlanError::AccountNotFound),
        data@.len() > 0 ==> match decoded_pool_of(data@) {
            None => r == Err::<PoolState, PlanError>(PlanError::DecodeError),
            Some(record) => match r {
                Ok(pool) => pool.record == record && pool.fields == pool_fields_of(record),
                Err(_) => false,
            },
        },
{
    if data.len() == 0 {
        return Err(PlanError::AccountNotFound);
    }
    match decode_pool(data) {
        None => Err(PlanError::DecodeError),
        Some(record) => {
            let fields = pool_fields(&record);
            Ok(PoolState { record, fields })
        },
    }
}

/// Decodes a validator list record from an account's data, with its entries in
/// list order. An account without data is not found; data that is no validator
/// list fails to decode.
pub fn read_validator_set(data: &Vec<u8>) -> (r: Result<ValidatorSet, PlanError>)
    ensures
        data@.len() == 0 ==> r == Err::<ValidatorSet, PlanError>(PlanError::AccountNotFound),
        data@.len() > 0 ==> match decoded_list_of(data@) {
            None => r == Err::<ValidatorSet, PlanError>(PlanError::DecodeError),
            Some(record) => match r {
                Ok(set) => set.record == record && set.entries@ == validator_entries_of(record),
                Err(_) => false,
            },
        },
{
    if data.len() == 0 {
        return Err(PlanError::AccountNotFound);
    }
    match decode_list(data) {
        None => Err(PlanError::DecodeError),
        Some(record) => {
            let entries = list_entries(&record);
            Ok(ValidatorSet { record, entries })
        },
    }
}

} // verus!
