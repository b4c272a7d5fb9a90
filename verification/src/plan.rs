//! The update plan: the instructions that bring a pool up to date, as the
//! stake pool program's own library builds them.

use crate::address::Address;
use crate::client::{
    stake_pool_decoding, validator_list_decoding, DecodedValidator, StakePoolSnapshot,
    ValidatorListSnapshot,
};
use crate::error::{Account, UpdateError};
use crate::instruction::{instruction_views, AccountMeta, Instruction, InstructionView};
use solana_instruction::Instruction as ProgramInstruction;
use solana_program::borsh1::try_from_slice_unchecked;
use solana_pubkey::Pubkey;
use spl_stake_pool::instruction::{update_stake_pool, update_stale_stake_pool};
use spl_stake_pool::state::StakePool as PoolAccount;
use spl_stake_pool::state::ValidatorList as ListAccount;
use vstd::prelude::*;

verus! {

/// The instructions that update a pool in full: those that refresh the
/// validator list, and those that settle the pool's balance. `None` where
/// the bytes hold no pool or no validator list.
pub uninterp spec fn update_instructions(
    program_id: Address,
    pool_data: Seq<u8>,
    list_data: Seq<u8>,
    pool_address: Address,
    no_merge: bool,
) -> Option<(Seq<InstructionView>, Seq<InstructionView>)>;

/// As `update_instructions`, but only for the validators that have not been
/// brought up to date in `epoch`.
pub uninterp spec fn stale_update_instructions(
    program_id: Address,
    pool_data: Seq<u8>,
    list_data: Seq<u8>,
    pool_address: Address,
    no_merge: bool,
    epoch: u64,
) -> Option<(Seq<InstructionView>, Seq<InstructionView>)>;

/// The validator list is refreshed four validators at a time: this many
/// instructions cover `validators` of them.
pub open spec fn chunk_count(validators: nat) -> nat {
    (validators + 3) / 4
}

/// Some validator of the chunk has not been brought up to date in `epoch`.
pub open spec fn chunk_is_stale(validators: Seq<DecodedValidator>, chunk: int, epoch: u64) -> bool {
    exists|i: int|
        4 * chunk <= i < 4 * chunk + 4 && 0 <= i < validators.len() && (
        #[trigger] validators[i]).last_update_epoch < epoch
}

/// How many of the first `chunks` chunks are stale.
pub open spec fn stale_chunks(validators: Seq<DecodedValidator>, chunks: nat, epoch: u64) -> nat
    decreases chunks,
{
    if chunks == 0 {
        0
    } else {
        stale_chunks(validators, (chunks - 1) as nat, epoch) + if chunk_is_stale(
            validators,
            chunks - 1,
            epoch,
        ) {
            1nat
        } else {
            0nat
        }
    }
}

/// The instructions that were built, in views.
pub open spec fn built_view(built: Option<(Vec<Instruction>, Vec<Instruction>)>) -> Option<
    (Seq<InstructionView>, Seq<InstructionView>),
> {
    match built {
        Some((updates, last)) => Some((instruction_views(updates@), instruction_views(last@))),
        None => None,
    }
}

/// Builds the instructions of a full update with
/// `spl_stake_pool::instruction::update_stake_pool`, on the accounts that
/// `solana_program::borsh1::try_from_slice_unchecked` decodes from the
/// bytes. The result is a function of the arguments, which
/// `update_instructions` names. It is there exactly where both accounts
/// decode; it then holds one list instruction for every four validators, or
/// part of four, and two final instructions. The addresses in the
/// instructions are derived by hashing; the derivation gives up only in a
/// case that its authors call statistically improbable.
#[verifier::external_body]
fn build_update(
    program_id: &Address,
    pool_data: &[u8],
    list_data: &[u8],
    pool_address: &Address,
    no_merge: bool,
) -> (built: Option<(Vec<Instruction>, Vec<Instruction>)>)
    ensures
        built_view(built) == update_instructions(
            *program_id,
            pool_data@,
            list_data@,
            *pool_address,
            no_merge,
        ),
        (built is Some) == (stake_pool_decoding(pool_data@) is Some
            && validator_list_decoding(list_data@) is Some),
        built matches Some((updates, last)) ==> last@.len() == 2 && updates@.len() == chunk_count(
            validator_list_decoding(list_data@).unwrap().validators.len(),
        ),
{
    let pool = try_from_slice_unchecked::<PoolAccount>(pool_data).ok()?;
    let list = try_from_slice_unchecked::<ListAccount>(list_data).ok()?;
    let (updates, last) = update_stake_pool(&Pubkey::from(program_id.0), &pool, &list, &Pubkey::from(pool_address.0), no_merge);
    let own = |i: &ProgramInstruction| Instruction {
        program_id: Address(i.program_id.to_bytes()),
        accounts: i.accounts.iter().map(|m| AccountMeta { pubkey: Address(m.pubkey.to_bytes()), is_signer: m.is_signer, is_writable: m.is_writable }).collect(),
        data: i.data.clone(),
    };
    Some((updates.iter().map(own).collect(), last.iter().map(own).collect()))
}

/// Builds the instructions of an update of the stale validators with
/// `spl_stake_pool::instruction::update_stale_stake_pool`, on the accounts
/// that `solana_program::borsh1::try_from_slice_unchecked` decodes from the
/// bytes. The result is a function of the arguments, which
/// `stale_update_instructions` names. It is there exactly where both
/// accounts decode; it then holds one list instruction for every chunk of
/// four validators of which one was last brought up to date before `epoch`,
/// and two final instructions. The addresses in the instructions are derived
/// by hashing; the derivation gives up only in a case that its authors call
/// statistically improbable.
#[verifier::external_body]
fn build_stale_update(
    program_id: &Address,
    pool_data: &[u8],
    list_data: &[u8],
    pool_address: &Address,
    no_merge: bool,
    epoch: u64,
) -> (built: Option<(Vec<Instruction>, Vec<Instruction>)>)
    ensures
        built_view(built) == stale_update_instructions(
            *program_id,
            pool_data@,
            list_data@,
            *pool_address,
            no_merge,
            epoch,
        ),
        (built is Some) == (stake_pool_decoding(pool_data@) is Some
            && validator_list_decoding(list_data@) is Some),
        built matches Some((updates, last)) ==> last@.len() == 2 && updates@.len() == stale_chunks(
            validator_list_decoding(list_data@).unwrap().validators,
            chunk_count(validator_list_decoding(list_data@).unwrap().validators.len()),
            epoch,
        ),
{
    let pool = try_from_slice_unchecked::<PoolAccount>(pool_data).ok()?;
    let list = try_from_slice_unchecked::<ListAccount>(list_data).ok()?;
    let (updates, last) = update_stale_stake_pool(&Pubkey::from(program_id.0), &pool, &list, &Pubkey::from(pool_address.0), no_merge, epoch);
    let own = |i: &ProgramInstruction| Instruction {
        program_id: Address(i.program_id.to_bytes()),
        accounts: i.accounts.iter().map(|m| AccountMeta { pubkey: Address(m.pubkey.to_bytes()), is_signer: m.is_signer, is_writable: m.is_writable }).collect(),
        data: i.data.clone(),
    };
    Some((updates.iter().map(own).collect(), last.iter().map(own).collect()))
}

/// The transactions that bring a pool up to date: one for each list-update
/// instruction, in order, then one with the final instructions.
#[derive(Debug, PartialEq, Eq)]
pub struct UpdatePlan {
    /// Each of these refreshes a part of the validator list, in a
    /// transaction of its own.
    pub list_updates: Vec<Instruction>,
    /// These settle the pool's balance, together in the last transaction.
    pub final_instructions: Vec<Instruction>,
}

/// An update plan, in views.
pub struct UpdatePlanView {
    pub list_updates: Seq<InstructionView>,
    pub final_instructions: Seq<InstructionView>,
}

impl View for UpdatePlan {
    type V = UpdatePlanView;

    open spec fn view(&self) -> UpdatePlanView {
        UpdatePlanView {
            list_updates: instruction_views(self.list_updates@),
            final_instructions: instruction_views(self.final_instructions@),
        }
    }
}

/// The instructions that the policy calls for: with `stale_only`, those for
/// the validators that lag behind `epoch`; otherwise those for all.
pub open spec fn planned_instructions(
    program_id: Address,
    pool_data: Seq<u8>,
    list_data: Seq<u8>,
    pool_address: Address,
    no_merge: bool,
    stale_only: bool,
    epoch: u64,
) -> Option<(Seq<InstructionView>, Seq<InstructionView>)> {
    if stale_only {
        stale_update_instructions(program_id, pool_data, list_data, pool_address, no_merge, epoch)
    } else {
        update_instructions(program_id, pool_data, list_data, pool_address, no_merge)
    }
}

/// How many list-update instructions the policy calls for.
pub open spec fn planned_list_updates(
    validators: Seq<DecodedValidator>,
    stale_only: bool,
    epoch: u64,
) -> nat {
    if stale_only {
        stale_chunks(validators, chunk_count(validators.len()), epoch)
    } else {
        chunk_count(validators.len())
    }
}

/// The plan that instructions make, or the account that failed to decode
/// where there are none.
pub open spec fn plan_of(
    built: Option<(Seq<InstructionView>, Seq<InstructionView>)>,
    pool_decodes: bool,
) -> Result<UpdatePlanView, UpdateError> {
    match built {
        Some((list_updates, final_instructions)) => Ok(
            UpdatePlanView { list_updates, final_instructions },
        ),
        None => if pool_decodes {
            Err(UpdateError::Decode(Account::ValidatorList))
        } else {
            Err(UpdateError::Decode(Account::StakePool))
        },
    }
}

/// The plan for a pool, given the bytes of its account and of its validator
/// list.
pub open spec fn planned(
    program_id: Address,
    pool_data: Seq<u8>,
    list_data: Seq<u8>,
    pool_address: Address,
    no_merge: bool,
    stale_only: bool,
    epoch: u64,
) -> Result<UpdatePlanView, UpdateError> {
    plan_of(
        planned_instructions(
            program_id,
            pool_data,
            list_data,
            pool_address,
            no_merge,
            stale_only,
            epoch,
        ),
        stake_pool_decoding(pool_data) is Some,
    )
}

/// What the making of a plan came to, in views.
pub open spec fn plan_view(made: Result<UpdatePlan, UpdateError>) -> Result<
    UpdatePlanView,
    UpdateError,
> {
    match made {
        Ok(plan) => Ok(plan@),
        Err(error) => Err(error),
    }
}

impl UpdatePlan {
    /// Makes the plan out of the instructions that were built for it.
    pub fn from_instructions(
        built: Option<(Vec<Instruction>, Vec<Instruction>)>,
        pool_decodes: bool,
    ) -> (made: Result<UpdatePlan, UpdateError>)
        ensures
            plan_view(made) == plan_of(built_view(built), pool_decodes),
    {
        match built {
            Some((list_updates, final_instructions)) => Ok(
                UpdatePlan { list_updates, final_instructions },
            ),
            None => if pool_decodes {
                Err(UpdateError::Decode(Account::ValidatorList))
            } else {
                Err(UpdateError::Decode(Account::StakePool))
            },
        }
    }

}

/// Plans the update of a pool from the snapshots of its account and of its
/// validator list. With `stale_only` the plan covers the validators that lag
/// behind `epoch`, otherwise all of them. Nothing is sent.
pub fn plan_update(
    program_id: &Address,
    pool: &StakePoolSnapshot,
    validator_list: &ValidatorListSnapshot,
    pool_address: &Address,
    no_merge: bool,
    stale_only: bool,
    epoch: u64,
) -> (made: Result<UpdatePlan, UpdateError>)
    ensures
        plan_view(made) == planned(
            *program_id,
            pool@.account_data,
            validator_list@.account_data,
            *pool_address,
            no_merge,
            stale_only,
            epoch,
        ),
        (made is Ok) == (stake_pool_decoding(pool@.account_data) is Some
            && validator_list_decoding(validator_list@.account_data) is Some),
        made is Ok ==> made.unwrap()@.list_updates.len() == planned_list_updates(
            validator_list_decoding(validator_list@.account_data).unwrap().validators,
            stale_only,
            epoch,
        ) && made.unwrap()@.final_instructions.len() == 2,
{
    let built = if stale_only {
        build_stale_update(
            program_id,
            pool.account_data.as_slice(),
            validator_list.account_data.as_slice(),
            pool_address,
            no_merge,
            epoch,
        )
    } else {
        build_update(
            program_id,
            pool.account_data.as_slice(),
            validator_list.account_data.as_slice(),
            pool_address,
            no_merge,
        )
    };
    let pool_decodes = match built {
        Some(_) => true,
        None => crate::client::decode_stake_pool(pool.account_data.as_slice()).is_some(),
    };
    UpdatePlan::from_instructions(built, pool_decodes)
}

} // verus!
