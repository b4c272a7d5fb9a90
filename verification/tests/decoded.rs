use stake_pool_updater::address::Address;
use stake_pool_updater::api::{pool_to_serve, publish, validator_list_of_pool, ApiError};
use stake_pool_updater::builder::{Submission, SubmissionPhase};
use stake_pool_updater::client::{
    entries_from, DecodedStakePool, DecodedValidator, DecodedValidatorList, StakePoolSnapshot,
    ValidatorEntry, ValidatorListSnapshot,
};
use stake_pool_updater::error::{Account, Call, UpdateError};
use stake_pool_updater::instruction::Instruction;
use stake_pool_updater::notifier::Notification;
use stake_pool_updater::pipeline::{
    PoolUpdate, UpdateOptions, UpdatePhase, UpdateProgress, UpdateSettings,
};
use stake_pool_updater::plan::UpdatePlan;
use stake_pool_updater::transport::{ComputeUnitLimit, Delivery, Reply, Request};
use stake_pool_updater::utils::types::{AccountType, PodStakeStatus, StakeStatus, ValidatorListHeader};
use stake_pool_updater::watcher::{Cycle, CyclePhase, CycleProgress, CycleSettings};

fn decoded_pool(account_type: u8, last_update_epoch: u64) -> DecodedStakePool {
    DecodedStakePool {
        account_type,
        validator_list: Address([2; 32]),
        reserve_stake: Address([3; 32]),
        pool_mint: Address([4; 32]),
        manager_fee_account: Address([5; 32]),
        token_program_id: Address([6; 32]),
        total_lamports: 10,
        pool_token_supply: 9,
        last_update_epoch,
    }
}

fn decoded_validator(seed: u8, status: Option<u8>) -> DecodedValidator {
    DecodedValidator {
        active_stake_lamports: 100 + seed as u64,
        transient_stake_lamports: 200,
        last_update_epoch: 300,
        transient_seed_suffix: 400,
        unused: 0,
        validator_seed_suffix: 500,
        status,
        vote_account_address: Address([seed; 32]),
    }
}

fn pool_snapshot(last_update_epoch: u64) -> StakePoolSnapshot {
    StakePoolSnapshot::from_decoded(decoded_pool(1, last_update_epoch), vec![1, 2, 3]).unwrap()
}

fn settings() -> UpdateSettings {
    UpdateSettings {
        stake_pool_program_id: Address([9; 32]),
        fee_payer: Address([42; 32]),
        dry_run: false,
        no_update: false,
        compute_unit_price: None,
        compute_unit_limit: ComputeUnitLimit::Default,
    }
}

fn options() -> UpdateOptions {
    UpdateOptions { force: false, no_merge: false, stale_only: false }
}

fn update_in(phase: UpdatePhase) -> PoolUpdate {
    PoolUpdate { settings: settings(), options: options(), pool_address: Address([1; 32]), phase }
}

fn cycle_settings() -> CycleSettings {
    CycleSettings { update: settings(), options: options() }
}

fn instruction(tag: u8) -> Instruction {
    Instruction { program_id: Address([tag; 32]), accounts: vec![], data: vec![tag] }
}

#[test]
fn pool_snapshot_keeps_the_decoded_fields() {
    let pool = StakePoolSnapshot::from_decoded(decoded_pool(1, 500), vec![7, 7]).unwrap();
    assert_eq!(pool.account_type, AccountType::StakePool);
    assert_eq!(pool.validator_list, Address([2; 32]));
    assert_eq!(pool.reserve_stake, Address([3; 32]));
    assert_eq!(pool.pool_mint, Address([4; 32]));
    assert_eq!(pool.manager_fee_account, Address([5; 32]));
    assert_eq!(pool.token_program_id, Address([6; 32]));
    assert_eq!(pool.total_lamports, 10);
    assert_eq!(pool.pool_token_supply, 9);
    assert_eq!(pool.last_update_epoch, 500);
    assert_eq!(pool.account_data, vec![7, 7]);
    assert_eq!(StakePoolSnapshot::from_decoded(decoded_pool(3, 500), vec![]), None);
}

#[test]
fn list_snapshot_holds_at_most_max_validators() {
    let two = || vec![decoded_validator(1, Some(0)), decoded_validator(2, Some(4))];
    let fits = DecodedValidatorList { account_type: 2, max_validators: 2, validators: two() };
    let list = ValidatorListSnapshot::from_decoded(fits, vec![5]).unwrap();
    assert_eq!(
        list.header,
        ValidatorListHeader { account_type: AccountType::ValidatorList, max_validators: 2 }
    );
    assert_eq!(list.validators.len(), 2);
    assert_eq!(list.validators[1].status, StakeStatus::DeactivatingAll);
    assert_eq!(list.account_data, vec![5]);

    let overfull = DecodedValidatorList { account_type: 2, max_validators: 1, validators: two() };
    assert_eq!(ValidatorListSnapshot::from_decoded(overfull, vec![]), None);
    let empty = DecodedValidatorList { account_type: 2, max_validators: 0, validators: vec![] };
    assert!(ValidatorListSnapshot::from_decoded(empty, vec![]).unwrap().validators.is_empty());
}

#[test]
fn list_snapshot_needs_known_type_and_statuses() {
    let unknown_type = DecodedValidatorList { account_type: 3, max_validators: 5, validators: vec![] };
    assert_eq!(ValidatorListSnapshot::from_decoded(unknown_type, vec![]), None);
    let no_status = DecodedValidatorList {
        account_type: 2,
        max_validators: 5,
        validators: vec![decoded_validator(1, Some(1)), decoded_validator(2, None)],
    };
    assert_eq!(ValidatorListSnapshot::from_decoded(no_status, vec![]), None);
    let bad_status = DecodedValidatorList {
        account_type: 2,
        max_validators: 5,
        validators: vec![decoded_validator(1, Some(5))],
    };
    assert_eq!(ValidatorListSnapshot::from_decoded(bad_status, vec![]), None);
}

#[test]
fn entries_keep_order_and_fields() {
    let decoded = vec![decoded_validator(1, Some(2)), decoded_validator(2, Some(3))];
    assert_eq!(
        entries_from(&decoded),
        Some(vec![
            ValidatorEntry {
                active_stake_lamports: 101,
                transient_stake_lamports: 200,
                last_update_epoch: 300,
                transient_seed_suffix: 400,
                unused: 0,
                validator_seed_suffix: 500,
                status: StakeStatus::ReadyForRemoval,
                vote_account_address: Address([1; 32]),
            },
            ValidatorEntry {
                active_stake_lamports: 102,
                transient_stake_lamports: 200,
                last_update_epoch: 300,
                transient_seed_suffix: 400,
                unused: 0,
                validator_seed_suffix: 500,
                status: StakeStatus::DeactivatingValidator,
                vote_account_address: Address([2; 32]),
            },
        ])
    );
    assert_eq!(entries_from(&vec![decoded_validator(1, Some(77))]), None);
    assert_eq!(entries_from(&Vec::new()), Some(Vec::new()));
}

#[test]
fn read_api_steps_on_given_results() {
    assert_eq!(pool_to_serve(0, Some(Address([1; 32]))), Err(ApiError::NoStakePoolConfigured));
    assert_eq!(pool_to_serve(2, None), Err(ApiError::InvalidStakePoolAddress));
    assert_eq!(pool_to_serve(1, Some(Address([1; 32]))), Ok(Address([1; 32])));
    assert_eq!(validator_list_of_pool(Ok(pool_snapshot(5))), Ok(Address([2; 32])));
    assert_eq!(
        validator_list_of_pool(Err(UpdateError::Decode(Account::StakePool))),
        Err(ApiError::StakePoolUnavailable)
    );
    assert_eq!(
        publish(Err(UpdateError::Transport(Call::AccountData))),
        Err(ApiError::ValidatorListUnavailable)
    );
    let list = ValidatorListSnapshot::from_decoded(
        DecodedValidatorList {
            account_type: 2,
            max_validators: 3,
            validators: vec![decoded_validator(8, Some(1))],
        },
        vec![],
    )
    .unwrap();
    let published = publish(Ok(list)).unwrap();
    assert_eq!(published.header.max_validators, 3);
    assert_eq!(published.validators.len(), 1);
    assert_eq!(published.validators[0].status, PodStakeStatus(1));
    assert_eq!(published.validators[0].active_stake_lamports.get(), 108);
}

#[test]
fn update_goes_on_with_the_pool_that_was_read() {
    let pool = pool_snapshot(500);
    match update_in(UpdatePhase::AwaitingPool).pool_read(Ok(pool)) {
        UpdateProgress::Continue(update, request) => {
            assert_eq!(request, Request::EpochInfo);
            assert_eq!(update.phase, UpdatePhase::AwaitingEpoch { pool: pool_snapshot(500) });
            assert_eq!(update.pool_address, Address([1; 32]));
        }
        other => panic!("{:?}", other),
    }
    assert_eq!(
        update_in(UpdatePhase::AwaitingPool).pool_read(Err(UpdateError::Decode(Account::StakePool))),
        UpdateProgress::Finished(Err(UpdateError::Decode(Account::StakePool)))
    );
}

#[test]
fn update_asks_for_the_list_when_the_epoch_changed() {
    let waiting = || update_in(UpdatePhase::AwaitingEpoch { pool: pool_snapshot(500) });
    match waiting().advance(Reply::EpochInfo(Ok(501))) {
        UpdateProgress::Continue(update, request) => {
            assert_eq!(request, Request::AccountData(Address([2; 32])));
            assert_eq!(
                update.phase,
                UpdatePhase::AwaitingValidatorList { pool: pool_snapshot(500), epoch: 501 }
            );
        }
        other => panic!("{:?}", other),
    }
    // an epoch behind the pool's is a change as well
    assert!(matches!(waiting().advance(Reply::EpochInfo(Ok(499))), UpdateProgress::Continue(_, _)));
}

#[test]
fn update_begins_with_the_first_transaction_of_the_plan() {
    let plan = || UpdatePlan {
        list_updates: vec![instruction(1), instruction(2)],
        final_instructions: vec![instruction(3), instruction(4)],
    };
    let waiting = update_in(UpdatePhase::AwaitingValidatorList { pool: pool_snapshot(500), epoch: 501 });
    match waiting.plan_made(Ok(plan())) {
        UpdateProgress::Continue(update, request) => {
            assert_eq!(request, Request::LatestBlockhash);
            match update.phase {
                UpdatePhase::Submitting { plan: kept, batch, submission } => {
                    assert_eq!(kept, plan());
                    assert_eq!(batch, 0);
                    assert_eq!(submission.delivery, Delivery::SendNoWait);
                    assert_eq!(submission.additional_fee, 0);
                    assert_eq!(
                        submission.phase,
                        SubmissionPhase::AwaitingBlockhash { instructions: vec![instruction(1)] }
                    );
                }
                other => panic!("{:?}", other),
            }
        }
        other => panic!("{:?}", other),
    }
    let waiting = update_in(UpdatePhase::AwaitingValidatorList { pool: pool_snapshot(500), epoch: 501 });
    assert_eq!(
        waiting.plan_made(Err(UpdateError::Decode(Account::ValidatorList))),
        UpdateProgress::Finished(Err(UpdateError::Decode(Account::ValidatorList)))
    );
}

#[test]
fn last_list_update_is_followed_by_the_final_transaction() {
    let plan = || UpdatePlan {
        list_updates: vec![instruction(1), instruction(2)],
        final_instructions: vec![instruction(3), instruction(4)],
    };
    let delivering = |batch: usize, delivery: Delivery| {
        let (mut submission, _) = Submission::start(
            stake_pool_updater::builder::BuildSettings {
                fee_payer: Address([42; 32]),
                compute_unit_price: None,
                compute_unit_limit: ComputeUnitLimit::Default,
            },
            vec![],
            0,
            delivery,
        );
        submission.phase = SubmissionPhase::AwaitingDelivery;
        update_in(UpdatePhase::Submitting { plan: plan(), batch, submission })
    };
    // after the first list update, which is not waited for: the pause
    match delivering(0, Delivery::SendNoWait).advance(Reply::Submitted(Ok(()))) {
        UpdateProgress::Continue(update, request) => {
            assert_eq!(request, Request::Sleep(30));
            assert_eq!(update.phase, UpdatePhase::Pacing { plan: plan(), batch: 1 });
        }
        other => panic!("{:?}", other),
    }
    // after the pause: the second and last list update, which is confirmed
    match update_in(UpdatePhase::Pacing { plan: plan(), batch: 1 }).advance(Reply::Slept) {
        UpdateProgress::Continue(update, request) => {
            assert_eq!(request, Request::LatestBlockhash);
            match update.phase {
                UpdatePhase::Submitting { batch, submission, .. } => {
                    assert_eq!(batch, 1);
                    assert_eq!(submission.delivery, Delivery::SendAndConfirm);
                }
                other => panic!("{:?}", other),
            }
        }
        other => panic!("{:?}", other),
    }
    // after the last list update: the final transaction, confirmed, with both instructions
    match delivering(1, Delivery::SendAndConfirm).advance(Reply::Submitted(Ok(()))) {
        UpdateProgress::Continue(update, request) => {
            assert_eq!(request, Request::LatestBlockhash);
            match update.phase {
                UpdatePhase::Submitting { batch, submission, .. } => {
                    assert_eq!(batch, 2);
                    assert_eq!(submission.delivery, Delivery::SendAndConfirm);
                    assert_eq!(
                        submission.phase,
                        SubmissionPhase::AwaitingBlockhash {
                            instructions: vec![instruction(3), instruction(4)]
                        }
                    );
                }
                other => panic!("{:?}", other),
            }
        }
        other => panic!("{:?}", other),
    }
    // after the final transaction: done
    assert_eq!(
        delivering(2, Delivery::SendAndConfirm).advance(Reply::Submitted(Ok(()))),
        UpdateProgress::Finished(Ok(stake_pool_updater::pipeline::UpdateOutcome::Updated))
    );
}

#[test]
fn cycle_turns_to_a_pool_by_its_address() {
    let pools = || vec!["first".to_string(), "second".to_string()];
    match Cycle::turn_to(cycle_settings(), pools(), 1, Some(Address([8; 32]))) {
        CycleProgress::Continue(cycle, request) => {
            assert_eq!(request, Request::AccountData(Address([8; 32])));
            assert_eq!(cycle.index, 1);
            assert_eq!(cycle.phase, CyclePhase::AwaitingPool { address: Address([8; 32]), attempt: 1 });
        }
        other => panic!("{:?}", other),
    }
    match Cycle::turn_to(cycle_settings(), pools(), 0, None) {
        CycleProgress::Continue(cycle, request) => {
            assert_eq!(request, Request::Notify(Notification::UpdateFailed { pool: "first".to_string() }));
            assert_eq!(cycle.index, 0);
            assert_eq!(cycle.phase, CyclePhase::Reporting);
        }
        other => panic!("{:?}", other),
    }
    assert_eq!(
        Cycle::turn_to(cycle_settings(), pools(), 2, Some(Address([8; 32]))),
        CycleProgress::Finished(Ok(()))
    );
}

#[test]
fn cycle_goes_on_with_the_pool_that_was_read() {
    let at = |attempt: u32| Cycle {
        settings: cycle_settings(),
        pools: vec!["first".to_string()],
        index: 0,
        phase: CyclePhase::AwaitingPool { address: Address([8; 32]), attempt },
    };
    match at(3).pool_read(Address([8; 32]), 3, Ok(pool_snapshot(500))) {
        CycleProgress::Continue(cycle, request) => {
            assert_eq!(request, Request::EpochInfo);
            assert_eq!(
                cycle.phase,
                CyclePhase::AwaitingEpoch { address: Address([8; 32]), pool_epoch: 500, attempt: 1 }
            );
        }
        other => panic!("{:?}", other),
    }
    match at(4).pool_read(Address([8; 32]), 4, Err(UpdateError::Transport(Call::AccountData))) {
        CycleProgress::Continue(cycle, request) => {
            assert_eq!(request, Request::Backoff { attempt: 5 });
            assert_eq!(cycle.phase, CyclePhase::PoolBackoff { address: Address([8; 32]), attempt: 5 });
        }
        other => panic!("{:?}", other),
    }
    match at(5).pool_read(Address([8; 32]), 5, Err(UpdateError::Transport(Call::AccountData))) {
        CycleProgress::Continue(cycle, request) => {
            assert_eq!(request, Request::Notify(Notification::UpdateFailed { pool: "first".to_string() }));
            assert_eq!(cycle.phase, CyclePhase::Reporting);
        }
        other => panic!("{:?}", other),
    }
    match at(1).pool_read(Address([8; 32]), 1, Err(UpdateError::Decode(Account::StakePool))) {
        CycleProgress::Continue(_, request) => {
            assert_eq!(request, Request::Notify(Notification::UpdateFailed { pool: "first".to_string() }));
        }
        other => panic!("{:?}", other),
    }
}

#[test]
fn cycle_passes_over_an_unchanged_pool_in_one_step() {
    let cycle = Cycle {
        settings: cycle_settings(),
        pools: vec!["only".to_string()],
        index: 0,
        phase: CyclePhase::AwaitingEpoch { address: Address([8; 32]), pool_epoch: 500, attempt: 1 },
    };
    assert_eq!(cycle.advance(Reply::EpochInfo(Ok(500))), CycleProgress::Finished(Ok(())));
}
