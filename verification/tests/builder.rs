use stake_pool_updater::address::{Address, Blockhash};
use stake_pool_updater::builder::{
    add_compute_unit_limit_from_simulation, assemble_instructions, check_fee_payer_balance,
    required_fee_payer_balance, BuildSettings, Submission, SubmissionPhase, SubmissionProgress,
    MAX_COMPUTE_UNIT_LIMIT,
};
use stake_pool_updater::error::{Call, TransportError, UpdateError};
use stake_pool_updater::instruction::{clone_instructions, AccountMeta, Instruction};
use stake_pool_updater::notifier::{decimal_text, Notification};
use stake_pool_updater::transport::{
    delivery, send_transaction, send_transaction_no_wait, ComputeUnitLimit, Delivery, Reply,
    Request, SendMode, TransactionRequest,
};
use stake_pool_updater::utils::compute_budget::ComputeBudgetInstruction;

fn payer() -> Address {
    Address([42; 32])
}

fn base() -> Vec<Instruction> {
    vec![Instruction {
        program_id: Address([7; 32]),
        accounts: vec![AccountMeta { pubkey: Address([8; 32]), is_signer: false, is_writable: true }],
        data: vec![1, 2, 3],
    }]
}

fn settings(price: Option<u64>, limit: ComputeUnitLimit) -> BuildSettings {
    BuildSettings { fee_payer: payer(), compute_unit_price: price, compute_unit_limit: limit }
}

fn expect_continue(progress: SubmissionProgress) -> (Submission, Request) {
    match progress {
        SubmissionProgress::Continue(submission, request) => (submission, request),
        SubmissionProgress::Finished(result) => panic!("finished early: {:?}", result),
    }
}

#[test]
fn default_limit_adds_no_instruction() {
    assert_eq!(assemble_instructions(base(), None, ComputeUnitLimit::Default), base());
}

#[test]
fn price_comes_before_the_limit() {
    let assembled = assemble_instructions(base(), Some(5), ComputeUnitLimit::Static(250_000));
    assert_eq!(assembled.len(), 3);
    assert_eq!(assembled[0], base()[0]);
    assert_eq!(assembled[1], ComputeBudgetInstruction::set_compute_unit_price(5));
    assert_eq!(assembled[2], ComputeBudgetInstruction::set_compute_unit_limit(250_000));
    assert_eq!(assembled[2].data, vec![2, 0x90, 0xD0, 0x03, 0x00]);
}

#[test]
fn simulated_limit_starts_at_the_maximum() {
    assert_eq!(MAX_COMPUTE_UNIT_LIMIT, 1_400_000);
    let assembled = assemble_instructions(base(), None, ComputeUnitLimit::Simulated);
    assert_eq!(assembled.len(), 2);
    assert_eq!(assembled[1], ComputeBudgetInstruction::set_compute_unit_limit(1_400_000));
}

#[test]
fn measured_limit_overwrites_the_last_instruction_only() {
    let mut instructions =
        assemble_instructions(base(), Some(9), ComputeUnitLimit::Simulated);
    let before = clone_instructions(&instructions);
    assert_eq!(add_compute_unit_limit_from_simulation(&mut instructions, Some(123_456)), Ok(()));
    assert_eq!(instructions.len(), before.len());
    assert_eq!(instructions[0], before[0]);
    assert_eq!(instructions[1], before[1]);
    assert_eq!(instructions[2].program_id, before[2].program_id);
    assert_eq!(instructions[2].accounts, before[2].accounts);
    assert_eq!(instructions[2].data, vec![2, 0x40, 0xE2, 0x01, 0x00]);
    assert_eq!(instructions[2], ComputeBudgetInstruction::set_compute_unit_limit(123_456));
}

#[test]
fn missing_units_fail_the_simulation() {
    let mut instructions = assemble_instructions(base(), None, ComputeUnitLimit::Simulated);
    let before = clone_instructions(&instructions);
    assert_eq!(
        add_compute_unit_limit_from_simulation(&mut instructions, None),
        Err(UpdateError::Simulation)
    );
    assert_eq!(instructions, before);
}

#[test]
fn units_beyond_u32_fail_the_simulation() {
    let mut instructions = assemble_instructions(base(), None, ComputeUnitLimit::Simulated);
    let before = clone_instructions(&instructions);
    assert_eq!(
        add_compute_unit_limit_from_simulation(&mut instructions, Some(u32::MAX as u64 + 1)),
        Err(UpdateError::Simulation)
    );
    assert_eq!(instructions, before);
    assert_eq!(
        add_compute_unit_limit_from_simulation(&mut instructions, Some(u32::MAX as u64)),
        Ok(())
    );
    assert_eq!(instructions[1].data, vec![2, 255, 255, 255, 255]);
}

#[test]
fn insufficient_balance_names_both_amounts() {
    assert_eq!(
        check_fee_payer_balance(100, 150),
        Err(UpdateError::InsufficientBalance { required: 150, available: 100 })
    );
    assert_eq!(check_fee_payer_balance(150, 150), Ok(()));
    assert_eq!(check_fee_payer_balance(151, 150), Ok(()));
    assert_eq!(check_fee_payer_balance(0, 0), Ok(()));
    assert_eq!(
        check_fee_payer_balance(0, 1),
        Err(UpdateError::InsufficientBalance { required: 1, available: 0 })
    );
}

#[test]
fn required_balance_saturates() {
    assert_eq!(required_fee_payer_balance(0, 150), 150);
    assert_eq!(required_fee_payer_balance(50, 150), 200);
    assert_eq!(required_fee_payer_balance(u64::MAX, 1), u64::MAX);
    assert_eq!(required_fee_payer_balance(u64::MAX - 5, 5), u64::MAX);
    assert_eq!(required_fee_payer_balance(1, u64::MAX - 2), u64::MAX - 1);
}

#[test]
fn delivery_by_mode_and_dry_run() {
    assert_eq!(send_transaction(false), Delivery::SendAndConfirm);
    assert_eq!(send_transaction(true), Delivery::Simulate);
    assert_eq!(send_transaction_no_wait(false), Delivery::SendNoWait);
    assert_eq!(send_transaction_no_wait(true), Delivery::Simulate);
    assert_eq!(delivery(SendMode::Wait, false), Delivery::SendAndConfirm);
    assert_eq!(delivery(SendMode::NoWait, false), Delivery::SendNoWait);
    assert_eq!(delivery(SendMode::NoWait, true), Delivery::Simulate);
    assert_eq!(Delivery::Simulate.call(), Call::Simulate);
    assert_eq!(Delivery::SendNoWait.call(), Call::SendNoWait);
    assert_eq!(Delivery::SendAndConfirm.call(), Call::SendAndConfirm);
}

#[test]
fn fee_payer_balance_100_required_fee_150_emits_no_transaction() {
    let (submission, request) = Submission::start(
        settings(None, ComputeUnitLimit::Static(250_000)),
        base(),
        0,
        Delivery::SendAndConfirm,
    );
    assert_eq!(request, Request::LatestBlockhash);
    let (submission, request) =
        expect_continue(submission.advance(Reply::LatestBlockhash(Ok(Blockhash([1; 32])))));
    assert!(matches!(request, Request::FeeForMessage(_)));
    let (submission, request) = expect_continue(submission.advance(Reply::Fee(Ok(150))));
    assert_eq!(request, Request::Balance(payer()));
    assert_eq!(
        submission.advance(Reply::Balance(Ok(100))),
        SubmissionProgress::Finished(Err(UpdateError::InsufficientBalance {
            required: 150,
            available: 100
        }))
    );
}

#[test]
fn static_limit_submission_runs_to_delivery() {
    let (submission, _) = Submission::start(
        settings(Some(3), ComputeUnitLimit::Static(250_000)),
        base(),
        0,
        Delivery::SendNoWait,
    );
    let hash = Blockhash([5; 32]);
    let (submission, request) = expect_continue(submission.advance(Reply::LatestBlockhash(Ok(hash))));
    let expected = TransactionRequest {
        instructions: vec![
            base()[0].clone(),
            ComputeBudgetInstruction::set_compute_unit_price(3),
            ComputeBudgetInstruction::set_compute_unit_limit(250_000),
        ],
        fee_payer: payer(),
        compute_unit_limit: ComputeUnitLimit::Static(250_000),
        blockhash: hash,
    };
    assert_eq!(request, Request::FeeForMessage(expected.clone()));
    let (submission, request) = expect_continue(submission.advance(Reply::Fee(Ok(5_000))));
    assert_eq!(request, Request::Balance(payer()));
    let (submission, request) = expect_continue(submission.advance(Reply::Balance(Ok(5_000))));
    assert_eq!(request, Request::Submit(expected, Delivery::SendNoWait));
    assert_eq!(submission.phase, SubmissionPhase::AwaitingDelivery);
    assert_eq!(
        submission.advance(Reply::Submitted(Ok(()))),
        SubmissionProgress::Finished(Ok(()))
    );
}

#[test]
fn simulated_limit_is_measured_then_written() {
    let (submission, _) = Submission::start(
        settings(None, ComputeUnitLimit::Simulated),
        base(),
        0,
        Delivery::SendAndConfirm,
    );
    let hash = Blockhash([6; 32]);
    let (submission, request) = expect_continue(submission.advance(Reply::LatestBlockhash(Ok(hash))));
    let simulated = match request {
        Request::Simulate(transaction) => transaction,
        other => panic!("expected a simulation, got {:?}", other),
    };
    assert_eq!(simulated.instructions.len(), 2);
    assert_eq!(
        simulated.instructions[1],
        ComputeBudgetInstruction::set_compute_unit_limit(1_400_000)
    );
    let (submission, request) =
        expect_continue(submission.advance(Reply::Simulated(Ok(Some(77_000)))));
    let priced = match request {
        Request::FeeForMessage(transaction) => transaction,
        other => panic!("expected a fee request, got {:?}", other),
    };
    assert_eq!(priced.instructions.len(), simulated.instructions.len());
    assert_eq!(priced.instructions[0], simulated.instructions[0]);
    assert_eq!(priced.instructions[1], ComputeBudgetInstruction::set_compute_unit_limit(77_000));
    assert_eq!(priced.blockhash, hash);
    let (submission, _) = expect_continue(submission.advance(Reply::Fee(Ok(10))));
    let (_, request) = expect_continue(submission.advance(Reply::Balance(Ok(10))));
    assert_eq!(request, Request::Submit(priced, Delivery::SendAndConfirm));
}

#[test]
fn additional_fee_is_held_in_reserve() {
    let (submission, _) = Submission::start(
        settings(None, ComputeUnitLimit::Default),
        base(),
        1_000,
        Delivery::SendAndConfirm,
    );
    let (submission, _) =
        expect_continue(submission.advance(Reply::LatestBlockhash(Ok(Blockhash([0; 32])))));
    let (submission, _) = expect_continue(submission.advance(Reply::Fee(Ok(150))));
    assert_eq!(
        submission.advance(Reply::Balance(Ok(1_149))),
        SubmissionProgress::Finished(Err(UpdateError::InsufficientBalance {
            required: 1_150,
            available: 1_149
        }))
    );
}

fn at_phase(limit: ComputeUnitLimit, replies: Vec<Reply>) -> Submission {
    let (mut submission, _) = Submission::start(settings(None, limit), base(), 0, Delivery::SendNoWait);
    for reply in replies {
        submission = expect_continue(submission.advance(reply)).0;
    }
    submission
}

#[test]
fn each_failed_call_ends_the_submission_with_its_error() {
    let hash = || Reply::LatestBlockhash(Ok(Blockhash([1; 32])));
    assert_eq!(
        at_phase(ComputeUnitLimit::Default, vec![]).advance(Reply::LatestBlockhash(Err(TransportError))),
        SubmissionProgress::Finished(Err(UpdateError::Transport(Call::LatestBlockhash)))
    );
    assert_eq!(
        at_phase(ComputeUnitLimit::Simulated, vec![hash()]).advance(Reply::Simulated(Err(TransportError))),
        SubmissionProgress::Finished(Err(UpdateError::Transport(Call::Simulate)))
    );
    assert_eq!(
        at_phase(ComputeUnitLimit::Simulated, vec![hash()]).advance(Reply::Simulated(Ok(None))),
        SubmissionProgress::Finished(Err(UpdateError::Simulation))
    );
    assert_eq!(
        at_phase(ComputeUnitLimit::Default, vec![hash()]).advance(Reply::Fee(Err(TransportError))),
        SubmissionProgress::Finished(Err(UpdateError::FeeEstimation))
    );
    assert_eq!(
        at_phase(ComputeUnitLimit::Default, vec![hash(), Reply::Fee(Ok(1))])
            .advance(Reply::Balance(Err(TransportError))),
        SubmissionProgress::Finished(Err(UpdateError::Transport(Call::Balance)))
    );
    assert_eq!(
        at_phase(ComputeUnitLimit::Default, vec![hash(), Reply::Fee(Ok(1)), Reply::Balance(Ok(1))])
            .advance(Reply::Submitted(Err(TransportError))),
        SubmissionProgress::Finished(Err(UpdateError::Transport(Call::SendNoWait)))
    );
}

#[test]
fn reply_to_another_request_ends_the_submission() {
    assert_eq!(
        at_phase(ComputeUnitLimit::Default, vec![]).advance(Reply::Fee(Ok(1))),
        SubmissionProgress::Finished(Err(UpdateError::UnexpectedReply))
    );
    assert_eq!(
        at_phase(ComputeUnitLimit::Default, vec![Reply::LatestBlockhash(Ok(Blockhash([1; 32])))])
            .advance(Reply::Balance(Ok(1))),
        SubmissionProgress::Finished(Err(UpdateError::UnexpectedReply))
    );
    assert_eq!(
        at_phase(ComputeUnitLimit::Default, vec![]).advance(Reply::Slept),
        SubmissionProgress::Finished(Err(UpdateError::UnexpectedReply))
    );
}

#[test]
fn decimal_text_is_that_of_std() {
    for number in [0u64, 1, 9, 10, 11, 99, 100, 500, 501, 65_535, 1_000_000_007, u64::MAX] {
        assert_eq!(decimal_text(number), number.to_string());
    }
    assert_eq!(decimal_text(501), "501");
}

#[test]
fn notification_texts() {
    assert_eq!(
        Notification::EpochInfoUnavailable.text(),
        "Rpc is failing to get the latest epoch info. Retrying again in 5 minutes"
    );
    assert_eq!(
        Notification::UpdateStarting { pool: "PoolA".to_string(), epoch: 501 }.text(),
        "Epoch changed, executing update for stake pool PoolA for epoch 501"
    );
    assert_eq!(
        Notification::UpdateSucceeded { pool: "PoolA".to_string(), epoch: 501 }.text(),
        "Successfully updated stake pool PoolA for epoch 501"
    );
    assert_eq!(
        Notification::UpdateFailed { pool: "PoolA".to_string() }.text(),
        "Failed to run command to update stake pool PoolA"
    );
    let first = Notification::UpdateStarting { pool: "p".to_string(), epoch: 0 };
    assert_eq!(first.duplicate(), first);
}
