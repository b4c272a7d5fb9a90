//! The transaction builder: how one transaction is assembled under its
//! compute budget, and that the fee payer can afford it before it is signed.

use crate::address::Address;
use crate::error::{Call, UpdateError};
use crate::instruction::{instruction_views, Instruction, InstructionView};
use crate::transport::{
    call_of, ComputeUnitLimit, Delivery, Reply, ReplyView, Request, RequestView,
    TransactionRequest, TransactionRequestView,
};
use crate::utils::compute_budget::{budget_instruction, encoding, ComputeBudgetInstruction};
use vstd::prelude::*;

verus! {

/// The most compute units that a transaction can be given. A transaction is
/// simulated under this limit to measure what it consumes.
pub const MAX_COMPUTE_UNIT_LIMIT: u32 = 1_400_000;

/// The instructions of a transaction: the base instructions, then the price
/// of a compute unit where one is configured, then the limit on compute
/// units where one is set. A simulated limit starts out as the maximum.
pub open spec fn assembled(
    base: Seq<InstructionView>,
    price: Option<u64>,
    limit: ComputeUnitLimit,
) -> Seq<InstructionView> {
    let priced = match price {
        Some(micro_lamports) => base.push(
            budget_instruction(ComputeBudgetInstruction::SetComputeUnitPrice(micro_lamports)),
        ),
        None => base,
    };
    match limit {
        ComputeUnitLimit::Default => priced,
        ComputeUnitLimit::Static(units) => priced.push(
            budget_instruction(ComputeBudgetInstruction::SetComputeUnitLimit(units)),
        ),
        ComputeUnitLimit::Simulated => priced.push(
            budget_instruction(ComputeBudgetInstruction::SetComputeUnitLimit(MAX_COMPUTE_UNIT_LIMIT)),
        ),
    }
}

/// The limit that a simulation gives: the units it consumed, where it
/// reports them and they fit a `u32`.
pub open spec fn measured_limit(units_consumed: Option<u64>) -> Option<u32> {
    match units_consumed {
        Some(units) => if units <= u32::MAX {
            Some(units as u32)
        } else {
            None
        },
        None => None,
    }
}

/// The instructions with the data of the last one replaced by a limit of
/// `units` compute units. Nothing else changes.
pub open spec fn with_measured_limit(instructions: Seq<InstructionView>, units: u32) -> Seq<
    InstructionView,
>
    recommends
        instructions.len() > 0,
{
    let last = instructions.len() - 1;
    instructions.update(
        last,
        InstructionView {
            program_id: instructions[last].program_id,
            accounts: instructions[last].accounts,
            data: encoding(ComputeBudgetInstruction::SetComputeUnitLimit(units)),
        },
    )
}

/// What the fee payer must hold: the fee and the reserve, capped at the
/// largest amount there is.
pub open spec fn required_balance(additional_fee: u64, fee: u64) -> u64 {
    if additional_fee + fee > u64::MAX {
        u64::MAX
    } else {
        (additional_fee + fee) as u64
    }
}

/// Whether the fee payer can afford a transaction.
pub open spec fn balance_check(balance: u64, required: u64) -> Result<(), UpdateError> {
    if balance < required {
        Err(UpdateError::InsufficientBalance { required, available: balance })
    } else {
        Ok(())
    }
}

proof fn lemma_views_push(list: Seq<Instruction>, last: Instruction)
    ensures
        instruction_views(list.push(last)) == instruction_views(list).push(last@),
{
    assert(instruction_views(list.push(last)) =~= instruction_views(list).push(last@));
}

/// Appends the compute budget instructions to the base instructions.
pub fn assemble_instructions(
    base: Vec<Instruction>,
    price: Option<u64>,
    limit: ComputeUnitLimit,
) -> (instructions: Vec<Instruction>)
    ensures
        instruction_views(instructions@) == assembled(instruction_views(base@), price, limit),
{
    let mut instructions = base;
    match price {
        Some(micro_lamports) => {
            let instruction = ComputeBudgetInstruction::set_compute_unit_price(micro_lamports);
            proof {
                lemma_views_push(instructions@, instruction);
            }
            instructions.push(instruction);
        },
        None => {},
    }
    match limit {
        ComputeUnitLimit::Default => {},
        ComputeUnitLimit::Static(units) => {
            let instruction = ComputeBudgetInstruction::set_compute_unit_limit(units);
            proof {
                lemma_views_push(instructions@, instruction);
            }
            instructions.push(instruction);
        },
        ComputeUnitLimit::Simulated => {
            let instruction = ComputeBudgetInstruction::set_compute_unit_limit(
                MAX_COMPUTE_UNIT_LIMIT,
            );
            proof {
                lemma_views_push(instructions@, instruction);
            }
            instructions.push(instruction);
        },
    }
    instructions
}

/// Writes the compute units that a simulation consumed into the limit
/// instruction, which is the last one. Without a usable count nothing is
/// written and the transaction fails.
pub fn add_compute_unit_limit_from_simulation(
    instructions: &mut Vec<Instruction>,
    units_consumed: Option<u64>,
) -> (result: Result<(), UpdateError>)
    requires
        old(instructions)@.len() > 0,
    ensures
        final(instructions)@.len() == old(instructions)@.len(),
        match measured_limit(units_consumed) {
            Some(units) => result is Ok && instruction_views(final(instructions)@)
                == with_measured_limit(instruction_views(old(instructions)@), units),
            None => result == Err::<(), UpdateError>(UpdateError::Simulation)
                && final(instructions)@ == old(instructions)@,
        },
{
    let units: u64 = match units_consumed {
        Some(units) => units,
        None => {
            return Err(UpdateError::Simulation);
        },
    };
    if units > 0xFFFF_FFFF {
        return Err(UpdateError::Simulation);
    }
    let limit: u32 = units as u32;
    let ghost before = instructions@;
    let last = instructions.pop();
    match last {
        Some(mut instruction) => {
            instruction.data = ComputeBudgetInstruction::SetComputeUnitLimit(limit).pack();
            instructions.push(instruction);
            proof {
                assert(instruction_views(instructions@) =~= with_measured_limit(
                    instruction_views(before),
                    limit,
                ));
            }
        },
        None => {},
    }
    Ok(())
}

/// What the fee payer must hold for a transaction with this fee.
pub fn required_fee_payer_balance(additional_fee: u64, fee: u64) -> (required: u64)
    ensures
        required == required_balance(additional_fee, fee),
{
    additional_fee.saturating_add(fee)
}

/// Checks that the fee payer holds what a transaction needs. A shortfall
/// names both amounts.
pub fn check_fee_payer_balance(balance: u64, required_balance: u64) -> (result: Result<
    (),
    UpdateError,
>)
    ensures
        result == balance_check(balance, required_balance),
{
    if balance < required_balance {
        Err(UpdateError::InsufficientBalance { required: required_balance, available: balance })
    } else {
        Ok(())
    }
}

/// What every transaction of an update is built with.
#[derive(Clone, Copy, Debug, PartialEq, Eq)]
pub struct BuildSettings {
    pub fee_payer: Address,
    pub compute_unit_price: Option<u64>,
    pub compute_unit_limit: ComputeUnitLimit,
}

/// Where the making of one transaction stands.
#[derive(Debug, PartialEq, Eq)]
pub enum SubmissionPhase {
    /// A recent block hash has been asked for.
    AwaitingBlockhash { instructions: Vec<Instruction> },
    /// The transaction is being simulated under the maximum limit.
    AwaitingSimulation { transaction: TransactionRequest },
    /// The fee of the assembled message has been asked for.
    AwaitingFee { transaction: TransactionRequest },
    /// The fee payer's balance has been asked for.
    AwaitingBalance { transaction: TransactionRequest, fee: u64 },
    /// The transaction has been handed over to be signed and delivered.
    AwaitingDelivery,
}

/// A submission phase, in views.
pub enum SubmissionPhaseView {
    AwaitingBlockhash { instructions: Seq<InstructionView> },
    AwaitingSimulation { transaction: TransactionRequestView },
    AwaitingFee { transaction: TransactionRequestView },
    AwaitingBalance { transaction: TransactionRequestView, fee: u64 },
    AwaitingDelivery,
}

impl View for SubmissionPhase {
    type V = SubmissionPhaseView;

    open spec fn view(&self) -> SubmissionPhaseView {
        match *self {
            SubmissionPhase::AwaitingBlockhash { instructions } => SubmissionPhaseView::AwaitingBlockhash {
                instructions: instruction_views(instructions@),
            },
            SubmissionPhase::AwaitingSimulation { transaction } => SubmissionPhaseView::AwaitingSimulation {
                transaction: transaction@,
            },
            SubmissionPhase::AwaitingFee { transaction } => SubmissionPhaseView::AwaitingFee {
                transaction: transaction@,
            },
            SubmissionPhase::AwaitingBalance { transaction, fee } => SubmissionPhaseView::AwaitingBalance {
                transaction: transaction@,
                fee,
            },
            SubmissionPhase::AwaitingDelivery => SubmissionPhaseView::AwaitingDelivery,
        }
    }
}

/// One transaction on its way from instructions to delivery.
#[derive(Debug, PartialEq, Eq)]
pub struct Submission {
    pub settings: BuildSettings,
    /// What the fee payer must hold beyond the fee.
    pub additional_fee: u64,
    /// What is done with the transaction once it is affordable.
    pub delivery: Delivery,
    pub phase: SubmissionPhase,
}

/// A submission, in views.
pub struct SubmissionView {
    pub settings: BuildSettings,
    pub additional_fee: u64,
    pub delivery: Delivery,
    pub phase: SubmissionPhaseView,
}

impl View for Submission {
    type V = SubmissionView;

    open spec fn view(&self) -> SubmissionView {
        SubmissionView {
            settings: self.settings,
            additional_fee: self.additional_fee,
            delivery: self.delivery,
            phase: self.phase@,
        }
    }
}

/// What a step of a submission leads to.
#[derive(Debug, PartialEq, Eq)]
pub enum SubmissionProgress {
    /// The submission goes on once this request is answered.
    Continue(Submission, Request),
    /// The submission is over: the transaction was delivered, or it failed.
    Finished(Result<(), UpdateError>),
}

/// Progress of a submission, in views.
pub enum SubmissionProgressView {
    Continue(SubmissionView, RequestView),
    Finished(Result<(), UpdateError>),
}

impl View for SubmissionProgress {
    type V = SubmissionProgressView;

    open spec fn view(&self) -> SubmissionProgressView {
        match *self {
            SubmissionProgress::Continue(submission, request) => SubmissionProgressView::Continue(
                submission@,
                request@,
            ),
            SubmissionProgress::Finished(result) => SubmissionProgressView::Finished(result),
        }
    }
}

impl SubmissionView {
    /// The submission in another phase.
    pub open spec fn in_phase(self, phase: SubmissionPhaseView) -> SubmissionView {
        SubmissionView {
            settings: self.settings,
            additional_fee: self.additional_fee,
            delivery: self.delivery,
            phase,
        }
    }

    /// A transaction under simulation ends in its limit instruction.
    pub open spec fn wf(self) -> bool {
        match self.phase {
            SubmissionPhaseView::AwaitingSimulation { transaction } => transaction.instructions.len()
                > 0,
            _ => true,
        }
    }
}

/// The submission of `instructions`, before its first request is answered.
pub open spec fn submission_start(
    settings: BuildSettings,
    instructions: Seq<InstructionView>,
    additional_fee: u64,
    delivery: Delivery,
) -> SubmissionView {
    SubmissionView {
        settings,
        additional_fee,
        delivery,
        phase: SubmissionPhaseView::AwaitingBlockhash { instructions },
    }
}

/// The step that a reply to the block hash request leads to: the
/// transaction is assembled, and simulated where its limit is to be
/// measured, priced otherwise.
pub open spec fn on_blockhash(
    submission: SubmissionView,
    instructions: Seq<InstructionView>,
    reply: ReplyView,
) -> SubmissionProgressView {
    match reply {
        ReplyView::LatestBlockhash(Ok(blockhash)) => {
            let transaction = TransactionRequestView {
                instructions: assembled(
                    instructions,
                    submission.settings.compute_unit_price,
                    submission.settings.compute_unit_limit,
                ),
                fee_payer: submission.settings.fee_payer,
                compute_unit_limit: submission.settings.compute_unit_limit,
                blockhash,
            };
            if submission.settings.compute_unit_limit is Simulated {
                SubmissionProgressView::Continue(
                    submission.in_phase(SubmissionPhaseView::AwaitingSimulation { transaction }),
                    RequestView::Simulate(transaction),
                )
            } else {
                SubmissionProgressView::Continue(
                    submission.in_phase(SubmissionPhaseView::AwaitingFee { transaction }),
                    RequestView::FeeForMessage(transaction),
                )
            }
        },
        ReplyView::LatestBlockhash(Err(_)) => SubmissionProgressView::Finished(
            Err(UpdateError::Transport(Call::LatestBlockhash)),
        ),
        _ => SubmissionProgressView::Finished(Err(UpdateError::UnexpectedReply)),
    }
}

/// The step that a reply to the simulation leads to: the measured limit is
/// written into the last instruction and the transaction is priced.
pub open spec fn on_simulation(
    submission: SubmissionView,
    transaction: TransactionRequestView,
    reply: ReplyView,
) -> SubmissionProgressView {
    match reply {
        ReplyView::Simulated(Ok(units_consumed)) => match measured_limit(units_consumed) {
            Some(units) => if transaction.instructions.len() > 0 {
                let corrected = TransactionRequestView {
                    instructions: with_measured_limit(transaction.instructions, units),
                    fee_payer: transaction.fee_payer,
                    compute_unit_limit: transaction.compute_unit_limit,
                    blockhash: transaction.blockhash,
                };
                SubmissionProgressView::Continue(
                    submission.in_phase(SubmissionPhaseView::AwaitingFee { transaction: corrected }),
                    RequestView::FeeForMessage(corrected),
                )
            } else {
                SubmissionProgressView::Finished(Err(UpdateError::Simulation))
            },
            None => SubmissionProgressView::Finished(Err(UpdateError::Simulation)),
        },
        ReplyView::Simulated(Err(_)) => SubmissionProgressView::Finished(
            Err(UpdateError::Transport(Call::Simulate)),
        ),
        _ => SubmissionProgressView::Finished(Err(UpdateError::UnexpectedReply)),
    }
}

/// The step that a reply to the fee request leads to.
pub open spec fn on_fee(
    submission: SubmissionView,
    transaction: TransactionRequestView,
    reply: ReplyView,
) -> SubmissionProgressView {
    match reply {
        ReplyView::Fee(Ok(fee)) => SubmissionProgressView::Continue(
            submission.in_phase(SubmissionPhaseView::AwaitingBalance { transaction, fee }),
            RequestView::Balance(submission.settings.fee_payer),
        ),
        ReplyView::Fee(Err(_)) => SubmissionProgressView::Finished(Err(UpdateError::FeeEstimation)),
        _ => SubmissionProgressView::Finished(Err(UpdateError::UnexpectedReply)),
    }
}

/// The step that a reply to the balance request leads to: the transaction
/// is handed over only if the fee payer can afford it.
pub open spec fn on_balance(
    submission: SubmissionView,
    transaction: TransactionRequestView,
    fee: u64,
    reply: ReplyView,
) -> SubmissionProgressView {
    match reply {
        ReplyView::Balance(Ok(balance)) => match balance_check(
            balance,
            required_balance(submission.additional_fee, fee),
        ) {
            Ok(_) => SubmissionProgressView::Continue(
                submission.in_phase(SubmissionPhaseView::AwaitingDelivery),
                RequestView::Submit(transaction, submission.delivery),
            ),
            Err(shortfall) => SubmissionProgressView::Finished(Err(shortfall)),
        },
        ReplyView::Balance(Err(_)) => SubmissionProgressView::Finished(
            Err(UpdateError::Transport(Call::Balance)),
        ),
        _ => SubmissionProgressView::Finished(Err(UpdateError::UnexpectedReply)),
    }
}

/// The step that a reply to the delivery leads to.
pub open spec fn on_delivery(submission: SubmissionView, reply: ReplyView) -> SubmissionProgressView {
    match reply {
        ReplyView::Submitted(Ok(_)) => SubmissionProgressView::Finished(Ok(())),
        ReplyView::Submitted(Err(_)) => SubmissionProgressView::Finished(
            Err(UpdateError::Transport(call_of(submission.delivery))),
        ),
        _ => SubmissionProgressView::Finished(Err(UpdateError::UnexpectedReply)),
    }
}

/// The step that a reply leads to. A reply that does not answer the pending
/// request ends the submission.
pub open spec fn submission_step(submission: SubmissionView, reply: ReplyView) -> SubmissionProgressView {
    match submission.phase {
        SubmissionPhaseView::AwaitingBlockhash { instructions } => on_blockhash(
            submission,
            instructions,
            reply,
        ),
        SubmissionPhaseView::AwaitingSimulation { transaction } => on_simulation(
            submission,
            transaction,
            reply,
        ),
        SubmissionPhaseView::AwaitingFee { transaction } => on_fee(submission, transaction, reply),
        SubmissionPhaseView::AwaitingBalance { transaction, fee } => on_balance(
            submission,
            transaction,
            fee,
            reply,
        ),
        SubmissionPhaseView::AwaitingDelivery => on_delivery(submission, reply),
    }
}

impl Submission {
    /// Begins the submission of `instructions`: asks for a recent block hash.
    pub fn start(
        settings: BuildSettings,
        instructions: Vec<Instruction>,
        additional_fee: u64,
        delivery: Delivery,
    ) -> (begun: (Submission, Request))
        ensures
            begun.0@ == submission_start(
                settings,
                instruction_views(instructions@),
                additional_fee,
                delivery,
            ),
            begun.1@ == RequestView::LatestBlockhash,
            begun.0@.wf(),
    {
        (
            Submission {
                settings,
                additional_fee,
                delivery,
                phase: SubmissionPhase::AwaitingBlockhash { instructions },
            },
            Request::LatestBlockhash,
        )
    }

    /// Takes the reply to the pending request and says what comes next.
    pub fn advance(self, reply: Reply) -> (progress: SubmissionProgress)
        ensures
            progress@ == submission_step(self@, reply@),
            progress@ matches SubmissionProgressView::Continue(next, _) ==> next.wf(),
    {
        proof {
            match submission_step(self@, reply@) {
                SubmissionProgressView::Continue(next, request) => {
                    lemma_submission_step_keeps_wf(self@, reply@, next, request);
                },
                _ => {},
            }
        }
        let settings = self.settings;
        let additional_fee = self.additional_fee;
        let delivery = self.delivery;
        match self.phase {
            SubmissionPhase::AwaitingBlockhash { instructions } => match reply {
                Reply::LatestBlockhash(Ok(blockhash)) => {
                    let transaction = TransactionRequest {
                        instructions: assemble_instructions(
                            instructions,
                            settings.compute_unit_price,
                            settings.compute_unit_limit,
                        ),
                        fee_payer: settings.fee_payer,
                        compute_unit_limit: settings.compute_unit_limit,
                        blockhash,
                    };
                    let copy = transaction.clone();
                    match settings.compute_unit_limit {
                        ComputeUnitLimit::Simulated => SubmissionProgress::Continue(
                            Submission {
                                settings,
                                additional_fee,
                                delivery,
                                phase: SubmissionPhase::AwaitingSimulation { transaction },
                            },
                            Request::Simulate(copy),
                        ),
                        _ => SubmissionProgress::Continue(
                            Submission {
                                settings,
                                additional_fee,
                                delivery,
                                phase: SubmissionPhase::AwaitingFee { transaction },
                            },
                            Request::FeeForMessage(copy),
                        ),
                    }
                },
                Reply::LatestBlockhash(Err(_)) => SubmissionProgress::Finished(
                    Err(UpdateError::Transport(Call::LatestBlockhash)),
                ),
                _ => SubmissionProgress::Finished(Err(UpdateError::UnexpectedReply)),
            },
            SubmissionPhase::AwaitingSimulation { transaction } => match reply {
                Reply::Simulated(Ok(units_consumed)) => {
                    let mut transaction = transaction;
                    if transaction.instructions.len() == 0 {
                        return SubmissionProgress::Finished(Err(UpdateError::Simulation));
                    }
                    match add_compute_unit_limit_from_simulation(
                        &mut transaction.instructions,
                        units_consumed,
                    ) {
                        Ok(_) => {
                            let copy = transaction.clone();
                            SubmissionProgress::Continue(
                                Submission {
                                    settings,
                                    additional_fee,
                                    delivery,
                                    phase: SubmissionPhase::AwaitingFee { transaction },
                                },
                                Request::FeeForMessage(copy),
                            )
                        },
                        Err(error) => SubmissionProgress::Finished(Err(error)),
                    }
                },
                Reply::Simulated(Err(_)) => SubmissionProgress::Finished(
                    Err(UpdateError::Transport(Call::Simulate)),
                ),
                _ => SubmissionProgress::Finished(Err(UpdateError::UnexpectedReply)),
            },
            SubmissionPhase::AwaitingFee { transaction } => match reply {
                Reply::Fee(Ok(fee)) => SubmissionProgress::Continue(
                    Submission {
                        settings,
                        additional_fee,
                        delivery,
                        phase: SubmissionPhase::AwaitingBalance { transaction, fee },
                    },
                    Request::Balance(settings.fee_payer),
                ),
                Reply::Fee(Err(_)) => SubmissionProgress::Finished(Err(UpdateError::FeeEstimation)),
                _ => SubmissionProgress::Finished(Err(UpdateError::UnexpectedReply)),
            },
            SubmissionPhase::AwaitingBalance { transaction, fee } => match reply {
                Reply::Balance(Ok(balance)) => {
                    let required = required_fee_payer_balance(additional_fee, fee);
                    match check_fee_payer_balance(balance, required) {
                        Ok(_) => SubmissionProgress::Continue(
                            Submission {
                                settings,
                                additional_fee,
                                delivery,
                                phase: SubmissionPhase::AwaitingDelivery,
                            },
                            Request::Submit(transaction, delivery),
                        ),
                        Err(shortfall) => SubmissionProgress::Finished(Err(shortfall)),
                    }
                },
                Reply::Balance(Err(_)) => SubmissionProgress::Finished(
                    Err(UpdateError::Transport(Call::Balance)),
                ),
                _ => SubmissionProgress::Finished(Err(UpdateError::UnexpectedReply)),
            },
            SubmissionPhase::AwaitingDelivery => match reply {
                Reply::Submitted(Ok(_)) => SubmissionProgress::Finished(Ok(())),
                Reply::Submitted(Err(_)) => SubmissionProgress::Finished(
                    Err(UpdateError::Transport(delivery.call())),
                ),
                _ => SubmissionProgress::Finished(Err(UpdateError::UnexpectedReply)),
            },
        }
    }
}

/// A limit that is to be measured enters the transaction as its last
/// instruction, set to the maximum.
pub proof fn lemma_provisional_limit_is_last(base: Seq<InstructionView>, price: Option<u64>)
    ensures
        assembled(base, price, ComputeUnitLimit::Simulated).len() > 0,
        assembled(base, price, ComputeUnitLimit::Simulated).last() == budget_instruction(
            ComputeBudgetInstruction::SetComputeUnitLimit(MAX_COMPUTE_UNIT_LIMIT),
        ),
{
}

/// The measured limit is written once, into the last instruction, and is
/// exactly what the simulation consumed: the transaction that is priced
/// next has as many instructions as the one that was simulated, they are
/// the same but for the data of the last, and that data is a limit of the
/// units reported.
pub proof fn lemma_measured_limit_is_written(
    submission: SubmissionView,
    transaction: TransactionRequestView,
    units: u64,
)
    requires
        submission.phase == (SubmissionPhaseView::AwaitingSimulation { transaction }),
        submission.wf(),
        units <= u32::MAX,
    ensures
        ({
            let reply = ReplyView::Simulated(Ok(Some(units)));
            let count = transaction.instructions.len() as int;
            &&& submission_step(submission, reply) matches SubmissionProgressView::Continue(
                next,
                request,
            )
            &&& request matches RequestView::FeeForMessage(priced)
            &&& next.phase == (SubmissionPhaseView::AwaitingFee { transaction: priced })
            &&& priced.instructions.len() == count
            &&& priced.instructions[count - 1].data == encoding(
                ComputeBudgetInstruction::SetComputeUnitLimit(units as u32),
            )
            &&& priced.instructions[count - 1].program_id == transaction.instructions[count
                - 1].program_id
            &&& priced.instructions[count - 1].accounts == transaction.instructions[count
                - 1].accounts
            &&& forall|i: int|
                0 <= i < count - 1 ==> priced.instructions[i] == transaction.instructions[i]
            &&& priced.fee_payer == transaction.fee_payer
            &&& priced.blockhash == transaction.blockhash
        }),
{
}

/// Once a transaction is priced, it is handed on as it is: the transaction
/// that is submitted is the one whose fee was asked for.
pub proof fn lemma_priced_transaction_is_submitted(
    submission: SubmissionView,
    reply: ReplyView,
    next: SubmissionView,
    request: RequestView,
)
    requires
        submission_step(submission, reply) == SubmissionProgressView::Continue(next, request),
    ensures
        submission.phase matches SubmissionPhaseView::AwaitingFee { transaction } ==> next.phase
            matches SubmissionPhaseView::AwaitingBalance { transaction: kept, .. } && kept
            == transaction,
        submission.phase matches SubmissionPhaseView::AwaitingBalance { transaction, .. }
            ==> request == RequestView::Submit(transaction, submission.delivery),
{
}

/// A transaction reaches the send path only after the fee payer's balance
/// was found to cover its fee and the reserve.
pub proof fn lemma_submitted_only_when_affordable(
    submission: SubmissionView,
    reply: ReplyView,
    next: SubmissionView,
    request: RequestView,
)
    requires
        submission_step(submission, reply) == SubmissionProgressView::Continue(next, request),
        request.is_submission(),
    ensures
        submission.phase matches SubmissionPhaseView::AwaitingBalance { transaction, fee } && reply
            matches ReplyView::Balance(Ok(balance)) && balance >= required_balance(
            submission.additional_fee,
            fee,
        ) && balance >= fee && request == RequestView::Submit(transaction, submission.delivery),
{
}

/// A fee payer that holds less than the fee and the reserve ends the
/// submission: the error names what was required and what was available,
/// and nothing is handed over. A balance below the fee alone is such a
/// balance.
pub proof fn lemma_shortfall_ends_submission(
    submission: SubmissionView,
    transaction: TransactionRequestView,
    fee: u64,
    balance: u64,
)
    requires
        submission.phase == (SubmissionPhaseView::AwaitingBalance { transaction, fee }),
        balance < required_balance(submission.additional_fee, fee) || balance < fee,
    ensures
        submission_step(submission, ReplyView::Balance(Ok(balance)))
            == SubmissionProgressView::Finished(
            Err(
                UpdateError::InsufficientBalance {
                    required: required_balance(submission.additional_fee, fee),
                    available: balance,
                },
            ),
        ),
{
}

/// A submission ends well only when its transaction has been handed over
/// and the delivery has come back without an error.
pub proof fn lemma_submission_ends_with_delivery(submission: SubmissionView, reply: ReplyView)
    requires
        submission_step(submission, reply) == SubmissionProgressView::Finished(Ok(())),
    ensures
        submission.phase is AwaitingDelivery,
        reply == ReplyView::Submitted(Ok(())),
{
    match submission.phase {
        SubmissionPhaseView::AwaitingBlockhash { instructions } => {},
        SubmissionPhaseView::AwaitingSimulation { transaction } => {},
        SubmissionPhaseView::AwaitingFee { transaction } => {},
        SubmissionPhaseView::AwaitingBalance { transaction, fee } => {},
        SubmissionPhaseView::AwaitingDelivery => {
            match reply {
                ReplyView::Submitted(Ok(done)) => {
                    assert(done == ());
                },
                _ => {},
            }
        },
    }
}

/// A step keeps a submission well formed, and changes neither its
/// settings, nor its reserve, nor the way it is delivered.
pub proof fn lemma_submission_step_keeps_wf(
    submission: SubmissionView,
    reply: ReplyView,
    next: SubmissionView,
    request: RequestView,
)
    requires
        submission_step(submission, reply) == SubmissionProgressView::Continue(next, request),
    ensures
        next.wf(),
        next.settings == submission.settings,
        next.additional_fee == submission.additional_fee,
        next.delivery == submission.delivery,
{
}

} // verus!
