//! The submission pipeline: one pool's update, from the reading of its
//! state to the confirmation of its last transaction.
//!
//! The list-update transactions go out one after the other. All but the
//! last are sent without waiting, with a pause after each; the last one and
//! the final transaction are each confirmed before anything follows. The
//! first failure ends the update.

use crate::address::Address;
use crate::builder::{
    submission_start, submission_step, BuildSettings, Submission, SubmissionProgress,
    SubmissionProgressView, SubmissionView,
};
use crate::client::{
    get_stake_pool, get_validator_list, pool_read_view, read_stake_pool, read_validator_list,
    StakePoolSnapshot, StakePoolSnapshotView,
};
use crate::error::{Call, UpdateError};
use crate::instruction::{clone_instructions, instruction_views, Instruction, InstructionView};
use crate::plan::{plan_update, plan_view, planned, UpdatePlan, UpdatePlanView};
use crate::transport::{
    delivery, delivery_for, ComputeUnitLimit, Delivery, Reply, ReplyView, Request, RequestView,
    SendMode,
};
use vstd::prelude::*;

verus! {

/// The seconds to wait after a send that is not confirmed, so that the
/// transport's rate limits are kept.
pub const PACING_DELAY_SECONDS: u64 = 30;

/// What an update is run with.
#[derive(Clone, Copy, Debug, PartialEq, Eq)]
pub struct UpdateSettings {
    pub stake_pool_program_id: Address,
    pub fee_payer: Address,
    /// Simulate every transaction in place of sending it.
    pub dry_run: bool,
    /// Do nothing at all.
    pub no_update: bool,
    pub compute_unit_price: Option<u64>,
    pub compute_unit_limit: ComputeUnitLimit,
}

/// How one pool is to be updated.
#[derive(Clone, Copy, Debug, PartialEq, Eq)]
pub struct UpdateOptions {
    /// Update even if the pool is up to date.
    pub force: bool,
    /// Leave transient stake unmerged.
    pub no_merge: bool,
    /// Update only the validators that lag behind the epoch.
    pub stale_only: bool,
}

/// How an update ended, where it did not fail.
#[derive(Clone, Copy, Debug, PartialEq, Eq)]
pub enum UpdateOutcome {
    /// Updates are switched off: nothing was read or sent.
    NotRequested,
    /// The pool was up to date: nothing was sent.
    UpToDate,
    /// Every transaction of the plan went through.
    Updated,
}

/// The settings that a transaction of the update is built with.
pub open spec fn build_settings(settings: UpdateSettings) -> BuildSettings {
    BuildSettings {
        fee_payer: settings.fee_payer,
        compute_unit_price: settings.compute_unit_price,
        compute_unit_limit: settings.compute_unit_limit,
    }
}

/// Where the update of one pool stands.
#[derive(Debug, PartialEq, Eq)]
pub enum UpdatePhase {
    /// The pool's account has been asked for.
    AwaitingPool,
    /// The network's epoch has been asked for.
    AwaitingEpoch { pool: StakePoolSnapshot },
    /// The account of the validator list has been asked for.
    AwaitingValidatorList { pool: StakePoolSnapshot, epoch: u64 },
    /// Transaction `batch` of the plan is on its way. The list updates are
    /// numbered from 0; the final transaction comes after them.
    Submitting { plan: UpdatePlan, batch: usize, submission: Submission },
    /// The pause before transaction `batch`.
    Pacing { plan: UpdatePlan, batch: usize },
}

/// An update phase, in views.
pub enum UpdatePhaseView {
    AwaitingPool,
    AwaitingEpoch { pool: StakePoolSnapshotView },
    AwaitingValidatorList { pool: StakePoolSnapshotView, epoch: u64 },
    Submitting { plan: UpdatePlanView, batch: usize, submission: SubmissionView },
    Pacing { plan: UpdatePlanView, batch: usize },
}

impl View for UpdatePhase {
    type V = UpdatePhaseView;

    open spec fn view(&self) -> UpdatePhaseView {
        match *self {
            UpdatePhase::AwaitingPool => UpdatePhaseView::AwaitingPool,
            UpdatePhase::AwaitingEpoch { pool } => UpdatePhaseView::AwaitingEpoch { pool: pool@ },
            UpdatePhase::AwaitingValidatorList { pool, epoch } => UpdatePhaseView::AwaitingValidatorList {
                pool: pool@,
                epoch,
            },
            UpdatePhase::Submitting { plan, batch, submission } => UpdatePhaseView::Submitting {
                plan: plan@,
                batch,
                submission: submission@,
            },
            UpdatePhase::Pacing { plan, batch } => UpdatePhaseView::Pacing { plan: plan@, batch },
        }
    }
}

/// The update of one pool.
#[derive(Debug, PartialEq, Eq)]
pub struct PoolUpdate {
    pub settings: UpdateSettings,
    pub options: UpdateOptions,
    pub pool_address: Address,
    pub phase: UpdatePhase,
}

/// The update of one pool, in views.
pub struct PoolUpdateView {
    pub settings: UpdateSettings,
    pub options: UpdateOptions,
    pub pool_address: Address,
    pub phase: UpdatePhaseView,
}

impl View for PoolUpdate {
    type V = PoolUpdateView;

    open spec fn view(&self) -> PoolUpdateView {
        PoolUpdateView {
            settings: self.settings,
            options: self.options,
            pool_address: self.pool_address,
            phase: self.phase@,
        }
    }
}

/// What a step of an update leads to.
#[derive(Debug, PartialEq, Eq)]
pub enum UpdateProgress {
    /// The update goes on once this request is answered.
    Continue(PoolUpdate, Request),
    /// The update is over.
    Finished(Result<UpdateOutcome, UpdateError>),
}

/// Progress of an update, in views.
pub enum UpdateProgressView {
    Continue(PoolUpdateView, RequestView),
    Finished(Result<UpdateOutcome, UpdateError>),
}

impl View for UpdateProgress {
    type V = UpdateProgressView;

    open spec fn view(&self) -> UpdateProgressView {
        match *self {
            UpdateProgress::Continue(update, request) => UpdateProgressView::Continue(
                update@,
                request@,
            ),
            UpdateProgress::Finished(result) => UpdateProgressView::Finished(result),
        }
    }
}

impl UpdatePlanView {
    /// How many list-update transactions the plan holds.
    pub open spec fn list_len(self) -> nat {
        self.list_updates.len()
    }

    /// The instructions of transaction `batch`: one list-update instruction,
    /// or the final instructions after the last of them.
    pub open spec fn batch_instructions(self, batch: int) -> Seq<InstructionView> {
        if 0 <= batch < self.list_updates.len() {
            seq![self.list_updates[batch]]
        } else {
            self.final_instructions
        }
    }

    /// How transaction `batch` is sent: every list update but the last
    /// without waiting; the last list update and the final transaction
    /// confirmed.
    pub open spec fn batch_mode(self, batch: int) -> SendMode {
        if batch + 1 < self.list_updates.len() {
            SendMode::NoWait
        } else {
            SendMode::Wait
        }
    }
}

impl PoolUpdateView {
    /// The update in another phase.
    pub open spec fn in_phase(self, phase: UpdatePhaseView) -> PoolUpdateView {
        PoolUpdateView {
            settings: self.settings,
            options: self.options,
            pool_address: self.pool_address,
            phase,
        }
    }

    /// The submission of transaction `batch`, before its first request.
    pub open spec fn batch_submission(self, plan: UpdatePlanView, batch: usize) -> SubmissionView {
        submission_start(
            build_settings(self.settings),
            plan.batch_instructions(batch as int),
            0,
            delivery_for(plan.batch_mode(batch as int), self.settings.dry_run),
        )
    }

    /// The step that begins transaction `batch`.
    pub open spec fn begin_batch(self, plan: UpdatePlanView, batch: usize) -> UpdateProgressView {
        UpdateProgressView::Continue(
            self.in_phase(
                UpdatePhaseView::Submitting {
                    plan,
                    batch,
                    submission: self.batch_submission(plan, batch),
                },
            ),
            RequestView::LatestBlockhash,
        )
    }

    /// The plan, where there is one, is no longer than memory allows.
    pub open spec fn plan_fits(self) -> bool {
        match self.phase {
            UpdatePhaseView::Submitting { plan, .. } => plan.list_len() <= usize::MAX,
            UpdatePhaseView::Pacing { plan, .. } => plan.list_len() <= usize::MAX,
            _ => true,
        }
    }

    /// The transaction on its way is the one that the plan holds at its
    /// place, sent as its place demands, and a pause comes only between list
    /// updates.
    pub open spec fn wf(self) -> bool {
        match self.phase {
            UpdatePhaseView::Submitting { plan, batch, submission } => {
                &&& batch <= plan.list_len() <= usize::MAX
                &&& submission.settings == build_settings(self.settings)
                &&& submission.additional_fee == 0
                &&& submission.delivery == delivery_for(
                    plan.batch_mode(batch as int),
                    self.settings.dry_run,
                )
                &&& submission.wf()
            },
            UpdatePhaseView::Pacing { plan, batch } => 0 < batch < plan.list_len() <= usize::MAX,
            _ => true,
        }
    }
}

/// The update of a pool, before its first request: nothing happens where
/// updates are switched off; otherwise the pool's account is asked for.
pub open spec fn update_start(
    settings: UpdateSettings,
    options: UpdateOptions,
    pool_address: Address,
) -> UpdateProgressView {
    if settings.no_update {
        UpdateProgressView::Finished(Ok(UpdateOutcome::NotRequested))
    } else {
        UpdateProgressView::Continue(
            PoolUpdateView { settings, options, pool_address, phase: UpdatePhaseView::AwaitingPool },
            RequestView::AccountData(pool_address),
        )
    }
}

/// The step that follows the reading of the pool: its failure ends the
/// update; otherwise the network's epoch is asked for.
pub open spec fn after_pool(
    update: PoolUpdateView,
    read: Result<StakePoolSnapshotView, UpdateError>,
) -> UpdateProgressView {
    match read {
        Ok(pool) => UpdateProgressView::Continue(
            update.in_phase(UpdatePhaseView::AwaitingEpoch { pool }),
            RequestView::EpochInfo,
        ),
        Err(error) => UpdateProgressView::Finished(Err(error)),
    }
}

/// The step that the pool's account leads to.
pub open spec fn on_pool(update: PoolUpdateView, reply: ReplyView) -> UpdateProgressView {
    match reply {
        ReplyView::AccountData(fetched) => after_pool(update, read_stake_pool(fetched)),
        _ => UpdateProgressView::Finished(Err(UpdateError::UnexpectedReply)),
    }
}

/// The step that the network's epoch leads to: a pool that was last updated
/// in this very epoch is left alone, unless the update is forced.
pub open spec fn on_epoch(
    update: PoolUpdateView,
    pool: StakePoolSnapshotView,
    reply: ReplyView,
) -> UpdateProgressView {
    match reply {
        ReplyView::EpochInfo(Ok(epoch)) => if pool.last_update_epoch == epoch
            && !update.options.force {
            UpdateProgressView::Finished(Ok(UpdateOutcome::UpToDate))
        } else {
            UpdateProgressView::Continue(
                update.in_phase(UpdatePhaseView::AwaitingValidatorList { pool, epoch }),
                RequestView::AccountData(pool.validator_list),
            )
        },
        ReplyView::EpochInfo(Err(_)) => UpdateProgressView::Finished(
            Err(UpdateError::Transport(Call::EpochInfo)),
        ),
        _ => UpdateProgressView::Finished(Err(UpdateError::UnexpectedReply)),
    }
}

/// The step that follows the planning: without a plan the update ends;
/// otherwise its first transaction is begun.
pub open spec fn after_plan(
    update: PoolUpdateView,
    made: Result<UpdatePlanView, UpdateError>,
) -> UpdateProgressView {
    match made {
        Ok(plan) => update.begin_batch(plan, 0),
        Err(error) => UpdateProgressView::Finished(Err(error)),
    }
}

/// The step that the validator list's account leads to: the list is read
/// and the update planned.
pub open spec fn on_validator_list(
    update: PoolUpdateView,
    pool: StakePoolSnapshotView,
    epoch: u64,
    reply: ReplyView,
) -> UpdateProgressView {
    match reply {
        ReplyView::AccountData(fetched) => match read_validator_list(fetched) {
            Ok(list) => after_plan(
                update,
                planned(
                    update.settings.stake_pool_program_id,
                    pool.account_data,
                    list.account_data,
                    update.pool_address,
                    update.options.no_merge,
                    update.options.stale_only,
                    epoch,
                ),
            ),
            Err(error) => UpdateProgressView::Finished(Err(error)),
        },
        _ => UpdateProgressView::Finished(Err(UpdateError::UnexpectedReply)),
    }
}

/// What follows the delivery of transaction `batch`: after the final
/// transaction the update is done; after a list update that was not waited
/// for comes the pause; after the last list update the final transaction.
pub open spec fn after_batch(update: PoolUpdateView, plan: UpdatePlanView, batch: usize) -> UpdateProgressView {
    if batch >= plan.list_len() {
        UpdateProgressView::Finished(Ok(UpdateOutcome::Updated))
    } else if batch + 1 < plan.list_len() {
        UpdateProgressView::Continue(
            update.in_phase(UpdatePhaseView::Pacing { plan, batch: (batch + 1) as usize }),
            RequestView::Sleep(PACING_DELAY_SECONDS),
        )
    } else {
        update.begin_batch(plan, (batch + 1) as usize)
    }
}

/// The step that a reply leads to while a transaction is on its way.
pub open spec fn on_submission(
    update: PoolUpdateView,
    plan: UpdatePlanView,
    batch: usize,
    submission: SubmissionView,
    reply: ReplyView,
) -> UpdateProgressView {
    match submission_step(submission, reply) {
        SubmissionProgressView::Continue(next, request) => UpdateProgressView::Continue(
            update.in_phase(UpdatePhaseView::Submitting { plan, batch, submission: next }),
            request,
        ),
        SubmissionProgressView::Finished(Ok(_)) => after_batch(update, plan, batch),
        SubmissionProgressView::Finished(Err(error)) => UpdateProgressView::Finished(Err(error)),
    }
}

/// The step that the end of a pause leads to.
pub open spec fn on_pause(
    update: PoolUpdateView,
    plan: UpdatePlanView,
    batch: usize,
    reply: ReplyView,
) -> UpdateProgressView {
    match reply {
        ReplyView::Slept => update.begin_batch(plan, batch),
        _ => UpdateProgressView::Finished(Err(UpdateError::UnexpectedReply)),
    }
}

/// The step that a reply leads to. A reply that does not answer the pending
/// request ends the update.
pub open spec fn update_step(update: PoolUpdateView, reply: ReplyView) -> UpdateProgressView {
    match update.phase {
        UpdatePhaseView::AwaitingPool => on_pool(update, reply),
        UpdatePhaseView::AwaitingEpoch { pool } => on_epoch(update, pool, reply),
        UpdatePhaseView::AwaitingValidatorList { pool, epoch } => on_validator_list(
            update,
            pool,
            epoch,
            reply,
        ),
        UpdatePhaseView::Submitting { plan, batch, submission } => on_submission(
            update,
            plan,
            batch,
            submission,
            reply,
        ),
        UpdatePhaseView::Pacing { plan, batch } => on_pause(update, plan, batch, reply),
    }
}

fn batch_of(plan: &UpdatePlan, batch: usize) -> (instructions: Vec<Instruction>)
    ensures
        instruction_views(instructions@) == plan@.batch_instructions(batch as int),
{
    if batch < plan.list_updates.len() {
        let mut instructions: Vec<Instruction> = Vec::new();
        instructions.push(plan.list_updates[batch].clone());
        proof {
            assert(instruction_views(instructions@) =~= plan@.batch_instructions(batch as int));
        }
        instructions
    } else {
        clone_instructions(&plan.final_instructions)
    }
}

fn mode_of(plan: &UpdatePlan, batch: usize) -> (mode: SendMode)
    ensures
        mode == plan@.batch_mode(batch as int),
{
    if batch < plan.list_updates.len() && batch + 1 < plan.list_updates.len() {
        SendMode::NoWait
    } else {
        SendMode::Wait
    }
}

fn begin(
    settings: UpdateSettings,
    options: UpdateOptions,
    pool_address: Address,
    plan: UpdatePlan,
    batch: usize,
) -> (progress: UpdateProgress)
    ensures
        progress@ == (PoolUpdateView {
            settings,
            options,
            pool_address,
            phase: UpdatePhaseView::AwaitingPool,
        }).begin_batch(plan@, batch),
        plan@.list_len() <= usize::MAX,
{
    let instructions = batch_of(&plan, batch);
    let mode = mode_of(&plan, batch);
    let count = plan.list_updates.len();
    assert(plan@.list_len() == count);
    let (submission, request) = Submission::start(
        BuildSettings {
            fee_payer: settings.fee_payer,
            compute_unit_price: settings.compute_unit_price,
            compute_unit_limit: settings.compute_unit_limit,
        },
        instructions,
        0,
        delivery(mode, settings.dry_run),
    );
    UpdateProgress::Continue(
        PoolUpdate {
            settings,
            options,
            pool_address,
            phase: UpdatePhase::Submitting { plan, batch, submission },
        },
        request,
    )
}

impl PoolUpdate {
    /// Begins the update of the pool at `pool_address`.
    pub fn start(settings: UpdateSettings, options: UpdateOptions, pool_address: Address) -> (progress:
        UpdateProgress)
        ensures
            progress@ == update_start(settings, options, pool_address),
            progress@ matches UpdateProgressView::Continue(first, _) ==> first.wf(),
    {
        if settings.no_update {
            UpdateProgress::Finished(Ok(UpdateOutcome::NotRequested))
        } else {
            UpdateProgress::Continue(
                PoolUpdate { settings, options, pool_address, phase: UpdatePhase::AwaitingPool },
                Request::AccountData(pool_address),
            )
        }
    }

    /// Goes on with what the reading of the pool came to.
    pub fn pool_read(self, read: Result<StakePoolSnapshot, UpdateError>) -> (progress:
        UpdateProgress)
        ensures
            progress@ == after_pool(self@, pool_read_view(read)),
            progress@ matches UpdateProgressView::Continue(next, _) ==> next.plan_fits(),
    {
        match read {
            Ok(pool) => UpdateProgress::Continue(
                PoolUpdate {
                    settings: self.settings,
                    options: self.options,
                    pool_address: self.pool_address,
                    phase: UpdatePhase::AwaitingEpoch { pool },
                },
                Request::EpochInfo,
            ),
            Err(error) => UpdateProgress::Finished(Err(error)),
        }
    }

    /// Goes on with what the planning came to.
    pub fn plan_made(self, made: Result<UpdatePlan, UpdateError>) -> (progress: UpdateProgress)
        ensures
            progress@ == after_plan(self@, plan_view(made)),
            progress@ matches UpdateProgressView::Continue(next, _) ==> next.plan_fits(),
    {
        match made {
            Ok(plan) => begin(self.settings, self.options, self.pool_address, plan, 0),
            Err(error) => UpdateProgress::Finished(Err(error)),
        }
    }

    /// Takes the reply to the pending request and says what comes next.
    pub fn advance(self, reply: Reply) -> (progress: UpdateProgress)
        ensures
            progress@ == update_step(self@, reply@),
            progress@ matches UpdateProgressView::Continue(next, _) ==> next.plan_fits(),
            self@.wf() ==> (progress@ matches UpdateProgressView::Continue(next, _) ==> next.wf()),
    {
        let ghost before = self@;
        let progress = self.step(reply);
        proof {
            match progress@ {
                UpdateProgressView::Continue(next, request) => {
                    if before.wf() {
                        lemma_update_step_keeps_wf(before, reply@, next, request);
                    }
                },
                _ => {},
            }
        }
        progress
    }

    fn step(self, reply: Reply) -> (progress: UpdateProgress)
        ensures
            progress@ == update_step(self@, reply@),
            progress@ matches UpdateProgressView::Continue(next, _) ==> next.plan_fits(),
    {
        let settings = self.settings;
        let options = self.options;
        let pool_address = self.pool_address;
        match self.phase {
            UpdatePhase::AwaitingPool => match reply {
                Reply::AccountData(fetched) => {
                    let update = PoolUpdate {
                        settings,
                        options,
                        pool_address,
                        phase: UpdatePhase::AwaitingPool,
                    };
                    update.pool_read(get_stake_pool(fetched))
                },
                _ => UpdateProgress::Finished(Err(UpdateError::UnexpectedReply)),
            },
            UpdatePhase::AwaitingEpoch { pool } => match reply {
                Reply::EpochInfo(Ok(epoch)) => {
                    if pool.last_update_epoch == epoch && !options.force {
                        UpdateProgress::Finished(Ok(UpdateOutcome::UpToDate))
                    } else {
                        let validator_list = pool.validator_list;
                        UpdateProgress::Continue(
                            PoolUpdate {
                                settings,
                                options,
                                pool_address,
                                phase: UpdatePhase::AwaitingValidatorList { pool, epoch },
                            },
                            Request::AccountData(validator_list),
                        )
                    }
                },
                Reply::EpochInfo(Err(_)) => UpdateProgress::Finished(
                    Err(UpdateError::Transport(Call::EpochInfo)),
                ),
                _ => UpdateProgress::Finished(Err(UpdateError::UnexpectedReply)),
            },
            UpdatePhase::AwaitingValidatorList { pool, epoch } => match reply {
                Reply::AccountData(fetched) => match get_validator_list(fetched) {
                    Ok(list) => {
                        let made = plan_update(
                            &settings.stake_pool_program_id,
                            &pool,
                            &list,
                            &pool_address,
                            options.no_merge,
                            options.stale_only,
                            epoch,
                        );
                        let update = PoolUpdate {
                            settings,
                            options,
                            pool_address,
                            phase: UpdatePhase::AwaitingValidatorList { pool, epoch },
                        };
                        update.plan_made(made)
                    },
                    Err(error) => UpdateProgress::Finished(Err(error)),
                },
                _ => UpdateProgress::Finished(Err(UpdateError::UnexpectedReply)),
            },
            UpdatePhase::Submitting { plan, batch, submission } => match submission.advance(reply) {
                SubmissionProgress::Continue(next, request) => {
                    let count = plan.list_updates.len();
                    assert(plan@.list_len() == count);
                    UpdateProgress::Continue(
                        PoolUpdate {
                            settings,
                            options,
                            pool_address,
                            phase: UpdatePhase::Submitting { plan, batch, submission: next },
                        },
                        request,
                    )
                },
                SubmissionProgress::Finished(Ok(_)) => {
                    assert(plan@.list_len() == plan.list_updates@.len());
                    if batch >= plan.list_updates.len() {
                        UpdateProgress::Finished(Ok(UpdateOutcome::Updated))
                    } else if batch + 1 < plan.list_updates.len() {
                        UpdateProgress::Continue(
                            PoolUpdate {
                                settings,
                                options,
                                pool_address,
                                phase: UpdatePhase::Pacing { plan, batch: batch + 1 },
                            },
                            Request::Sleep(PACING_DELAY_SECONDS),
                        )
                    } else {
                        begin(settings, options, pool_address, plan, batch + 1)
                    }
                },
                SubmissionProgress::Finished(Err(error)) => UpdateProgress::Finished(Err(error)),
            },
            UpdatePhase::Pacing { plan, batch } => match reply {
                Reply::Slept => begin(settings, options, pool_address, plan, batch),
                _ => UpdateProgress::Finished(Err(UpdateError::UnexpectedReply)),
            },
        }
    }
}

impl PoolUpdateView {
    /// Transaction `batch` of `plan` is on its way.
    pub open spec fn is_submitting(self, plan: UpdatePlanView, batch: int) -> bool {
        self.phase matches UpdatePhaseView::Submitting { plan: current, batch: at, .. } && current
            == plan && at == batch
    }

    /// Transaction `batch` of `plan` has been handed over, and its delivery
    /// not yet reported.
    pub open spec fn is_delivering(self, plan: UpdatePlanView, batch: int) -> bool {
        self.phase matches UpdatePhaseView::Submitting { plan: current, batch: at, submission }
            && current == plan && at == batch && submission.phase is AwaitingDelivery
    }

    /// The pause before transaction `batch` of `plan` is on.
    pub open spec fn is_pacing(self, plan: UpdatePlanView, batch: int) -> bool {
        self.phase matches UpdatePhaseView::Pacing { plan: current, batch: at } && current == plan
            && at == batch
    }
}

/// Of the transactions of a plan, every list update but the last is sent
/// without waiting; the last list update and the final transaction are
/// confirmed.
pub proof fn lemma_batch_modes(plan: UpdatePlanView, batch: int)
    requires
        0 <= batch <= plan.list_len(),
    ensures
        batch + 1 < plan.list_len() ==> plan.batch_mode(batch) == SendMode::NoWait,
        batch + 1 == plan.list_len() ==> plan.batch_mode(batch) == SendMode::Wait,
        batch == plan.list_len() ==> plan.batch_mode(batch) == SendMode::Wait,
{
}

/// A step keeps an update well formed, and changes neither its settings,
/// nor its options, nor its pool.
pub proof fn lemma_update_step_keeps_wf(
    update: PoolUpdateView,
    reply: ReplyView,
    next: PoolUpdateView,
    request: RequestView,
)
    requires
        update.wf(),
        update_step(update, reply) == UpdateProgressView::Continue(next, request),
        next.plan_fits(),
    ensures
        next.wf(),
        next.settings == update.settings,
        next.options == update.options,
        next.pool_address == update.pool_address,
{
    match update.phase {
        UpdatePhaseView::Submitting { plan, batch, submission } => {
            match submission_step(submission, reply) {
                SubmissionProgressView::Continue(after, asked) => {
                    crate::builder::lemma_submission_step_keeps_wf(submission, reply, after, asked);
                },
                _ => {},
            }
        },
        _ => {},
    }
}

/// An update that has just begun is well formed.
pub proof fn lemma_update_start_is_wf(
    settings: UpdateSettings,
    options: UpdateOptions,
    pool_address: Address,
)
    ensures
        update_start(settings, options, pool_address) matches UpdateProgressView::Continue(first, _)
            ==> first.wf(),
{
}

/// An update whose pool was last brought up to date in the network's
/// current epoch ends there and then, unless it is forced: it has asked for
/// nothing but the pool's account and the epoch, and asks for nothing more.
pub proof fn lemma_up_to_date_pool_is_left_alone(
    update: PoolUpdateView,
    pool: StakePoolSnapshotView,
    epoch: u64,
)
    requires
        update.phase == (UpdatePhaseView::AwaitingEpoch { pool }),
        pool.last_update_epoch == epoch,
        !update.options.force,
    ensures
        update_step(update, ReplyView::EpochInfo(Ok(epoch))) == UpdateProgressView::Finished(
            Ok(UpdateOutcome::UpToDate),
        ),
{
}

/// No transaction is made before the plan stands: until then an update asks
/// only for accounts and for the epoch.
pub proof fn lemma_nothing_sent_before_the_plan(
    update: PoolUpdateView,
    reply: ReplyView,
    next: PoolUpdateView,
    request: RequestView,
)
    requires
        update_step(update, reply) == UpdateProgressView::Continue(next, request),
        update.phase is AwaitingPool || update.phase is AwaitingEpoch
            || update.phase is AwaitingValidatorList,
    ensures
        !request.carries_transaction(),
{
}

/// Every transaction that reaches the send path is the one on its way,
/// delivered as its place in the plan demands: every list update but the
/// last without waiting, the last list update and the final transaction
/// confirmed, and in a dry run all of them simulated.
pub proof fn lemma_transactions_sent_as_planned(
    update: PoolUpdateView,
    reply: ReplyView,
    next: PoolUpdateView,
    request: RequestView,
)
    requires
        update.wf(),
        update_step(update, reply) == UpdateProgressView::Continue(next, request),
        request.is_submission(),
    ensures
        ({
            &&& update.phase matches UpdatePhaseView::Submitting { plan, batch, submission }
            &&& request matches RequestView::Submit(_, how)
            &&& how == delivery_for(plan.batch_mode(batch as int), update.settings.dry_run)
            &&& next.is_delivering(plan, batch as int)
            &&& submission.phase is AwaitingBalance
        }),
{
    match update.phase {
        UpdatePhaseView::Submitting { plan, batch, submission } => {
            match submission_step(submission, reply) {
                SubmissionProgressView::Continue(after, asked) => {
                    crate::builder::lemma_submitted_only_when_affordable(
                        submission,
                        reply,
                        after,
                        asked,
                    );
                },
                _ => {},
            }
        },
        _ => {},
    }
}

/// The transactions of a plan go out strictly one after the other: the
/// update turns to a transaction only when the one before it has been
/// delivered, and after a delivery that was not waited for the pause comes
/// first. So the final transaction is never begun before the send of the
/// last list update has returned.
pub proof fn lemma_batches_in_sequence(
    update: PoolUpdateView,
    reply: ReplyView,
    next: PoolUpdateView,
    request: RequestView,
    plan: UpdatePlanView,
    batch: int,
)
    requires
        update.wf(),
        update_step(update, reply) == UpdateProgressView::Continue(next, request),
        next.is_submitting(plan, batch),
        !update.is_submitting(plan, batch),
    ensures
        request == RequestView::LatestBlockhash,
        ({
            ||| batch == 0 && update.phase is AwaitingValidatorList
            ||| batch == plan.list_len() && batch > 0 && update.is_delivering(plan, batch - 1)
                && reply == ReplyView::Submitted(Ok(()))
            ||| 0 < batch < plan.list_len() && update.is_pacing(plan, batch) && reply
                == ReplyView::Slept
        }),
{
    match update.phase {
        UpdatePhaseView::Submitting { plan: current, batch: at, submission } => {
            match submission_step(submission, reply) {
                SubmissionProgressView::Finished(Ok(_)) => {
                    crate::builder::lemma_submission_ends_with_delivery(submission, reply);
                },
                _ => {},
            }
        },
        _ => {},
    }
}

/// After a list update that was sent without waiting, the update pauses for
/// the pacing delay before it turns to the next transaction.
pub proof fn lemma_pause_after_unconfirmed_send(
    update: PoolUpdateView,
    plan: UpdatePlanView,
    batch: int,
)
    requires
        update.wf(),
        update.is_delivering(plan, batch),
        batch + 1 < plan.list_len(),
    ensures
        update_step(update, ReplyView::Submitted(Ok(()))) == UpdateProgressView::Continue(
            update.in_phase(UpdatePhaseView::Pacing { plan, batch: (batch + 1) as usize }),
            RequestView::Sleep(PACING_DELAY_SECONDS),
        ),
{
}

/// The first failure ends the update: whatever fails while a transaction is
/// on its way, nothing of the plan is tried again or after it.
pub proof fn lemma_failure_ends_update(
    update: PoolUpdateView,
    plan: UpdatePlanView,
    batch: usize,
    submission: SubmissionView,
    reply: ReplyView,
    error: UpdateError,
)
    requires
        update.phase == (UpdatePhaseView::Submitting { plan, batch, submission }),
        submission_step(submission, reply) == SubmissionProgressView::Finished(
            Err::<(), UpdateError>(error),
        ),
    ensures
        update_step(update, reply) == UpdateProgressView::Finished(
            Err::<UpdateOutcome, UpdateError>(error),
        ),
{
}

/// The update is done exactly when the final transaction has been
/// delivered.
pub proof fn lemma_updated_after_final(update: PoolUpdateView, reply: ReplyView)
    requires
        update.wf(),
        update_step(update, reply) == UpdateProgressView::Finished(Ok(UpdateOutcome::Updated)),
    ensures
        ({
            &&& update.phase matches UpdatePhaseView::Submitting { plan, batch, submission }
            &&& batch == plan.list_len()
            &&& submission.phase is AwaitingDelivery
            &&& reply == ReplyView::Submitted(Ok(()))
        }),
{
    match update.phase {
        UpdatePhaseView::Submitting { plan, batch, submission } => {
            match submission_step(submission, reply) {
                SubmissionProgressView::Finished(Ok(_)) => {
                    crate::builder::lemma_submission_ends_with_delivery(submission, reply);
                },
                _ => {},
            }
        },
        _ => {},
    }
}

/// The requests that an update makes when it is given these replies, one
/// after the other, for as long as it goes on.
pub open spec fn update_requests(update: PoolUpdateView, replies: Seq<ReplyView>) -> Seq<
    RequestView,
>
    decreases replies.len(),
{
    if replies.len() == 0 {
        Seq::empty()
    } else {
        match update_step(update, replies.first()) {
            UpdateProgressView::Continue(next, request) => seq![request] + update_requests(
                next,
                replies.drop_first(),
            ),
            UpdateProgressView::Finished(_) => Seq::empty(),
        }
    }
}

/// How an update ends when it is given these replies, if it ends within
/// them.
pub open spec fn update_result(update: PoolUpdateView, replies: Seq<ReplyView>) -> Option<
    Result<UpdateOutcome, UpdateError>,
>
    decreases replies.len(),
{
    if replies.len() == 0 {
        None
    } else {
        match update_step(update, replies.first()) {
            UpdateProgressView::Continue(next, _) => update_result(next, replies.drop_first()),
            UpdateProgressView::Finished(result) => Some(result),
        }
    }
}

/// The deliveries among some requests, in their order.
pub open spec fn deliveries(requests: Seq<RequestView>) -> Seq<Delivery>
    decreases requests.len(),
{
    if requests.len() == 0 {
        Seq::empty()
    } else {
        match requests.first() {
            RequestView::Submit(_, how) => seq![how] + deliveries(requests.drop_first()),
            _ => deliveries(requests.drop_first()),
        }
    }
}

impl UpdatePlanView {
    /// How the transactions of the plan are delivered from transaction
    /// `from` on, one delivery for each, in their order.
    pub open spec fn deliveries_from(self, dry_run: bool, from: nat) -> Seq<Delivery>
        decreases self.list_len() + 1 - from,
    {
        if from > self.list_len() {
            Seq::empty()
        } else {
            seq![delivery_for(self.batch_mode(from as int), dry_run)] + self.deliveries_from(
                dry_run,
                from + 1,
            )
        }
    }
}

impl PoolUpdateView {
    /// The plan of the update, once it stands.
    pub open spec fn plan(self) -> Option<UpdatePlanView> {
        match self.phase {
            UpdatePhaseView::Submitting { plan, .. } => Some(plan),
            UpdatePhaseView::Pacing { plan, .. } => Some(plan),
            _ => None,
        }
    }

    /// The first transaction of the plan that has not been handed over for
    /// delivery.
    pub open spec fn undelivered(self) -> nat {
        match self.phase {
            UpdatePhaseView::Submitting { batch, submission, .. } => if submission.phase
                is AwaitingDelivery {
                (batch + 1) as nat
            } else {
                batch as nat
            },
            UpdatePhaseView::Pacing { batch, .. } => batch as nat,
            _ => 0,
        }
    }
}

/// A plan of `n` list updates takes `n + 1` deliveries: all but the last of
/// the list updates are sent without waiting, the last of them and the
/// final transaction are confirmed; in a dry run every one is simulated.
pub proof fn lemma_planned_deliveries(plan: UpdatePlanView, dry_run: bool, from: nat, i: int)
    requires
        from <= plan.list_len() + 1,
        0 <= i < plan.list_len() + 1 - from,
    ensures
        plan.deliveries_from(dry_run, from).len() == plan.list_len() + 1 - from,
        plan.deliveries_from(dry_run, from)[i] == if dry_run {
            Delivery::Simulate
        } else if from + i + 1 < plan.list_len() {
            Delivery::SendNoWait
        } else {
            Delivery::SendAndConfirm
        },
    decreases plan.list_len() + 1 - from,
{
    lemma_deliveries_len(plan, dry_run, from);
    if i > 0 {
        lemma_planned_deliveries(plan, dry_run, from + 1, i - 1);
    }
}

proof fn lemma_deliveries_len(plan: UpdatePlanView, dry_run: bool, from: nat)
    requires
        from <= plan.list_len() + 1,
    ensures
        plan.deliveries_from(dry_run, from).len() == plan.list_len() + 1 - from,
    decreases plan.list_len() + 1 - from,
{
    if from <= plan.list_len() {
        lemma_deliveries_len(plan, dry_run, from + 1);
    }
}

proof fn lemma_step_delivers_next(
    update: PoolUpdateView,
    plan: UpdatePlanView,
    reply: ReplyView,
)
    requires
        update.wf(),
        update.plan() == Some(plan),
    ensures
        update.undelivered() <= plan.list_len() + 1,
        match update_step(update, reply) {
            UpdateProgressView::Continue(next, request) => {
                &&& next.wf()
                &&& next.plan() == Some(plan)
                &&& next.settings == update.settings
                &&& match request {
                    RequestView::Submit(_, how) => {
                        &&& update.undelivered() <= plan.list_len()
                        &&& how == delivery_for(
                            plan.batch_mode(update.undelivered() as int),
                            update.settings.dry_run,
                        )
                        &&& next.undelivered() == update.undelivered() + 1
                    },
                    _ => next.undelivered() == update.undelivered(),
                }
            },
            UpdateProgressView::Finished(result) => result == Ok::<UpdateOutcome, UpdateError>(
                UpdateOutcome::Updated,
            ) ==> update.undelivered() == plan.list_len() + 1,
        },
{
    match update.phase {
        UpdatePhaseView::Submitting { plan: current, batch, submission } => {
            match submission_step(submission, reply) {
                SubmissionProgressView::Continue(after, asked) => {
                    crate::builder::lemma_submission_step_keeps_wf(submission, reply, after, asked);
                    if asked.is_submission() {
                        crate::builder::lemma_submitted_only_when_affordable(
                            submission,
                            reply,
                            after,
                            asked,
                        );
                    }
                },
                SubmissionProgressView::Finished(Ok(_)) => {
                    crate::builder::lemma_submission_ends_with_delivery(submission, reply);
                },
                _ => {},
            }
        },
        _ => {},
    }
}

/// Whatever replies an update is given once its plan stands, the
/// transactions that it hands over are delivered in the order and in the
/// way of the plan: the deliveries of the run are the planned deliveries
/// from the first undelivered transaction on, or a first part of them where
/// the run stops early. An update that ends as updated has made them all.
pub proof fn lemma_run_delivers_as_planned(
    update: PoolUpdateView,
    plan: UpdatePlanView,
    replies: Seq<ReplyView>,
)
    requires
        update.wf(),
        update.plan() == Some(plan),
    ensures
        deliveries(update_requests(update, replies)).is_prefix_of(
            plan.deliveries_from(update.settings.dry_run, update.undelivered()),
        ),
        update_result(update, replies) == Some(
            Ok::<UpdateOutcome, UpdateError>(UpdateOutcome::Updated),
        ) ==> deliveries(update_requests(update, replies)) == plan.deliveries_from(
            update.settings.dry_run,
            update.undelivered(),
        ),
    decreases replies.len(),
{
    let planned = plan.deliveries_from(update.settings.dry_run, update.undelivered());
    if replies.len() == 0 {
        assert(deliveries(update_requests(update, replies)) =~= Seq::<Delivery>::empty());
    } else {
        lemma_step_delivers_next(update, plan, replies.first());
        match update_step(update, replies.first()) {
            UpdateProgressView::Continue(next, request) => {
                lemma_run_delivers_as_planned(next, plan, replies.drop_first());
                let rest = update_requests(next, replies.drop_first());
                let run = update_requests(update, replies);
                assert(run == seq![request] + rest);
                assert(run.drop_first() =~= rest);
                assert(run.first() == request);
                match request {
                    RequestView::Submit(_, how) => {
                        let later = plan.deliveries_from(
                            update.settings.dry_run,
                            update.undelivered() + 1,
                        );
                        assert(planned == seq![how] + later);
                        assert(deliveries(run) == seq![how] + deliveries(rest));
                        assert((seq![how] + deliveries(rest)).is_prefix_of(seq![how] + later)) by {
                            let a = seq![how] + deliveries(rest);
                            let b = seq![how] + later;
                            assert(a.len() <= b.len());
                            assert(a =~= b.subrange(0, a.len() as int)) by {
                                assert forall|k: int| 0 <= k < a.len() implies a[k] == b[k] by {
                                    if k > 0 {
                                        assert(a[k] == deliveries(rest)[k - 1]);
                                        assert(b[k] == later[k - 1]);
                                        assert(deliveries(rest)[k - 1] == later.subrange(
                                            0,
                                            deliveries(rest).len() as int,
                                        )[k - 1]);
                                    }
                                }
                            }
                        }
                    },
                    _ => {
                        assert(deliveries(run) == deliveries(rest));
                    },
                }
            },
            UpdateProgressView::Finished(result) => {
                assert(deliveries(update_requests(update, replies)) =~= Seq::<Delivery>::empty());
                if result == Ok::<UpdateOutcome, UpdateError>(UpdateOutcome::Updated) {
                    lemma_deliveries_len(plan, update.settings.dry_run, update.undelivered());
                    assert(planned =~= Seq::<Delivery>::empty());
                }
            },
        }
    }
}

} // verus!
