//! The epoch watcher: one cycle over the configured pools.
//!
//! The pools are taken one after the other. For each, the pool's state and
//! the network's epoch are read, a failed fetch being tried again a bounded
//! number of times; a pool that was updated in the current epoch is left
//! alone; any other is updated, with a notification before and after. What
//! goes wrong with one pool is reported and never stops the others.

use crate::address::{base58_address, Address};
use crate::api::texts;
use crate::client::{
    get_stake_pool, pool_read_view, read_stake_pool, StakePoolSnapshot, StakePoolSnapshotView,
};
use crate::error::UpdateError;
use crate::notifier::{Notification, NotificationView};
use crate::pipeline::{
    update_start, update_step, PoolUpdate, PoolUpdateView, UpdateOptions, UpdateProgress,
    UpdateProgressView, UpdateSettings,
};
use crate::transport::{Reply, ReplyView, Request, RequestView};
use vstd::prelude::*;

verus! {

/// How often the fetch of a pool's account, or of the epoch, is tried before
/// the pool is given up for this cycle.
pub const MAX_FETCH_ATTEMPTS: u32 = 5;

/// The milliseconds that every wait between two attempts lasts at least.
pub const BACKOFF_BASE_MILLIS: u64 = 2_000;

/// The most milliseconds that chance adds to a wait between two attempts.
pub const BACKOFF_MAX_JITTER_MILLIS: u64 = 1_000;

/// The wait before the next attempt, given a number drawn at random.
pub open spec fn backoff_millis(sample: u64) -> u64 {
    (BACKOFF_BASE_MILLIS + (sample as int) % (BACKOFF_MAX_JITTER_MILLIS + 1)) as u64
}

/// The wait before the next attempt, given a number drawn at random: the
/// base delay and a jitter within its bound.
pub fn backoff_delay(sample: u64) -> (millis: u64)
    ensures
        millis == backoff_millis(sample),
        BACKOFF_BASE_MILLIS <= millis <= BACKOFF_BASE_MILLIS + BACKOFF_MAX_JITTER_MILLIS,
{
    BACKOFF_BASE_MILLIS + sample % (BACKOFF_MAX_JITTER_MILLIS + 1)
}

/// What a cycle is run with.
#[derive(Clone, Copy, Debug, PartialEq, Eq)]
pub struct CycleSettings {
    pub update: UpdateSettings,
    /// `force` updates a pool that is up to date; the other two are handed
    /// on to the update.
    pub options: UpdateOptions,
}

/// The options that the update of a pool is run with: the watcher has
/// already found that it is due.
pub open spec fn update_options(settings: CycleSettings) -> UpdateOptions {
    UpdateOptions {
        force: true,
        no_merge: settings.options.no_merge,
        stale_only: settings.options.stale_only,
    }
}

/// Where a cycle stands with the pool it is at.
#[derive(Debug, PartialEq, Eq)]
pub enum CyclePhase {
    /// The pool's account has been asked for, for the `attempt`th time.
    AwaitingPool { address: Address, attempt: u32 },
    /// The wait before the `attempt`th fetch of the pool's account.
    PoolBackoff { address: Address, attempt: u32 },
    /// The epoch has been asked for, for the `attempt`th time.
    AwaitingEpoch { address: Address, pool_epoch: u64, attempt: u32 },
    /// The wait before the `attempt`th fetch of the epoch.
    EpochBackoff { address: Address, pool_epoch: u64, attempt: u32 },
    /// The start of the update is being announced.
    AnnouncingStart { address: Address, epoch: u64 },
    /// The update is running.
    Updating { epoch: u64, update: PoolUpdate },
    /// The last word on this pool is being sent.
    Reporting,
}

/// A cycle phase, in views.
pub enum CyclePhaseView {
    AwaitingPool { address: Address, attempt: u32 },
    PoolBackoff { address: Address, attempt: u32 },
    AwaitingEpoch { address: Address, pool_epoch: u64, attempt: u32 },
    EpochBackoff { address: Address, pool_epoch: u64, attempt: u32 },
    AnnouncingStart { address: Address, epoch: u64 },
    Updating { epoch: u64, update: PoolUpdateView },
    Reporting,
}

impl View for CyclePhase {
    type V = CyclePhaseView;

    open spec fn view(&self) -> CyclePhaseView {
        match *self {
            CyclePhase::AwaitingPool { address, attempt } => CyclePhaseView::AwaitingPool {
                address,
                attempt,
            },
            CyclePhase::PoolBackoff { address, attempt } => CyclePhaseView::PoolBackoff {
                address,
                attempt,
            },
            CyclePhase::AwaitingEpoch { address, pool_epoch, attempt } => CyclePhaseView::AwaitingEpoch {
                address,
                pool_epoch,
                attempt,
            },
            CyclePhase::EpochBackoff { address, pool_epoch, attempt } => CyclePhaseView::EpochBackoff {
                address,
                pool_epoch,
                attempt,
            },
            CyclePhase::AnnouncingStart { address, epoch } => CyclePhaseView::AnnouncingStart {
                address,
                epoch,
            },
            CyclePhase::Updating { epoch, update } => CyclePhaseView::Updating {
                epoch,
                update: update@,
            },
            CyclePhase::Reporting => CyclePhaseView::Reporting,
        }
    }
}

/// One cycle over the configured pools.
#[derive(Debug, PartialEq, Eq)]
pub struct Cycle {
    pub settings: CycleSettings,
    /// The configured pools, each by the base58 text of its address.
    pub pools: Vec<String>,
    /// The place of the pool that the cycle is at.
    pub index: usize,
    pub phase: CyclePhase,
}

/// A cycle, in views.
pub struct CycleView {
    pub settings: CycleSettings,
    pub pools: Seq<Seq<char>>,
    pub index: usize,
    pub phase: CyclePhaseView,
}

impl View for Cycle {
    type V = CycleView;

    open spec fn view(&self) -> CycleView {
        CycleView {
            settings: self.settings,
            pools: texts(self.pools@),
            index: self.index,
            phase: self.phase@,
        }
    }
}

/// What a step of a cycle leads to.
#[derive(Debug, PartialEq, Eq)]
pub enum CycleProgress {
    /// The cycle goes on once this request is answered.
    Continue(Cycle, Request),
    /// The cycle is over. It fails only on a reply that does not answer the
    /// pending request.
    Finished(Result<(), UpdateError>),
}

/// Progress of a cycle, in views.
pub enum CycleProgressView {
    Continue(CycleView, RequestView),
    Finished(Result<(), UpdateError>),
}

impl View for CycleProgress {
    type V = CycleProgressView;

    open spec fn view(&self) -> CycleProgressView {
        match *self {
            CycleProgress::Continue(cycle, request) => CycleProgressView::Continue(cycle@, request@),
            CycleProgress::Finished(result) => CycleProgressView::Finished(result),
        }
    }
}

impl CycleView {
    /// The cycle at the pool in place `index`, in a phase.
    pub open spec fn at(self, index: usize, phase: CyclePhaseView) -> CycleView {
        CycleView { settings: self.settings, pools: self.pools, index, phase }
    }

    /// The cycle in another phase, at the same pool.
    pub open spec fn in_phase(self, phase: CyclePhaseView) -> CycleView {
        self.at(self.index, phase)
    }

    /// The text of the pool that the cycle is at.
    pub open spec fn pool(self) -> Seq<char> {
        self.pools[self.index as int]
    }

    /// The step that sends the last word on the pool that the cycle is at.
    pub open spec fn report(self, notification: NotificationView) -> CycleProgressView {
        CycleProgressView::Continue(
            self.in_phase(CyclePhaseView::Reporting),
            RequestView::Notify(notification),
        )
    }

    /// The step that gives the pool up for this cycle.
    pub open spec fn report_failure(self) -> CycleProgressView {
        self.report(NotificationView::UpdateFailed { pool: self.pool() })
    }

    /// The step that turns to the pool in place `index`, given what its
    /// text was read as: its account is asked for, or the pool is given up
    /// where the text is no address. After the last pool the cycle is over.
    pub open spec fn turn_to(self, index: usize, address: Option<Address>) -> CycleProgressView {
        if index >= self.pools.len() {
            CycleProgressView::Finished(Ok(()))
        } else {
            match address {
                Some(address) => CycleProgressView::Continue(
                    self.at(index, CyclePhaseView::AwaitingPool { address, attempt: 1 }),
                    RequestView::AccountData(address),
                ),
                None => self.at(index, CyclePhaseView::Reporting).report_failure(),
            }
        }
    }

    /// The step that turns to the pool in place `index`: its address is
    /// read from its text.
    pub open spec fn visit(self, index: usize) -> CycleProgressView {
        self.turn_to(
            index,
            if index < self.pools.len() {
                base58_address(self.pools[index as int])
            } else {
                None
            },
        )
    }

    /// The step that turns to the next pool.
    pub open spec fn next_pool(self) -> CycleProgressView {
        self.visit((self.index + 1) as usize)
    }

    /// The step that takes what the update of the current pool came to.
    pub open spec fn follow_update(self, epoch: u64, progress: UpdateProgressView) -> CycleProgressView {
        match progress {
            UpdateProgressView::Continue(update, request) => CycleProgressView::Continue(
                self.in_phase(CyclePhaseView::Updating { epoch, update }),
                request,
            ),
            UpdateProgressView::Finished(Ok(_)) => self.report(
                NotificationView::UpdateSucceeded { pool: self.pool(), epoch },
            ),
            UpdateProgressView::Finished(Err(_)) => self.report_failure(),
        }
    }
}

/// A cycle over `pools`, before its first request.
pub open spec fn cycle_start(settings: CycleSettings, pools: Seq<Seq<char>>) -> CycleProgressView {
    (CycleView { settings, pools, index: 0, phase: CyclePhaseView::Reporting }).visit(0)
}

/// The step that follows the reading of the pool's account. A fetch that
/// failed is tried again after a wait, up to the ceiling; bytes that hold no
/// pool are not asked for again.
pub open spec fn after_pool_read(
    cycle: CycleView,
    address: Address,
    attempt: u32,
    read: Result<StakePoolSnapshotView, UpdateError>,
) -> CycleProgressView {
    match read {
        Ok(pool) => CycleProgressView::Continue(
            cycle.in_phase(
                CyclePhaseView::AwaitingEpoch {
                    address,
                    pool_epoch: pool.last_update_epoch,
                    attempt: 1,
                },
            ),
            RequestView::EpochInfo,
        ),
        Err(UpdateError::Transport(_)) => if attempt < MAX_FETCH_ATTEMPTS {
            CycleProgressView::Continue(
                cycle.in_phase(
                    CyclePhaseView::PoolBackoff { address, attempt: (attempt + 1) as u32 },
                ),
                RequestView::Backoff { attempt: (attempt + 1) as u32 },
            )
        } else {
            cycle.report_failure()
        },
        Err(_) => cycle.report_failure(),
    }
}

/// The step that the pool's account leads to.
pub open spec fn on_pool_account(
    cycle: CycleView,
    address: Address,
    attempt: u32,
    reply: ReplyView,
) -> CycleProgressView {
    match reply {
        ReplyView::AccountData(fetched) => after_pool_read(
            cycle,
            address,
            attempt,
            read_stake_pool(fetched),
        ),
        _ => CycleProgressView::Finished(Err(UpdateError::UnexpectedReply)),
    }
}

/// The step that the network's epoch leads to. A pool that was last updated
/// in this very epoch is passed over without a word, unless updates are
/// forced; for any other the start of its update is announced. A fetch that
/// failed is tried again after a wait, up to the ceiling.
pub open spec fn on_epoch_info(
    cycle: CycleView,
    address: Address,
    pool_epoch: u64,
    attempt: u32,
    reply: ReplyView,
) -> CycleProgressView {
    match reply {
        ReplyView::EpochInfo(Ok(epoch)) => if pool_epoch == epoch && !cycle.settings.options.force {
            cycle.next_pool()
        } else {
            CycleProgressView::Continue(
                cycle.in_phase(CyclePhaseView::AnnouncingStart { address, epoch }),
                RequestView::Notify(NotificationView::UpdateStarting { pool: cycle.pool(), epoch }),
            )
        },
        ReplyView::EpochInfo(Err(_)) => if attempt < MAX_FETCH_ATTEMPTS {
            CycleProgressView::Continue(
                cycle.in_phase(
                    CyclePhaseView::EpochBackoff {
                        address,
                        pool_epoch,
                        attempt: (attempt + 1) as u32,
                    },
                ),
                RequestView::Backoff { attempt: (attempt + 1) as u32 },
            )
        } else {
            cycle.report(NotificationView::EpochInfoUnavailable)
        },
        _ => CycleProgressView::Finished(Err(UpdateError::UnexpectedReply)),
    }
}

/// The step that a reply leads to. A reply that does not answer the pending
/// request ends the cycle, and so does any reply to a cycle that stands
/// past its last pool.
pub open spec fn cycle_step(cycle: CycleView, reply: ReplyView) -> CycleProgressView {
    if cycle.index >= cycle.pools.len() {
        CycleProgressView::Finished(Err(UpdateError::UnexpectedReply))
    } else {
        match cycle.phase {
            CyclePhaseView::AwaitingPool { address, attempt } => on_pool_account(
                cycle,
                address,
                attempt,
                reply,
            ),
            CyclePhaseView::PoolBackoff { address, attempt } => match reply {
                ReplyView::Slept => CycleProgressView::Continue(
                    cycle.in_phase(CyclePhaseView::AwaitingPool { address, attempt }),
                    RequestView::AccountData(address),
                ),
                _ => CycleProgressView::Finished(Err(UpdateError::UnexpectedReply)),
            },
            CyclePhaseView::AwaitingEpoch { address, pool_epoch, attempt } => on_epoch_info(
                cycle,
                address,
                pool_epoch,
                attempt,
                reply,
            ),
            CyclePhaseView::EpochBackoff { address, pool_epoch, attempt } => match reply {
                ReplyView::Slept => CycleProgressView::Continue(
                    cycle.in_phase(CyclePhaseView::AwaitingEpoch { address, pool_epoch, attempt }),
                    RequestView::EpochInfo,
                ),
                _ => CycleProgressView::Finished(Err(UpdateError::UnexpectedReply)),
            },
            CyclePhaseView::AnnouncingStart { address, epoch } => match reply {
                ReplyView::Notified(_) => cycle.follow_update(
                    epoch,
                    update_start(cycle.settings.update, update_options(cycle.settings), address),
                ),
                _ => CycleProgressView::Finished(Err(UpdateError::UnexpectedReply)),
            },
            CyclePhaseView::Updating { epoch, update } => cycle.follow_update(
                epoch,
                update_step(update, reply),
            ),
            CyclePhaseView::Reporting => match reply {
                ReplyView::Notified(_) => cycle.next_pool(),
                _ => CycleProgressView::Finished(Err(UpdateError::UnexpectedReply)),
            },
        }
    }
}

fn report(settings: CycleSettings, pools: Vec<String>, index: usize, notification: Notification) -> (progress:
    CycleProgress)
    ensures
        progress@ == (CycleView {
            settings,
            pools: texts(pools@),
            index,
            phase: CyclePhaseView::Reporting,
        }).report(notification@),
{
    CycleProgress::Continue(
        Cycle { settings, pools, index, phase: CyclePhase::Reporting },
        Request::Notify(notification),
    )
}

fn report_failure(settings: CycleSettings, pools: Vec<String>, index: usize) -> (progress: CycleProgress)
    requires
        index < pools@.len(),
    ensures
        progress@ == (CycleView {
            settings,
            pools: texts(pools@),
            index,
            phase: CyclePhaseView::Reporting,
        }).report_failure(),
{
    let pool = pools[index].clone();
    report(settings, pools, index, Notification::UpdateFailed { pool })
}

fn visit(settings: CycleSettings, pools: Vec<String>, index: usize) -> (progress: CycleProgress)
    ensures
        progress@ == (CycleView {
            settings,
            pools: texts(pools@),
            index: 0,
            phase: CyclePhaseView::Reporting,
        }).visit(index),
{
    let address = if index < pools.len() {
        Address::from_base58(pools[index].as_str())
    } else {
        None
    };
    Cycle::turn_to(settings, pools, index, address)
}

fn follow_update(
    settings: CycleSettings,
    pools: Vec<String>,
    index: usize,
    epoch: u64,
    progress: UpdateProgress,
) -> (next: CycleProgress)
    requires
        index < pools@.len(),
    ensures
        next@ == (CycleView {
            settings,
            pools: texts(pools@),
            index,
            phase: CyclePhaseView::Reporting,
        }).follow_update(epoch, progress@),
        (progress@ matches UpdateProgressView::Continue(update, _) ==> update.plan_fits())
            ==> (next@ matches CycleProgressView::Continue(cycle, _) ==> cycle.plan_fits()),
{
    match progress {
        UpdateProgress::Continue(update, request) => CycleProgress::Continue(
            Cycle { settings, pools, index, phase: CyclePhase::Updating { epoch, update } },
            request,
        ),
        UpdateProgress::Finished(Ok(_)) => {
            let pool = pools[index].clone();
            report(settings, pools, index, Notification::UpdateSucceeded { pool, epoch })
        },
        UpdateProgress::Finished(Err(_)) => report_failure(settings, pools, index),
    }
}

impl Cycle {
    /// Begins a cycle over `pools`.
    pub fn start(settings: CycleSettings, pools: Vec<String>) -> (progress: CycleProgress)
        ensures
            progress@ == cycle_start(settings, texts(pools@)),
            progress@ matches CycleProgressView::Continue(first, _) ==> first.wf(),
    {
        let count = pools.len();
        assert(texts(pools@).len() == count);
        visit(settings, pools, 0)
    }

    /// Turns a cycle over `pools` to the pool in place `index`, given what
    /// the text of that pool was read as.
    pub fn turn_to(
        settings: CycleSettings,
        pools: Vec<String>,
        index: usize,
        address: Option<Address>,
    ) -> (progress: CycleProgress)
        ensures
            progress@ == (CycleView {
                settings,
                pools: texts(pools@),
                index: 0,
                phase: CyclePhaseView::Reporting,
            }).turn_to(index, address),
    {
        if index >= pools.len() {
            CycleProgress::Finished(Ok(()))
        } else {
            match address {
                Some(address) => CycleProgress::Continue(
                    Cycle {
                        settings,
                        pools,
                        index,
                        phase: CyclePhase::AwaitingPool { address, attempt: 1 },
                    },
                    Request::AccountData(address),
                ),
                None => report_failure(settings, pools, index),
            }
        }
    }

    /// Goes on with what the `attempt`th reading of the pool at `address`
    /// came to. A cycle that stands past its last pool takes nothing.
    pub fn pool_read(
        self,
        address: Address,
        attempt: u32,
        read: Result<StakePoolSnapshot, UpdateError>,
    ) -> (progress: CycleProgress)
        ensures
            progress@ == if self@.index < self@.pools.len() {
                after_pool_read(self@, address, attempt, pool_read_view(read))
            } else {
                CycleProgressView::Finished(Err(UpdateError::UnexpectedReply))
            },
    {
        let settings = self.settings;
        let pools = self.pools;
        let index = self.index;
        if index >= pools.len() {
            return CycleProgress::Finished(Err(UpdateError::UnexpectedReply));
        }
        match read {
            Ok(pool) => CycleProgress::Continue(
                Cycle {
                    settings,
                    pools,
                    index,
                    phase: CyclePhase::AwaitingEpoch {
                        address,
                        pool_epoch: pool.last_update_epoch,
                        attempt: 1,
                    },
                },
                Request::EpochInfo,
            ),
            Err(UpdateError::Transport(_)) => {
                if attempt < MAX_FETCH_ATTEMPTS {
                    CycleProgress::Continue(
                        Cycle {
                            settings,
                            pools,
                            index,
                            phase: CyclePhase::PoolBackoff { address, attempt: attempt + 1 },
                        },
                        Request::Backoff { attempt: attempt + 1 },
                    )
                } else {
                    report_failure(settings, pools, index)
                }
            },
            Err(_) => report_failure(settings, pools, index),
        }
    }

    /// Takes the reply to the pending request and says what comes next.
    pub fn advance(self, reply: Reply) -> (progress: CycleProgress)
        ensures
            progress@ == cycle_step(self@, reply@),
            self@.wf() ==> (progress@ matches CycleProgressView::Continue(next, _) ==> next.wf()),
    {
        let ghost before = self@;
        let progress = self.step(reply);
        proof {
            match progress@ {
                CycleProgressView::Continue(next, request) => {
                    if before.wf() {
                        lemma_cycle_step_keeps_wf(before, reply@, next, request);
                    }
                },
                _ => {},
            }
        }
        progress
    }

    fn step(self, reply: Reply) -> (progress: CycleProgress)
        ensures
            progress@ == cycle_step(self@, reply@),
            progress@ matches CycleProgressView::Continue(next, _) ==> next.plan_fits(),
    {
        let settings = self.settings;
        let pools = self.pools;
        let index = self.index;
        if index >= pools.len() {
            return CycleProgress::Finished(Err(UpdateError::UnexpectedReply));
        }
        match self.phase {
            CyclePhase::AwaitingPool { address, attempt } => match reply {
                Reply::AccountData(fetched) => {
                    let cycle = Cycle {
                        settings,
                        pools,
                        index,
                        phase: CyclePhase::AwaitingPool { address, attempt },
                    };
                    cycle.pool_read(address, attempt, get_stake_pool(fetched))
                },
                _ => CycleProgress::Finished(Err(UpdateError::UnexpectedReply)),
            },
            CyclePhase::PoolBackoff { address, attempt } => match reply {
                Reply::Slept => CycleProgress::Continue(
                    Cycle {
                        settings,
                        pools,
                        index,
                        phase: CyclePhase::AwaitingPool { address, attempt },
                    },
                    Request::AccountData(address),
                ),
                _ => CycleProgress::Finished(Err(UpdateError::UnexpectedReply)),
            },
            CyclePhase::AwaitingEpoch { address, pool_epoch, attempt } => match reply {
                Reply::EpochInfo(Ok(epoch)) => {
                    if pool_epoch == epoch && !settings.options.force {
                        visit(settings, pools, index + 1)
                    } else {
                        let pool = pools[index].clone();
                        CycleProgress::Continue(
                            Cycle {
                                settings,
                                pools,
                                index,
                                phase: CyclePhase::AnnouncingStart { address, epoch },
                            },
                            Request::Notify(Notification::UpdateStarting { pool, epoch }),
                        )
                    }
                },
                Reply::EpochInfo(Err(_)) => {
                    if attempt < MAX_FETCH_ATTEMPTS {
                        CycleProgress::Continue(
                            Cycle {
                                settings,
                                pools,
                                index,
                                phase: CyclePhase::EpochBackoff {
                                    address,
                                    pool_epoch,
                                    attempt: attempt + 1,
                                },
                            },
                            Request::Backoff { attempt: attempt + 1 },
                        )
                    } else {
                        report(settings, pools, index, Notification::EpochInfoUnavailable)
                    }
                },
                _ => CycleProgress::Finished(Err(UpdateError::UnexpectedReply)),
            },
            CyclePhase::EpochBackoff { address, pool_epoch, attempt } => match reply {
                Reply::Slept => CycleProgress::Continue(
                    Cycle {
                        settings,
                        pools,
                        index,
                        phase: CyclePhase::AwaitingEpoch { address, pool_epoch, attempt },
                    },
                    Request::EpochInfo,
                ),
                _ => CycleProgress::Finished(Err(UpdateError::UnexpectedReply)),
            },
            CyclePhase::AnnouncingStart { address, epoch } => match reply {
                Reply::Notified(_) => {
                    let options = UpdateOptions {
                        force: true,
                        no_merge: settings.options.no_merge,
                        stale_only: settings.options.stale_only,
                    };
                    follow_update(
                        settings,
                        pools,
                        index,
                        epoch,
                        PoolUpdate::start(settings.update, options, address),
                    )
                },
                _ => CycleProgress::Finished(Err(UpdateError::UnexpectedReply)),
            },
            CyclePhase::Updating { epoch, update } => follow_update(
                settings,
                pools,
                index,
                epoch,
                update.advance(reply),
            ),
            CyclePhase::Reporting => match reply {
                Reply::Notified(_) => visit(settings, pools, index + 1),
                _ => CycleProgress::Finished(Err(UpdateError::UnexpectedReply)),
            },
        }
    }
}

impl CycleView {
    /// The cycle is at one of its pools, has not tried a fetch more often
    /// than the ceiling allows, and runs its update with its own settings.
    pub open spec fn wf(self) -> bool {
        &&& self.index < self.pools.len() <= usize::MAX
        &&& match self.phase {
            CyclePhaseView::AwaitingPool { attempt, .. } => 1 <= attempt <= MAX_FETCH_ATTEMPTS,
            CyclePhaseView::PoolBackoff { attempt, .. } => 1 < attempt <= MAX_FETCH_ATTEMPTS,
            CyclePhaseView::AwaitingEpoch { attempt, .. } => 1 <= attempt <= MAX_FETCH_ATTEMPTS,
            CyclePhaseView::EpochBackoff { attempt, .. } => 1 < attempt <= MAX_FETCH_ATTEMPTS,
            CyclePhaseView::Updating { update, .. } => {
                &&& update.wf()
                &&& update.settings == self.settings.update
                &&& update.options == update_options(self.settings)
            },
            _ => true,
        }
    }

    /// The plan of the running update, where there is one, is no longer
    /// than memory allows.
    pub open spec fn plan_fits(self) -> bool {
        self.phase matches CyclePhaseView::Updating { update, .. } ==> update.plan_fits()
    }
}

/// A cycle that has just begun is well formed.
pub proof fn lemma_cycle_start_is_wf(settings: CycleSettings, pools: Seq<Seq<char>>)
    requires
        pools.len() <= usize::MAX,
    ensures
        cycle_start(settings, pools) matches CycleProgressView::Continue(first, _) ==> first.wf(),
{
}

/// A step keeps a cycle well formed, and changes neither its settings nor
/// its pools; it stays at its pool or turns to the next one.
pub proof fn lemma_cycle_step_keeps_wf(
    cycle: CycleView,
    reply: ReplyView,
    next: CycleView,
    request: RequestView,
)
    requires
        cycle.wf(),
        cycle_step(cycle, reply) == CycleProgressView::Continue(next, request),
        next.plan_fits(),
    ensures
        next.wf(),
        next.settings == cycle.settings,
        next.pools == cycle.pools,
        next.index == cycle.index || next.index == cycle.index + 1,
{
    match cycle.phase {
        CyclePhaseView::AnnouncingStart { address, epoch } => {
            crate::pipeline::lemma_update_start_is_wf(
                cycle.settings.update,
                update_options(cycle.settings),
                address,
            );
        },
        CyclePhaseView::Updating { epoch, update } => {
            match update_step(update, reply) {
                UpdateProgressView::Continue(after, asked) => {
                    crate::pipeline::lemma_update_step_keeps_wf(update, reply, after, asked);
                },
                _ => {},
            }
        },
        _ => {},
    }
}

/// A pool that was last brought up to date in the network's current epoch
/// is passed over, unless updates are forced: the cycle turns to the next
/// pool at once. No transaction is made for the pool and no notification
/// sent about it; what the cycle asks for next concerns the next pool.
pub proof fn lemma_unchanged_epoch_is_passed_over(
    cycle: CycleView,
    address: Address,
    epoch: u64,
    attempt: u32,
)
    requires
        cycle.wf(),
        cycle.phase == (CyclePhaseView::AwaitingEpoch { address, pool_epoch: epoch, attempt }),
        !cycle.settings.options.force,
    ensures
        cycle_step(cycle, ReplyView::EpochInfo(Ok(epoch))) == cycle.next_pool(),
        cycle.next_pool() matches CycleProgressView::Continue(next, request) ==> {
            &&& next.index == cycle.index + 1
            &&& !request.carries_transaction()
            &&& (request is AccountData || request == RequestView::Notify(
                NotificationView::UpdateFailed { pool: next.pool() },
            ))
        },
{
}

/// A pool whose epoch has changed is announced before anything is done
/// for it, and the update begins only when the announcement has been
/// answered, whether it went out or not.
pub proof fn lemma_changed_epoch_is_announced(
    cycle: CycleView,
    address: Address,
    pool_epoch: u64,
    attempt: u32,
    epoch: u64,
    sent: bool,
)
    requires
        cycle.wf(),
        cycle.phase == (CyclePhaseView::AwaitingEpoch { address, pool_epoch, attempt }),
        pool_epoch != epoch || cycle.settings.options.force,
    ensures
        cycle_step(cycle, ReplyView::EpochInfo(Ok(epoch))) == CycleProgressView::Continue(
            cycle.in_phase(CyclePhaseView::AnnouncingStart { address, epoch }),
            RequestView::Notify(NotificationView::UpdateStarting { pool: cycle.pool(), epoch }),
        ),
        cycle_step(
            cycle.in_phase(CyclePhaseView::AnnouncingStart { address, epoch }),
            ReplyView::Notified(sent),
        ) == cycle.follow_update(
            epoch,
            update_start(cycle.settings.update, update_options(cycle.settings), address),
        ),
{
}

/// A fetch of the epoch that fails is tried again after a wait while the
/// ceiling is not reached. At the ceiling the pool is given up: one
/// notification says that the epoch could not be had, and once it is
/// answered the cycle turns to the next pool.
pub proof fn lemma_epoch_fetch_is_bounded(
    cycle: CycleView,
    address: Address,
    pool_epoch: u64,
    attempt: u32,
    sent: bool,
)
    requires
        cycle.wf(),
        cycle.phase == (CyclePhaseView::AwaitingEpoch { address, pool_epoch, attempt }),
    ensures
        attempt < MAX_FETCH_ATTEMPTS ==> cycle_step(cycle, ReplyView::EpochInfo(Err(crate::error::TransportError)))
            == CycleProgressView::Continue(
            cycle.in_phase(
                CyclePhaseView::EpochBackoff { address, pool_epoch, attempt: (attempt + 1) as u32 },
            ),
            RequestView::Backoff { attempt: (attempt + 1) as u32 },
        ),
        attempt == MAX_FETCH_ATTEMPTS ==> cycle_step(
            cycle,
            ReplyView::EpochInfo(Err(crate::error::TransportError)),
        ) == cycle.report(NotificationView::EpochInfoUnavailable),
        cycle_step(cycle.in_phase(CyclePhaseView::Reporting), ReplyView::Notified(sent))
            == cycle.next_pool(),
{
}

/// A fetch of the pool's account that fails on the network is tried again
/// after a wait while the ceiling is not reached; at the ceiling the pool is
/// given up with one notification. Bytes that hold no pool give the pool up
/// at once.
pub proof fn lemma_pool_fetch_is_bounded(
    cycle: CycleView,
    address: Address,
    attempt: u32,
    data: Seq<u8>,
)
    requires
        cycle.wf(),
        cycle.phase == (CyclePhaseView::AwaitingPool { address, attempt }),
    ensures
        attempt < MAX_FETCH_ATTEMPTS ==> cycle_step(
            cycle,
            ReplyView::AccountData(Err(crate::error::TransportError)),
        ) == CycleProgressView::Continue(
            cycle.in_phase(CyclePhaseView::PoolBackoff { address, attempt: (attempt + 1) as u32 }),
            RequestView::Backoff { attempt: (attempt + 1) as u32 },
        ),
        attempt == MAX_FETCH_ATTEMPTS ==> cycle_step(
            cycle,
            ReplyView::AccountData(Err(crate::error::TransportError)),
        ) == cycle.report_failure(),
        crate::client::stake_pool_of(data) is None ==> cycle_step(
            cycle,
            ReplyView::AccountData(Ok(data)),
        ) == cycle.report_failure(),
{
}

/// Nothing that goes wrong with a pool ends the cycle: a cycle fails only
/// on a reply that does not answer the pending request.
pub proof fn lemma_cycle_outlives_failures(cycle: CycleView, reply: ReplyView, error: UpdateError)
    requires
        cycle_step(cycle, reply) == CycleProgressView::Finished(Err::<(), UpdateError>(error)),
    ensures
        error == UpdateError::UnexpectedReply,
{
}

/// Whatever an update comes to, it is reported once, by one notification,
/// and the cycle then stands ready for the next pool: success as success,
/// any failure as failure.
pub proof fn lemma_update_is_reported(
    cycle: CycleView,
    epoch: u64,
    update: PoolUpdateView,
    reply: ReplyView,
    sent: bool,
)
    requires
        cycle.wf(),
        cycle.phase == (CyclePhaseView::Updating { epoch, update }),
        update_step(update, reply) is Finished,
    ensures
        update_step(update, reply) matches UpdateProgressView::Finished(Ok(_)) ==> cycle_step(
            cycle,
            reply,
        ) == cycle.report(NotificationView::UpdateSucceeded { pool: cycle.pool(), epoch }),
        update_step(update, reply) matches UpdateProgressView::Finished(Err(_)) ==> cycle_step(
            cycle,
            reply,
        ) == cycle.report_failure(),
        cycle_step(cycle.in_phase(CyclePhaseView::Reporting), ReplyView::Notified(sent))
            == cycle.next_pool(),
{
}

/// A cycle makes a transaction known only while an update is running, and
/// then it is the update's transaction.
pub proof fn lemma_transactions_come_from_updates(
    cycle: CycleView,
    reply: ReplyView,
    next: CycleView,
    request: RequestView,
)
    requires
        cycle_step(cycle, reply) == CycleProgressView::Continue(next, request),
        request.carries_transaction(),
    ensures
        ({
            &&& cycle.phase matches CyclePhaseView::Updating { update, .. }
            &&& update_step(update, reply) matches UpdateProgressView::Continue(_, asked)
            &&& asked == request
        }),
{
}

/// The update of a pool begins only after its start was announced, and its
/// start is announced only when the network's epoch differs from the epoch
/// of the pool's last update, or updates are forced. So for a pool that is
/// up to date no update runs, and with it no transaction is made.
pub proof fn lemma_update_begins_only_on_changed_epoch(
    cycle: CycleView,
    reply: ReplyView,
    next: CycleView,
    request: RequestView,
)
    requires
        cycle_step(cycle, reply) == CycleProgressView::Continue(next, request),
    ensures
        next.phase is Updating && !(cycle.phase is Updating) ==> cycle.phase is AnnouncingStart,
        next.phase is AnnouncingStart ==> {
            &&& cycle.phase matches CyclePhaseView::AwaitingEpoch { pool_epoch, .. }
            &&& reply matches ReplyView::EpochInfo(Ok(epoch))
            &&& (pool_epoch != epoch || cycle.settings.options.force)
            &&& request == RequestView::Notify(
                NotificationView::UpdateStarting { pool: cycle.pool(), epoch },
            )
        },
{
}

/// In a cycle, a transaction reaches the send path only in answer to a
/// balance of the fee payer that covers the fee that was estimated for it.
pub proof fn lemma_cycle_submits_only_when_affordable(
    cycle: CycleView,
    reply: ReplyView,
    next: CycleView,
    request: RequestView,
)
    requires
        cycle.wf(),
        cycle_step(cycle, reply) == CycleProgressView::Continue(next, request),
        request.is_submission(),
    ensures
        ({
            &&& cycle.phase matches CyclePhaseView::Updating { update, .. }
            &&& update.phase matches crate::pipeline::UpdatePhaseView::Submitting { submission, .. }
            &&& submission.phase matches crate::builder::SubmissionPhaseView::AwaitingBalance {
                fee,
                ..
            }
            &&& reply matches ReplyView::Balance(Ok(balance))
            &&& balance >= fee
        }),
{
    match cycle.phase {
        CyclePhaseView::Updating { epoch, update } => {
            match update_step(update, reply) {
                UpdateProgressView::Continue(after, asked) => {
                    crate::pipeline::lemma_transactions_sent_as_planned(update, reply, after, asked);
                    match update.phase {
                        crate::pipeline::UpdatePhaseView::Submitting { plan, batch, submission } => {
                            match crate::builder::submission_step(submission, reply) {
                                crate::builder::SubmissionProgressView::Continue(then, handed) => {
                                    crate::builder::lemma_submitted_only_when_affordable(
                                        submission,
                                        reply,
                                        then,
                                        handed,
                                    );
                                },
                                _ => {},
                            }
                        },
                        _ => {},
                    }
                },
                _ => {},
            }
        },
        _ => {},
    }
}

} // verus!
