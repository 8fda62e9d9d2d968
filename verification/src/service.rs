//! The background loop: what each round does, in which order, and what it
//! remembers for the next.

use crate::bank::Slot;
use crate::channel::{new_dropped_slots_channel, signals_from, signals_into};
use crate::error::SnapshotError;
use crate::jitter::MAX_CLEAN_JITTER;
use crate::pruned::{DroppedSlotsReceiver, DroppedSlotsSender, RemovedSlots};
use crate::{INTERVAL_MS, SHRUNKEN_ACCOUNT_PER_INTERVAL};
use vstd::prelude::*;

verus! {

/// How many blocks lie between two cleanings, at least.
pub const CLEAN_INTERVAL_BLOCKS: u64 = 100;

/// How long an unused store is kept for recycling, in seconds.
pub const EXPIRATION_TTL_SECONDS: u64 = 1800;

/// How often old stores are dropped, in seconds. The time to live of a store is
/// spread over three checks, so that not all of them are dropped at once.
pub const RECYCLE_STORE_EXPIRATION_INTERVAL_SECS: u64 = EXPIRATION_TTL_SECONDS / 3;

pub const NANOS_PER_SEC: u128 = 1_000_000_000;

pub const NANOS_PER_MICRO: u128 = 1_000;

/// One step of a round of the background loop.
#[derive(Clone, Copy, Debug, PartialEq, Eq, Structural)]
pub enum ServiceStep {
    /// Look whether the service has to end.
    ReadExitFlag,
    /// Get the current root bank.
    FetchRootBank,
    /// Purge the accounts of any dead slots.
    RemoveDeadSlots,
    /// Report the slots removed so far.
    ReportRemovedSlots,
    /// Look at the clock, for the expiration of stores.
    CheckExpiration,
    /// Drop the stores that have expired.
    ExpireOldRecycleStores,
    /// Look at the clock, for the time since the last snapshot.
    MeasureNonSnapshotTime,
    /// Check for requests for snapshotting banks, and handle one.
    HandleSnapshotRequests,
    /// Look at the clock, for the end of the snapshot.
    RecordSnapshotEnd,
    /// Flush the accounts cache, if it is large enough. The flush does an internal
    /// clean of the cache up to the root bank, which is safe as long as any later
    /// snapshots are of slots from the root bank on.
    FlushAccountsCacheIfNeeded,
    /// Tell everyone to end.
    RaiseExitFlag,
    /// Shrink the candidate slots.
    ShrinkCandidateSlots,
    /// Shrink the next stale slot, within a budget: under sustained writes shrinking
    /// can lag behind.
    ProcessStaleSlot,
    /// Draw the delay of the next cleaning.
    DrawCleanJitter,
    /// Flush the accounts cache up to and with the root bank.
    ForceFlushAccountsCache,
    /// Clean the accounts.
    CleanAccounts,
    /// Count the round and the time it took.
    RecordRound,
    /// Sleep until the next round.
    Sleep,
    /// The service has ended.
    Stopped,
}

/// A step with everything that has to be passed along.
#[derive(Clone, Copy, Debug)]
pub enum ServiceAction {
    ReadExitFlag,
    FetchRootBank,
    RemoveDeadSlots,
    ReportRemovedSlots { removed: RemovedSlots },
    ReadClock,
    ExpireOldRecycleStores,
    HandleSnapshotRequests {
        accounts_db_caching_enabled: bool,
        test_hash_calculation: bool,
        non_snapshot_time_us: u128,
        last_full_snapshot_slot: Option<Slot>,
    },
    FlushAccountsCacheIfNeeded,
    RaiseExitFlag,
    ShrinkCandidateSlots,
    ProcessStaleSlot { consumed_budget: usize, budget_recovery_delta: usize },
    DrawCleanJitter,
    ForceFlushAccountsCache,
    CleanAccounts { last_full_snapshot_slot: Option<Slot> },
    RecordRound,
    Sleep { millis: u64 },
    Stop,
}

/// What came of the snapshot requests of a round.
#[derive(Clone, Copy, Debug, PartialEq, Eq, Structural)]
pub enum SnapshotOutcome {
    /// There was none.
    NoRequest,
    /// One was handled, for a bank of that block height.
    Handled(u64),
    /// Handling one failed.
    Failed,
}

/// The outcome, given the result of handling, if there was anything to handle.
pub open spec fn outcome_of(result: Option<Result<u64, SnapshotError>>) -> SnapshotOutcome {
    match result {
        None => SnapshotOutcome::NoRequest,
        Some(Ok(block_height)) => SnapshotOutcome::Handled(block_height),
        Some(Err(_)) => SnapshotOutcome::Failed,
    }
}

/// The time from `from` to `to`; none, if `to` is earlier.
pub open spec fn elapsed_nanos(from: u128, to: u128) -> int {
    if from <= to {
        to - from
    } else {
        0
    }
}

/// Stores were last dropped at `last`, and are to be dropped at `now` again: more
/// than the interval of whole seconds has passed.
pub open spec fn expiration_due(last: u128, now: u128) -> bool {
    elapsed_nanos(last, now) / NANOS_PER_SEC as int > RECYCLE_STORE_EXPIRATION_INTERVAL_SECS
}

/// The accounts were last cleaned at the height `last_cleaned`, and are to be
/// cleaned again at `block_height`.
pub open spec fn clean_due(block_height: u64, last_cleaned: u64, jitter: u64) -> bool {
    block_height - last_cleaned > CLEAN_INTERVAL_BLOCKS + jitter
}

/// The background loop, between two steps. Times are in nanoseconds, from any
/// fixed moment on.
#[derive(Clone, Copy, Debug)]
pub struct AccountsBackgroundService {
    pub accounts_db_caching_enabled: bool,
    pub test_hash_calculation: bool,
    /// Slot of the last full snapshot.
    pub last_full_snapshot_slot: Option<Slot>,
    /// How much of the budget for shrinking stale slots is used up.
    pub consumed_budget: usize,
    /// Block height of the bank that was last cleaned.
    pub last_cleaned_block_height: u64,
    /// Slots removed since the last report.
    pub removed_slots: RemovedSlots,
    /// When stores were last dropped.
    pub last_expiration_check_time: u128,
    /// When the last snapshot ended.
    pub last_snapshot_end_time: Option<u128>,
    /// Block height of the root bank of this round.
    pub root_block_height: u64,
    /// The report on removed slots that is due in this round.
    pub removed_slots_report: RemovedSlots,
    /// How long before this round's snapshot requests the last snapshot ended.
    pub non_snapshot_time_us: u128,
    /// What came of this round's snapshot requests.
    pub snapshot_outcome: SnapshotOutcome,
    /// What to do next.
    pub step: ServiceStep,
}

impl AccountsBackgroundService {
    /// The budget is kept to, no report is overdue, and what a step looks back on has
    /// happened: the end of a snapshot, or the handling of a bank that is not below
    /// the one last cleaned.
    pub open spec fn well_formed(&self) -> bool {
        &&& self.consumed_budget <= SHRUNKEN_ACCOUNT_PER_INTERVAL
        &&& !self.removed_slots.is_reportable()
        &&& self.step is MeasureNonSnapshotTime ==> self.last_snapshot_end_time is Some
        &&& self.step is RecordSnapshotEnd || self.step is FlushAccountsCacheIfNeeded ==> {
            self.snapshot_outcome matches SnapshotOutcome::Handled(block_height)
                ==> self.last_cleaned_block_height <= block_height
        }
    }

    /// At step `step`, with nothing else changed.
    pub open spec fn at(self, step: ServiceStep) -> Self {
        AccountsBackgroundService { step, ..self }
    }

    pub open spec fn after_exit_flag(self, exit: bool) -> Self {
        self.at(
            if exit {
                ServiceStep::Stopped
            } else {
                ServiceStep::FetchRootBank
            },
        )
    }

    pub open spec fn after_root_bank(self, block_height: u64) -> Self {
        AccountsBackgroundService {
            root_block_height: block_height,
            step: ServiceStep::RemoveDeadSlots,
            ..self
        }
    }

    pub open spec fn after_dead_slots(self, count: usize, time: u64) -> Self {
        let sums = self.removed_slots.plus(count, time);
        if sums.is_reportable() {
            AccountsBackgroundService {
                removed_slots: RemovedSlots::zero(),
                removed_slots_report: sums,
                step: ServiceStep::ReportRemovedSlots,
                ..self
            }
        } else {
            AccountsBackgroundService {
                removed_slots: sums,
                step: ServiceStep::CheckExpiration,
                ..self
            }
        }
    }

    /// On the way to the snapshot requests: the time since the last snapshot is
    /// measured if there was one.
    pub open spec fn before_requests(self) -> Self {
        if self.last_snapshot_end_time is Some {
            self.at(ServiceStep::MeasureNonSnapshotTime)
        } else {
            AccountsBackgroundService {
                non_snapshot_time_us: 0,
                step: ServiceStep::HandleSnapshotRequests,
                ..self
            }
        }
    }

    pub open spec fn after_clock(self, now: u128) -> Self {
        if self.step is CheckExpiration {
            if expiration_due(self.last_expiration_check_time, now) {
                AccountsBackgroundService {
                    last_expiration_check_time: now,
                    step: ServiceStep::ExpireOldRecycleStores,
                    ..self
                }
            } else {
                self.before_requests()
            }
        } else if self.step is MeasureNonSnapshotTime {
            AccountsBackgroundService {
                non_snapshot_time_us: (elapsed_nanos(self.last_snapshot_end_time->0, now)
                    / NANOS_PER_MICRO as int) as u128,
                step: ServiceStep::HandleSnapshotRequests,
                ..self
            }
        } else {
            (AccountsBackgroundService { last_snapshot_end_time: Some(now), ..self })
                .after_snapshots()
        }
    }

    pub open spec fn after_requests(
        self,
        outcome: SnapshotOutcome,
        last_full_snapshot_slot: Option<Slot>,
    ) -> Self {
        let handled = AccountsBackgroundService {
            snapshot_outcome: outcome,
            last_full_snapshot_slot,
            ..self
        };
        if outcome is NoRequest {
            handled.after_snapshots()
        } else {
            handled.at(ServiceStep::RecordSnapshotEnd)
        }
    }

    /// Once the snapshot requests are out of the way.
    pub open spec fn after_snapshots(self) -> Self {
        if self.accounts_db_caching_enabled {
            self.at(ServiceStep::FlushAccountsCacheIfNeeded)
        } else {
            self.settled()
        }
    }

    /// The consequence of what came of the snapshot requests. Handling one has
    /// cleaned the accounts already; without any, the root bank is looked after; and
    /// a failure ends the service.
    pub open spec fn settled(self) -> Self {
        match self.snapshot_outcome {
            SnapshotOutcome::Handled(block_height) => AccountsBackgroundService {
                last_cleaned_block_height: block_height,
                step: ServiceStep::RecordRound,
                ..self
            },
            SnapshotOutcome::Failed => self.at(ServiceStep::RaiseExitFlag),
            SnapshotOutcome::NoRequest => self.at(
                if self.accounts_db_caching_enabled {
                    ServiceStep::ShrinkCandidateSlots
                } else {
                    ServiceStep::ProcessStaleSlot
                },
            ),
        }
    }

    pub open spec fn after_stale_slot(self, consumed_budget: usize) -> Self {
        AccountsBackgroundService {
            consumed_budget: if consumed_budget <= SHRUNKEN_ACCOUNT_PER_INTERVAL {
                consumed_budget
            } else {
                SHRUNKEN_ACCOUNT_PER_INTERVAL
            },
            step: ServiceStep::DrawCleanJitter,
            ..self
        }
    }

    pub open spec fn after_jitter(self, jitter: u64) -> Self {
        self.at(
            if !clean_due(self.root_block_height, self.last_cleaned_block_height, jitter) {
                ServiceStep::RecordRound
            } else if self.accounts_db_caching_enabled {
                ServiceStep::ForceFlushAccountsCache
            } else {
                ServiceStep::CleanAccounts
            },
        )
    }

    /// The steps of which nothing has to be known but that they are done.
    pub open spec fn is_plain_step(self) -> bool {
        match self.step {
            ServiceStep::ReportRemovedSlots
            | ServiceStep::ExpireOldRecycleStores
            | ServiceStep::FlushAccountsCacheIfNeeded
            | ServiceStep::RaiseExitFlag
            | ServiceStep::ShrinkCandidateSlots
            | ServiceStep::ForceFlushAccountsCache
            | ServiceStep::CleanAccounts
            | ServiceStep::RecordRound
            | ServiceStep::Sleep => true,
            _ => false,
        }
    }

    pub open spec fn after_plain_step(self) -> Self {
        match self.step {
            ServiceStep::ReportRemovedSlots => self.at(ServiceStep::CheckExpiration),
            ServiceStep::ExpireOldRecycleStores => self.before_requests(),
            ServiceStep::FlushAccountsCacheIfNeeded => self.settled(),
            ServiceStep::RaiseExitFlag => self.at(ServiceStep::Stopped),
            ServiceStep::ShrinkCandidateSlots => self.at(ServiceStep::DrawCleanJitter),
            ServiceStep::ForceFlushAccountsCache => self.at(ServiceStep::CleanAccounts),
            ServiceStep::CleanAccounts => AccountsBackgroundService {
                last_cleaned_block_height: self.root_block_height,
                step: ServiceStep::RecordRound,
                ..self
            },
            ServiceStep::RecordRound => self.at(ServiceStep::Sleep),
            _ => self.at(ServiceStep::ReadExitFlag),
        }
    }

    /// The step to take, with what has to be passed along.
    pub open spec fn next_action(self) -> ServiceAction {
        match self.step {
            ServiceStep::ReadExitFlag => ServiceAction::ReadExitFlag,
            ServiceStep::FetchRootBank => ServiceAction::FetchRootBank,
            ServiceStep::RemoveDeadSlots => ServiceAction::RemoveDeadSlots,
            ServiceStep::ReportRemovedSlots => ServiceAction::ReportRemovedSlots {
                removed: self.removed_slots_report,
            },
            ServiceStep::CheckExpiration
            | ServiceStep::MeasureNonSnapshotTime
            | ServiceStep::RecordSnapshotEnd => ServiceAction::ReadClock,
            ServiceStep::ExpireOldRecycleStores => ServiceAction::ExpireOldRecycleStores,
            ServiceStep::HandleSnapshotRequests => ServiceAction::HandleSnapshotRequests {
                accounts_db_caching_enabled: self.accounts_db_caching_enabled,
                test_hash_calculation: self.test_hash_calculation,
                non_snapshot_time_us: self.non_snapshot_time_us,
                last_full_snapshot_slot: self.last_full_snapshot_slot,
            },
            ServiceStep::FlushAccountsCacheIfNeeded => ServiceAction::FlushAccountsCacheIfNeeded,
            ServiceStep::RaiseExitFlag => ServiceAction::RaiseExitFlag,
            ServiceStep::ShrinkCandidateSlots => ServiceAction::ShrinkCandidateSlots,
            ServiceStep::ProcessStaleSlot => ServiceAction::ProcessStaleSlot {
                consumed_budget: self.consumed_budget,
                budget_recovery_delta: SHRUNKEN_ACCOUNT_PER_INTERVAL,
            },
            ServiceStep::DrawCleanJitter => ServiceAction::DrawCleanJitter,
            ServiceStep::ForceFlushAccountsCache => ServiceAction::ForceFlushAccountsCache,
            ServiceStep::CleanAccounts => ServiceAction::CleanAccounts {
                last_full_snapshot_slot: self.last_full_snapshot_slot,
            },
            ServiceStep::RecordRound => ServiceAction::RecordRound,
            ServiceStep::Sleep => ServiceAction::Sleep { millis: INTERVAL_MS },
            ServiceStep::Stopped => ServiceAction::Stop,
        }
    }

    /// A service that starts at `now`.
    pub fn new(
        accounts_db_caching_enabled: bool,
        test_hash_calculation: bool,
        last_full_snapshot_slot: Option<Slot>,
        now: u128,
    ) -> (service: Self)
        ensures
            service.well_formed(),
            service.accounts_db_caching_enabled == accounts_db_caching_enabled,
            service.test_hash_calculation == test_hash_calculation,
            service.last_full_snapshot_slot == last_full_snapshot_slot,
            service.consumed_budget == 0,
            service.last_cleaned_block_height == 0,
            service.removed_slots == RemovedSlots::zero(),
            service.last_expiration_check_time == now,
            service.last_snapshot_end_time is None,
            service.step is ReadExitFlag,
    {
        let none = RemovedSlots { removed_slots_count: 0, total_remove_slots_time: 0 };
        AccountsBackgroundService {
            accounts_db_caching_enabled,
            test_hash_calculation,
            last_full_snapshot_slot,
            consumed_budget: 0,
            last_cleaned_block_height: 0,
            removed_slots: none,
            last_expiration_check_time: now,
            last_snapshot_end_time: None,
            root_block_height: 0,
            removed_slots_report: none,
            non_snapshot_time_us: 0,
            snapshot_outcome: SnapshotOutcome::NoRequest,
            step: ServiceStep::ReadExitFlag,
        }
    }

    /// The step to take, with what has to be passed along.
    pub fn action(&self) -> (action: ServiceAction)
        ensures
            action == self.next_action(),
    {
        match self.step {
            ServiceStep::ReadExitFlag => ServiceAction::ReadExitFlag,
            ServiceStep::FetchRootBank => ServiceAction::FetchRootBank,
            ServiceStep::RemoveDeadSlots => ServiceAction::RemoveDeadSlots,
            ServiceStep::ReportRemovedSlots => ServiceAction::ReportRemovedSlots {
                removed: self.removed_slots_report,
            },
            ServiceStep::CheckExpiration
            | ServiceStep::MeasureNonSnapshotTime
            | ServiceStep::RecordSnapshotEnd => ServiceAction::ReadClock,
            ServiceStep::ExpireOldRecycleStores => ServiceAction::ExpireOldRecycleStores,
            ServiceStep::HandleSnapshotRequests => ServiceAction::HandleSnapshotRequests {
                accounts_db_caching_enabled: self.accounts_db_caching_enabled,
                test_hash_calculation: self.test_hash_calculation,
                non_snapshot_time_us: self.non_snapshot_time_us,
                last_full_snapshot_slot: self.last_full_snapshot_slot,
            },
            ServiceStep::FlushAccountsCacheIfNeeded => ServiceAction::FlushAccountsCacheIfNeeded,
            ServiceStep::RaiseExitFlag => ServiceAction::RaiseExitFlag,
            ServiceStep::ShrinkCandidateSlots => ServiceAction::ShrinkCandidateSlots,
            ServiceStep::ProcessStaleSlot => ServiceAction::ProcessStaleSlot {
                consumed_budget: self.consumed_budget,
                budget_recovery_delta: SHRUNKEN_ACCOUNT_PER_INTERVAL,
            },
            ServiceStep::DrawCleanJitter => ServiceAction::DrawCleanJitter,
            ServiceStep::ForceFlushAccountsCache => ServiceAction::ForceFlushAccountsCache,
            ServiceStep::CleanAccounts => ServiceAction::CleanAccounts {
                last_full_snapshot_slot: self.last_full_snapshot_slot,
            },
            ServiceStep::RecordRound => ServiceAction::RecordRound,
            ServiceStep::Sleep => ServiceAction::Sleep { millis: INTERVAL_MS },
            ServiceStep::Stopped => ServiceAction::Stop,
        }
    }

    /// The exit flag was read.
    pub fn exit_flag_read(&mut self, exit: bool)
        requires
            old(self).well_formed(),
            old(self).step is ReadExitFlag,
        ensures
            *final(self) == old(self).after_exit_flag(exit),
            final(self).well_formed(),
    {
        self.step = if exit {
            ServiceStep::Stopped
        } else {
            ServiceStep::FetchRootBank
        };
    }

    /// The root bank has the height `block_height`.
    pub fn root_bank_fetched(&mut self, block_height: u64)
        requires
            old(self).well_formed(),
            old(self).step is FetchRootBank,
        ensures
            *final(self) == old(self).after_root_bank(block_height),
            final(self).well_formed(),
    {
        self.root_block_height = block_height;
        self.step = ServiceStep::RemoveDeadSlots;
    }

    /// `count` dead slots were purged, which took `time` microseconds.
    pub fn dead_slots_removed(&mut self, count: usize, time: u64)
        requires
            old(self).well_formed(),
            old(self).step is RemoveDeadSlots,
            old(self).removed_slots.fits(count, time),
        ensures
            *final(self) == old(self).after_dead_slots(count, time),
            final(self).well_formed(),
    {
        match self.removed_slots.record(count, time) {
            Some(report) => {
                self.removed_slots_report = report;
                self.step = ServiceStep::ReportRemovedSlots;
            },
            None => {
                self.step = ServiceStep::CheckExpiration;
            },
        }
    }

    /// The clock shows `now`.
    pub fn clock_read(&mut self, now: u128)
        requires
            old(self).well_formed(),
            old(self).step is CheckExpiration || old(self).step is MeasureNonSnapshotTime
                || old(self).step is RecordSnapshotEnd,
        ensures
            *final(self) == old(self).after_clock(now),
            final(self).well_formed(),
    {
        match self.step {
            ServiceStep::CheckExpiration => {
                if self.expire_old_recycle_stores(now) {
                    self.step = ServiceStep::ExpireOldRecycleStores;
                } else {
                    self.go_to_requests();
                }
            },
            ServiceStep::MeasureNonSnapshotTime => {
                if let Some(last_snapshot_end_time) = self.last_snapshot_end_time {
                    self.non_snapshot_time_us =
                    now.saturating_sub(last_snapshot_end_time) / NANOS_PER_MICRO;
                    self.step = ServiceStep::HandleSnapshotRequests;
                }
            },
            _ => {
                self.last_snapshot_end_time = Some(now);
                self.leave_snapshots();
            },
        }
    }

    /// Whether stores are to be dropped at `now`; if so, that is remembered.
    fn expire_old_recycle_stores(&mut self, now: u128) -> (due: bool)
        ensures
            due == expiration_due(old(self).last_expiration_check_time, now),
            *final(self) == (AccountsBackgroundService {
                last_expiration_check_time: if due {
                    now
                } else {
                    old(self).last_expiration_check_time
                },
                ..*old(self)
            }),
    {
        let elapsed_secs: u128 = now.saturating_sub(self.last_expiration_check_time)
            / NANOS_PER_SEC;
        if elapsed_secs > RECYCLE_STORE_EXPIRATION_INTERVAL_SECS as u128 {
            self.last_expiration_check_time = now;
            true
        } else {
            false
        }
    }

    fn go_to_requests(&mut self)
        ensures
            *final(self) == old(self).before_requests(),
    {
        if self.last_snapshot_end_time.is_some() {
            self.step = ServiceStep::MeasureNonSnapshotTime;
        } else {
            self.non_snapshot_time_us = 0;
            self.step = ServiceStep::HandleSnapshotRequests;
        }
    }

    fn leave_snapshots(&mut self)
        ensures
            *final(self) == old(self).after_snapshots(),
    {
        if self.accounts_db_caching_enabled {
            self.step = ServiceStep::FlushAccountsCacheIfNeeded;
        } else {
            self.settle();
        }
    }

    fn settle(&mut self)
        ensures
            *final(self) == old(self).settled(),
    {
        match self.snapshot_outcome {
            SnapshotOutcome::Handled(block_height) => {
                self.last_cleaned_block_height = block_height;
                self.step = ServiceStep::RecordRound;
            },
            SnapshotOutcome::Failed => {
                self.step = ServiceStep::RaiseExitFlag;
            },
            SnapshotOutcome::NoRequest => {
                self.step = if self.accounts_db_caching_enabled {
                    ServiceStep::ShrinkCandidateSlots
                } else {
                    ServiceStep::ProcessStaleSlot
                };
            },
        }
    }

    /// The snapshot requests were handled, with `result` if there was one, and the
    /// last full snapshot now is of `last_full_snapshot_slot`.
    ///
    /// A request is handled for a bank that is not below the one last cleaned: the
    /// requests for a bank are there before a bank above it becomes the root, and
    /// only banks below the root are cleaned.
    pub fn snapshot_requests_handled(
        &mut self,
        result: &Option<Result<u64, SnapshotError>>,
        last_full_snapshot_slot: Option<Slot>,
    )
        requires
            old(self).well_formed(),
            old(self).step is HandleSnapshotRequests,
            *result matches Some(Ok(block_height)) ==> old(self).last_cleaned_block_height
                <= block_height,
        ensures
            *final(self) == old(self).after_requests(outcome_of(*result), last_full_snapshot_slot),
            final(self).well_formed(),
    {
        self.last_full_snapshot_slot = last_full_snapshot_slot;
        match result {
            None => {
                self.snapshot_outcome = SnapshotOutcome::NoRequest;
                self.leave_snapshots();
            },
            Some(Ok(block_height)) => {
                self.snapshot_outcome = SnapshotOutcome::Handled(*block_height);
                self.step = ServiceStep::RecordSnapshotEnd;
            },
            Some(Err(_)) => {
                self.snapshot_outcome = SnapshotOutcome::Failed;
                self.step = ServiceStep::RecordSnapshotEnd;
            },
        }
    }

    /// A stale slot was shrunk, after which `consumed_budget` is used up.
    pub fn stale_slot_processed(&mut self, consumed_budget: usize)
        requires
            old(self).well_formed(),
            old(self).step is ProcessStaleSlot,
        ensures
            *final(self) == old(self).after_stale_slot(consumed_budget),
            final(self).well_formed(),
    {
        self.consumed_budget = if consumed_budget <= SHRUNKEN_ACCOUNT_PER_INTERVAL {
            consumed_budget
        } else {
            SHRUNKEN_ACCOUNT_PER_INTERVAL
        };
        self.step = ServiceStep::DrawCleanJitter;
    }

    /// Cleaning is delayed by `jitter` blocks.
    pub fn clean_jitter_drawn(&mut self, jitter: u64)
        requires
            old(self).well_formed(),
            old(self).step is DrawCleanJitter,
            old(self).last_cleaned_block_height <= old(self).root_block_height,
            jitter < MAX_CLEAN_JITTER,
        ensures
            *final(self) == old(self).after_jitter(jitter),
            final(self).well_formed(),
    {
        self.step = if self.root_block_height - self.last_cleaned_block_height
            > CLEAN_INTERVAL_BLOCKS + jitter {
            if self.accounts_db_caching_enabled {
                ServiceStep::ForceFlushAccountsCache
            } else {
                ServiceStep::CleanAccounts
            }
        } else {
            ServiceStep::RecordRound
        };
    }

    /// The step is done, and there is nothing to say about it.
    pub fn done(&mut self)
        requires
            old(self).well_formed(),
            old(self).is_plain_step(),
        ensures
            *final(self) == old(self).after_plain_step(),
            final(self).well_formed(),
    {
        match self.step {
            ServiceStep::ReportRemovedSlots => {
                self.step = ServiceStep::CheckExpiration;
            },
            ServiceStep::ExpireOldRecycleStores => {
                self.go_to_requests();
            },
            ServiceStep::FlushAccountsCacheIfNeeded => {
                self.settle();
            },
            ServiceStep::RaiseExitFlag => {
                self.step = ServiceStep::Stopped;
            },
            ServiceStep::ShrinkCandidateSlots => {
                self.step = ServiceStep::DrawCleanJitter;
            },
            ServiceStep::ForceFlushAccountsCache => {
                self.step = ServiceStep::CleanAccounts;
            },
            ServiceStep::CleanAccounts => {
                self.last_cleaned_block_height = self.root_block_height;
                self.step = ServiceStep::RecordRound;
            },
            ServiceStep::RecordRound => {
                self.step = ServiceStep::Sleep;
            },
            _ => {
                self.step = ServiceStep::ReadExitFlag;
            },
        }
    }

    /// A channel for the signals of dropped banks: the side that the callback of the
    /// root bank gets, and the side that the service gets. What is signalled on the
    /// one comes out on the other.
    ///
    /// It is set up right after the banks were loaded, while the root bank is the
    /// only one: every bank that comes later descends from it and inherits its
    /// callback.
    pub fn setup_bank_drop_callback(bank_count: usize) -> (ends: (
        DroppedSlotsSender,
        DroppedSlotsReceiver,
    ))
        requires
            bank_count == 1,
        ensures
            signals_into(ends.0) == signals_from(ends.1),
    {
        new_dropped_slots_channel()
    }
}

/// What came of the snapshot requests, by the result: without a request there is no
/// result and nothing came; a height is one that was handled; and any error, whichever
/// it is, is a failure.
pub proof fn law_outcome_of_a_result(
    result: Option<Result<u64, SnapshotError>>,
    block_height: u64,
)
    ensures
        outcome_of(result) is NoRequest <==> result is None,
        outcome_of(result) == SnapshotOutcome::Handled(block_height) <==> (result matches Some(
            Ok(height),
        ) && height == block_height),
        outcome_of(result) is Failed <==> result matches Some(Err(_)),
{
}

/// A result is on record once the requests are handled, whichever it is, and where
/// there is one the end of the snapshot is recorded next.
pub proof fn law_requests_handled(
    service: AccountsBackgroundService,
    result: Option<Result<u64, SnapshotError>>,
    last_full_snapshot_slot: Option<Slot>,
)
    ensures
        ({
            let after = service.after_requests(outcome_of(result), last_full_snapshot_slot);
            &&& after.last_full_snapshot_slot == last_full_snapshot_slot
            &&& after.snapshot_outcome is NoRequest <==> result is None
            &&& result matches Some(Err(_)) ==> after.snapshot_outcome is Failed
            &&& result matches Some(Ok(height)) ==> after.snapshot_outcome
                == SnapshotOutcome::Handled(height)
            &&& result is Some ==> after.step is RecordSnapshotEnd
            &&& result is Some ==> after.last_cleaned_block_height
                == service.last_cleaned_block_height
            &&& result is None ==> after.step == if service.accounts_db_caching_enabled {
                ServiceStep::FlushAccountsCacheIfNeeded
            } else {
                ServiceStep::ProcessStaleSlot
            }
        }),
{
}

/// What every step is told.
pub proof fn law_what_the_steps_are_told(service: AccountsBackgroundService)
    ensures
        service.step is ReadExitFlag ==> service.next_action() == ServiceAction::ReadExitFlag,
        service.step is FetchRootBank ==> service.next_action() == ServiceAction::FetchRootBank,
        service.step is RemoveDeadSlots ==> service.next_action() == ServiceAction::RemoveDeadSlots,
        service.step is ReportRemovedSlots ==> service.next_action() == (
        ServiceAction::ReportRemovedSlots { removed: service.removed_slots_report }),
        service.step is CheckExpiration || service.step is MeasureNonSnapshotTime
            || service.step is RecordSnapshotEnd ==> service.next_action()
            == ServiceAction::ReadClock,
        service.step is ExpireOldRecycleStores ==> service.next_action()
            == ServiceAction::ExpireOldRecycleStores,
        service.step is HandleSnapshotRequests ==> service.next_action() == (
        ServiceAction::HandleSnapshotRequests {
            accounts_db_caching_enabled: service.accounts_db_caching_enabled,
            test_hash_calculation: service.test_hash_calculation,
            non_snapshot_time_us: service.non_snapshot_time_us,
            last_full_snapshot_slot: service.last_full_snapshot_slot,
        }),
        service.step is FlushAccountsCacheIfNeeded ==> service.next_action()
            == ServiceAction::FlushAccountsCacheIfNeeded,
        service.step is RaiseExitFlag ==> service.next_action() == ServiceAction::RaiseExitFlag,
        service.step is ShrinkCandidateSlots ==> service.next_action()
            == ServiceAction::ShrinkCandidateSlots,
        service.step is ProcessStaleSlot ==> service.next_action() == (
        ServiceAction::ProcessStaleSlot {
            consumed_budget: service.consumed_budget,
            budget_recovery_delta: 25,
        }),
        service.step is DrawCleanJitter ==> service.next_action() == ServiceAction::DrawCleanJitter,
        service.step is ForceFlushAccountsCache ==> service.next_action()
            == ServiceAction::ForceFlushAccountsCache,
        service.step is CleanAccounts ==> service.next_action() == (ServiceAction::CleanAccounts {
            last_full_snapshot_slot: service.last_full_snapshot_slot,
        }),
        service.step is RecordRound ==> service.next_action() == ServiceAction::RecordRound,
        service.step is Sleep ==> service.next_action() == (ServiceAction::Sleep { millis: 100 }),
        service.step is Stopped ==> service.next_action() == ServiceAction::Stop,
{
}

/// Stores are dropped again from the 601st full second after the last time on, a
/// third of the half hour that they live having passed.
pub proof fn law_when_stores_expire(last: u128, now: u128)
    ensures
        expiration_due(last, now) <==> now >= last + 601 * 1_000_000_000,
{
}

/// Cleaning is due exactly when more than a hundred blocks and the delay lie between.
pub proof fn law_when_cleaning_is_due(block_height: u64, last_cleaned: u64, jitter: u64)
    ensures
        clean_due(block_height, last_cleaned, jitter) <==> block_height > last_cleaned + 100
            + jitter,
{
}

} // verus!
