//! What one whole round of the background loop comes to.

use crate::bank::Slot;
use crate::error::SnapshotError;
use crate::jitter::MAX_CLEAN_JITTER;
use crate::pruned::{law_removed_slots_add_up, RemovedSlots};
use crate::service::{
    clean_due, elapsed_nanos, expiration_due, law_when_stores_expire, outcome_of,
    AccountsBackgroundService, ServiceAction, ServiceStep, SnapshotOutcome, CLEAN_INTERVAL_BLOCKS,
    NANOS_PER_MICRO,
};
use crate::SHRUNKEN_ACCOUNT_PER_INTERVAL;
use vstd::prelude::*;

verus! {

/// What the runtime answers in the course of a round.
pub struct Answers {
    pub exit: bool,
    pub root_block_height: u64,
    pub removed_count: usize,
    pub removed_time: u64,
    pub expiration_clock: u128,
    pub requests_clock: u128,
    pub outcome: SnapshotOutcome,
    pub last_full_snapshot_slot: Option<Slot>,
    pub snapshot_end_clock: u128,
    pub consumed_budget: usize,
    pub jitter: u64,
}

/// The answers that `service` can go on with: the sums of removed slots fit, and
/// no bank is below the one last cleaned.
pub open spec fn acceptable(service: AccountsBackgroundService, answers: Answers) -> bool {
    &&& service.removed_slots.fits(answers.removed_count, answers.removed_time)
    &&& match answers.outcome {
        SnapshotOutcome::Handled(block_height) => service.last_cleaned_block_height <= block_height,
        SnapshotOutcome::Failed => true,
        SnapshotOutcome::NoRequest => service.last_cleaned_block_height
            <= answers.root_block_height,
    }
    &&& answers.jitter < MAX_CLEAN_JITTER
}

/// The state after one step, given the answers of the round.
pub open spec fn advanced(
    service: AccountsBackgroundService,
    answers: Answers,
) -> AccountsBackgroundService {
    match service.step {
        ServiceStep::ReadExitFlag => service.after_exit_flag(answers.exit),
        ServiceStep::FetchRootBank => service.after_root_bank(answers.root_block_height),
        ServiceStep::RemoveDeadSlots => service.after_dead_slots(
            answers.removed_count,
            answers.removed_time,
        ),
        ServiceStep::CheckExpiration => service.after_clock(answers.expiration_clock),
        ServiceStep::MeasureNonSnapshotTime => service.after_clock(answers.requests_clock),
        ServiceStep::HandleSnapshotRequests => service.after_requests(
            answers.outcome,
            answers.last_full_snapshot_slot,
        ),
        ServiceStep::RecordSnapshotEnd => service.after_clock(answers.snapshot_end_clock),
        ServiceStep::ProcessStaleSlot => service.after_stale_slot(answers.consumed_budget),
        ServiceStep::DrawCleanJitter => service.after_jitter(answers.jitter),
        _ => service.after_plain_step(),
    }
}

/// How many steps of a round can still come, at most.
pub open spec fn steps_left(step: ServiceStep) -> nat {
    match step {
        ServiceStep::ReadExitFlag => 0,
        ServiceStep::Stopped => 0,
        ServiceStep::Sleep => 1,
        ServiceStep::RecordRound => 2,
        ServiceStep::CleanAccounts => 3,
        ServiceStep::ForceFlushAccountsCache => 4,
        ServiceStep::DrawCleanJitter => 5,
        ServiceStep::ProcessStaleSlot => 6,
        ServiceStep::ShrinkCandidateSlots => 6,
        ServiceStep::RaiseExitFlag => 6,
        ServiceStep::FlushAccountsCacheIfNeeded => 7,
        ServiceStep::RecordSnapshotEnd => 8,
        ServiceStep::HandleSnapshotRequests => 9,
        ServiceStep::MeasureNonSnapshotTime => 10,
        ServiceStep::ExpireOldRecycleStores => 11,
        ServiceStep::CheckExpiration => 12,
        ServiceStep::ReportRemovedSlots => 13,
        ServiceStep::RemoveDeadSlots => 14,
        ServiceStep::FetchRootBank => 15,
    }
}

/// The steps from the current one to the end of the round.
pub open spec fn trace(service: AccountsBackgroundService, answers: Answers) -> Seq<ServiceStep>
    decreases steps_left(service.step),
{
    if steps_left(service.step) == 0 {
        seq![]
    } else {
        seq![service.step] + trace(advanced(service, answers), answers)
    }
}

/// The state at the end of the round.
pub open spec fn round_end(
    service: AccountsBackgroundService,
    answers: Answers,
) -> AccountsBackgroundService
    decreases steps_left(service.step),
{
    if steps_left(service.step) == 0 {
        service
    } else {
        round_end(advanced(service, answers), answers)
    }
}

/// The state in which the round first comes to `step`; where it does not, the
/// state at its end.
pub open spec fn reached(
    service: AccountsBackgroundService,
    answers: Answers,
    step: ServiceStep,
) -> AccountsBackgroundService
    decreases steps_left(service.step),
{
    if service.step == step || steps_left(service.step) == 0 {
        service
    } else {
        reached(advanced(service, answers), answers, step)
    }
}

/// `step` alone if `due`, else nothing.
pub open spec fn only_if(due: bool, step: ServiceStep) -> Seq<ServiceStep> {
    if due {
        seq![step]
    } else {
        seq![]
    }
}

/// The accounts are cleaned by the round itself.
pub open spec fn cleans(service: AccountsBackgroundService, answers: Answers) -> bool {
    answers.outcome is NoRequest && clean_due(
        answers.root_block_height,
        service.last_cleaned_block_height,
        answers.jitter,
    )
}

/// The steps after the snapshot requests and the flush that may follow them.
pub open spec fn closing_steps(
    service: AccountsBackgroundService,
    answers: Answers,
) -> Seq<ServiceStep> {
    let caching = service.accounts_db_caching_enabled;
    match answers.outcome {
        SnapshotOutcome::Handled(_) => seq![ServiceStep::RecordRound, ServiceStep::Sleep],
        SnapshotOutcome::Failed => seq![ServiceStep::RaiseExitFlag],
        SnapshotOutcome::NoRequest => only_if(caching, ServiceStep::ShrinkCandidateSlots) + (
        only_if(!caching, ServiceStep::ProcessStaleSlot) + (seq![ServiceStep::DrawCleanJitter] + (
        only_if(cleans(service, answers) && caching, ServiceStep::ForceFlushAccountsCache) + (
        only_if(cleans(service, answers), ServiceStep::CleanAccounts) + seq![
            ServiceStep::RecordRound,
            ServiceStep::Sleep,
        ])))),
    }
}

/// The steps of a round that is not told to end, in order.
pub open spec fn round_steps(
    service: AccountsBackgroundService,
    answers: Answers,
) -> Seq<ServiceStep> {
    let removed = service.removed_slots.plus(answers.removed_count, answers.removed_time);
    let expires = expiration_due(service.last_expiration_check_time, answers.expiration_clock);
    seq![ServiceStep::FetchRootBank, ServiceStep::RemoveDeadSlots] + (only_if(
        removed.is_reportable(),
        ServiceStep::ReportRemovedSlots,
    ) + (seq![ServiceStep::CheckExpiration] + (only_if(
        expires,
        ServiceStep::ExpireOldRecycleStores,
    ) + (only_if(
        service.last_snapshot_end_time is Some,
        ServiceStep::MeasureNonSnapshotTime,
    ) + (seq![ServiceStep::HandleSnapshotRequests] + (only_if(
        !(answers.outcome is NoRequest),
        ServiceStep::RecordSnapshotEnd,
    ) + (only_if(
        service.accounts_db_caching_enabled,
        ServiceStep::FlushAccountsCacheIfNeeded,
    ) + closing_steps(service, answers))))))))
}

/// The state that a round which is not told to end leaves behind.
pub open spec fn round_result(
    service: AccountsBackgroundService,
    answers: Answers,
) -> AccountsBackgroundService {
    let removed = service.removed_slots.plus(answers.removed_count, answers.removed_time);
    let expires = expiration_due(service.last_expiration_check_time, answers.expiration_clock);
    closed(
        AccountsBackgroundService {
            last_full_snapshot_slot: answers.last_full_snapshot_slot,
            removed_slots: if removed.is_reportable() {
                RemovedSlots::zero()
            } else {
                removed
            },
            last_expiration_check_time: if expires {
                answers.expiration_clock
            } else {
                service.last_expiration_check_time
            },
            last_snapshot_end_time: if answers.outcome is NoRequest {
                service.last_snapshot_end_time
            } else {
                Some(answers.snapshot_end_clock)
            },
            root_block_height: answers.root_block_height,
            removed_slots_report: if removed.is_reportable() {
                removed
            } else {
                service.removed_slots_report
            },
            non_snapshot_time_us: match service.last_snapshot_end_time {
                Some(end) => (elapsed_nanos(end, answers.requests_clock)
                    / NANOS_PER_MICRO as int) as u128,
                None => 0,
            },
            snapshot_outcome: answers.outcome,
            ..service
        },
        answers,
    )
}

/// The state that the steps after the snapshot requests make of `service`.
pub open spec fn closed(
    service: AccountsBackgroundService,
    answers: Answers,
) -> AccountsBackgroundService {
    AccountsBackgroundService {
        consumed_budget: if !(answers.outcome is NoRequest)
            || service.accounts_db_caching_enabled {
            service.consumed_budget
        } else if answers.consumed_budget <= SHRUNKEN_ACCOUNT_PER_INTERVAL {
            answers.consumed_budget
        } else {
            SHRUNKEN_ACCOUNT_PER_INTERVAL
        },
        last_cleaned_block_height: match answers.outcome {
            SnapshotOutcome::Handled(block_height) => block_height,
            _ => if cleans(service, answers) {
                answers.root_block_height
            } else {
                service.last_cleaned_block_height
            },
        },
        step: if answers.outcome is Failed {
            ServiceStep::Stopped
        } else {
            ServiceStep::ReadExitFlag
        },
        ..service
    }
}

/// A round does exactly the steps of `round_steps`, in that order, and leaves
/// `round_result` behind. A round that is told to end does nothing.
pub proof fn law_round(service: AccountsBackgroundService, answers: Answers)
    requires
        service.step is ReadExitFlag,
    ensures
        answers.exit ==> advanced(service, answers) == service.at(ServiceStep::Stopped),
        !answers.exit ==> {
            &&& trace(advanced(service, answers), answers) == round_steps(service, answers)
            &&& round_end(advanced(service, answers), answers) == round_result(service, answers)
        },
{
    if !answers.exit {
        let fetch = advanced(service, answers);
        let remove = advanced(fetch, answers);
        let removed = advanced(remove, answers);
        let check = removed.at(ServiceStep::CheckExpiration);
        lemma_step(fetch, answers);
        lemma_step(remove, answers);
        lemma_expiration(check, answers);
        if removed.step is ReportRemovedSlots {
            lemma_step(removed, answers);
            assert(advanced(removed, answers) == check);
        } else {
            assert(removed == check);
            lemma_nothing_first(trace(check, answers));
        }
        let rest = trace(removed, answers);
        assert(seq![ServiceStep::FetchRootBank] + (seq![ServiceStep::RemoveDeadSlots] + rest)
            =~= seq![ServiceStep::FetchRootBank, ServiceStep::RemoveDeadSlots] + rest);
    }
}

/// A round takes one step, and then what follows from there.
proof fn lemma_step(service: AccountsBackgroundService, answers: Answers)
    requires
        steps_left(service.step) > 0,
    ensures
        trace(service, answers) == seq![service.step] + trace(advanced(service, answers), answers),
        round_end(service, answers) == round_end(advanced(service, answers), answers),
{
}

proof fn lemma_nothing_first(steps: Seq<ServiceStep>)
    ensures
        seq![] + steps == steps,
{
    assert(seq![] + steps =~= steps);
}

/// The last two steps of a round that is followed by another.
proof fn lemma_last_steps(service: AccountsBackgroundService, answers: Answers)
    requires
        service.step is RecordRound,
    ensures
        trace(service, answers) == seq![ServiceStep::RecordRound, ServiceStep::Sleep],
        round_end(service, answers) == service.at(ServiceStep::ReadExitFlag),
{
    let sleep = advanced(service, answers);
    let over = advanced(sleep, answers);
    lemma_step(service, answers);
    lemma_step(sleep, answers);
    assert(trace(over, answers).len() == 0);
    assert(trace(service, answers) =~= seq![ServiceStep::RecordRound, ServiceStep::Sleep]);
    assert(round_end(over, answers) == over);
}

/// From the drawing of the delay on.
proof fn lemma_cleaning(service: AccountsBackgroundService, answers: Answers)
    requires
        service.step is DrawCleanJitter,
        answers.outcome is NoRequest,
        service.root_block_height == answers.root_block_height,
    ensures
        trace(service, answers) == seq![ServiceStep::DrawCleanJitter] + (only_if(
            cleans(service, answers) && service.accounts_db_caching_enabled,
            ServiceStep::ForceFlushAccountsCache,
        ) + (only_if(cleans(service, answers), ServiceStep::CleanAccounts) + seq![
            ServiceStep::RecordRound,
            ServiceStep::Sleep,
        ])),
        round_end(service, answers) == (AccountsBackgroundService {
            last_cleaned_block_height: if cleans(service, answers) {
                answers.root_block_height
            } else {
                service.last_cleaned_block_height
            },
            step: ServiceStep::ReadExitFlag,
            ..service
        }),
{
    lemma_step(service, answers);
    let drawn = advanced(service, answers);
    let last = seq![ServiceStep::RecordRound, ServiceStep::Sleep];
    if cleans(service, answers) {
        let clean = service.at(ServiceStep::CleanAccounts);
        let cleaned = advanced(clean, answers);
        lemma_last_steps(cleaned, answers);
        lemma_step(clean, answers);
        if service.accounts_db_caching_enabled {
            lemma_step(drawn, answers);
            assert(advanced(drawn, answers) == clean);
        } else {
            assert(drawn == clean);
            lemma_nothing_first(trace(clean, answers));
        }
    } else {
        lemma_last_steps(drawn, answers);
        lemma_nothing_first(last);
    }
}

/// The closing steps.
proof fn lemma_closing(service: AccountsBackgroundService, answers: Answers)
    requires
        service.snapshot_outcome == answers.outcome,
        service.root_block_height == answers.root_block_height,
    ensures
        trace(service.settled(), answers) == closing_steps(service, answers),
        round_end(service.settled(), answers) == closed(service, answers),
{
    let settled = service.settled();
    let next = advanced(settled, answers);
    match answers.outcome {
        SnapshotOutcome::Handled(_) => {
            lemma_last_steps(settled, answers);
        },
        SnapshotOutcome::Failed => {
            lemma_step(settled, answers);
            assert(trace(next, answers).len() == 0);
            assert(trace(settled, answers) =~= seq![ServiceStep::RaiseExitFlag]);
            assert(round_end(next, answers) == next);
        },
        SnapshotOutcome::NoRequest => {
            lemma_step(settled, answers);
            lemma_cleaning(next, answers);
            lemma_nothing_first(trace(next, answers));
            lemma_nothing_first(seq![ServiceStep::ProcessStaleSlot] + trace(next, answers));
            assert(cleans(next, answers) == cleans(service, answers));
        },
    }
}

/// Once the snapshot requests are out of the way.
proof fn lemma_after_snapshots(service: AccountsBackgroundService, answers: Answers)
    requires
        service.snapshot_outcome == answers.outcome,
        service.root_block_height == answers.root_block_height,
    ensures
        trace(service.after_snapshots(), answers) == only_if(
            service.accounts_db_caching_enabled,
            ServiceStep::FlushAccountsCacheIfNeeded,
        ) + closing_steps(service, answers),
        round_end(service.after_snapshots(), answers) == closed(service, answers),
{
    let flush = service.at(ServiceStep::FlushAccountsCacheIfNeeded);
    lemma_closing(service, answers);
    lemma_closing(flush, answers);
    lemma_nothing_first(closing_steps(service, answers));
    lemma_step(flush, answers);
    assert(advanced(flush, answers) == service.settled());
}

/// From the snapshot requests on.
proof fn lemma_requests(service: AccountsBackgroundService, answers: Answers)
    requires
        service.step is HandleSnapshotRequests,
        service.root_block_height == answers.root_block_height,
    ensures
        trace(service, answers) == seq![ServiceStep::HandleSnapshotRequests] + (only_if(
            !(answers.outcome is NoRequest),
            ServiceStep::RecordSnapshotEnd,
        ) + (only_if(
            service.accounts_db_caching_enabled,
            ServiceStep::FlushAccountsCacheIfNeeded,
        ) + closing_steps(service, answers))),
        round_end(service, answers) == closed(
            AccountsBackgroundService {
                last_full_snapshot_slot: answers.last_full_snapshot_slot,
                last_snapshot_end_time: if answers.outcome is NoRequest {
                    service.last_snapshot_end_time
                } else {
                    Some(answers.snapshot_end_clock)
                },
                snapshot_outcome: answers.outcome,
                ..service
            },
            answers,
        ),
{
    let handled = AccountsBackgroundService {
        last_full_snapshot_slot: answers.last_full_snapshot_slot,
        snapshot_outcome: answers.outcome,
        ..service
    };
    let next = advanced(service, answers);
    lemma_step(service, answers);
    if answers.outcome is NoRequest {
        lemma_after_snapshots(handled, answers);
        assert(next == handled.after_snapshots());
        lemma_nothing_first(trace(next, answers));
    } else {
        let ended = AccountsBackgroundService {
            last_snapshot_end_time: Some(answers.snapshot_end_clock),
            step: ServiceStep::RecordSnapshotEnd,
            ..handled
        };
        lemma_after_snapshots(ended, answers);
        assert(advanced(next, answers) == ended.after_snapshots());
        lemma_step(next, answers);
    }
}

/// On the way to the snapshot requests.
proof fn lemma_before_requests(service: AccountsBackgroundService, answers: Answers)
    requires
        service.root_block_height == answers.root_block_height,
    ensures
        ({
            let measured = AccountsBackgroundService {
                non_snapshot_time_us: match service.last_snapshot_end_time {
                    Some(end) => (elapsed_nanos(end, answers.requests_clock)
                        / NANOS_PER_MICRO as int) as u128,
                    None => 0,
                },
                step: ServiceStep::HandleSnapshotRequests,
                ..service
            };
            &&& trace(service.before_requests(), answers) == only_if(
                service.last_snapshot_end_time is Some,
                ServiceStep::MeasureNonSnapshotTime,
            ) + trace(measured, answers)
            &&& round_end(service.before_requests(), answers) == round_end(measured, answers)
        }),
{
    if service.last_snapshot_end_time is Some {
        lemma_step(service.before_requests(), answers);
    } else {
        lemma_nothing_first(trace(service.before_requests(), answers));
    }
}

/// From the check for expired stores on.
proof fn lemma_expiration(service: AccountsBackgroundService, answers: Answers)
    requires
        service.step is CheckExpiration,
        service.root_block_height == answers.root_block_height,
    ensures
        ({
            let expires = expiration_due(
                service.last_expiration_check_time,
                answers.expiration_clock,
            );
            trace(service, answers) == seq![ServiceStep::CheckExpiration] + (only_if(
                expires,
                ServiceStep::ExpireOldRecycleStores,
            ) + (only_if(
                service.last_snapshot_end_time is Some,
                ServiceStep::MeasureNonSnapshotTime,
            ) + (seq![ServiceStep::HandleSnapshotRequests] + (only_if(
                !(answers.outcome is NoRequest),
                ServiceStep::RecordSnapshotEnd,
            ) + (only_if(
                service.accounts_db_caching_enabled,
                ServiceStep::FlushAccountsCacheIfNeeded,
            ) + closing_steps(service, answers))))))
        }),
        round_end(service, answers) == closed(
            AccountsBackgroundService {
                last_full_snapshot_slot: answers.last_full_snapshot_slot,
                last_expiration_check_time: if expiration_due(
                    service.last_expiration_check_time,
                    answers.expiration_clock,
                ) {
                    answers.expiration_clock
                } else {
                    service.last_expiration_check_time
                },
                last_snapshot_end_time: if answers.outcome is NoRequest {
                    service.last_snapshot_end_time
                } else {
                    Some(answers.snapshot_end_clock)
                },
                non_snapshot_time_us: match service.last_snapshot_end_time {
                    Some(end) => (elapsed_nanos(end, answers.requests_clock)
                        / NANOS_PER_MICRO as int) as u128,
                    None => 0,
                },
                snapshot_outcome: answers.outcome,
                ..service
            },
            answers,
        ),
{
    let checked = advanced(service, answers);
    lemma_step(service, answers);
    lemma_before_requests(checked, answers);
    lemma_before_requests(service, answers);
    let measured = AccountsBackgroundService {
        last_expiration_check_time: if expiration_due(
            service.last_expiration_check_time,
            answers.expiration_clock,
        ) {
            answers.expiration_clock
        } else {
            service.last_expiration_check_time
        },
        non_snapshot_time_us: match service.last_snapshot_end_time {
            Some(end) => (elapsed_nanos(end, answers.requests_clock) / NANOS_PER_MICRO as int)
                as u128,
            None => 0,
        },
        step: ServiceStep::HandleSnapshotRequests,
        ..service
    };
    lemma_requests(measured, answers);
    if checked.step is ExpireOldRecycleStores {
        lemma_step(checked, answers);
        assert(advanced(checked, answers) == checked.before_requests());
    } else {
        lemma_nothing_first(trace(checked, answers));
    }
}

/// The service can take its next step on the answers of the round.
pub open spec fn ready(service: AccountsBackgroundService, answers: Answers) -> bool {
    &&& service.well_formed()
    &&& match service.step {
        ServiceStep::RemoveDeadSlots => service.removed_slots.fits(
            answers.removed_count,
            answers.removed_time,
        ),
        ServiceStep::HandleSnapshotRequests => {
            answers.outcome matches SnapshotOutcome::Handled(block_height)
                ==> service.last_cleaned_block_height <= block_height
        },
        ServiceStep::DrawCleanJitter => {
            &&& service.last_cleaned_block_height <= service.root_block_height
            &&& answers.jitter < MAX_CLEAN_JITTER
        },
        ServiceStep::Stopped => false,
        _ => true,
    }
}

/// The service can take every step from the current one to the end of the round.
pub open spec fn always_ready(service: AccountsBackgroundService, answers: Answers) -> bool
    decreases steps_left(service.step),
{
    steps_left(service.step) == 0 || ready(service, answers) && always_ready(
        advanced(service, answers),
        answers,
    )
}

/// On acceptable answers a round never gets stuck: before each of its steps, what
/// the step needs is there.
pub proof fn law_round_is_never_stuck(service: AccountsBackgroundService, answers: Answers)
    requires
        service.well_formed(),
        service.step is ReadExitFlag,
        acceptable(service, answers),
    ensures
        ready(service, answers),
        always_ready(advanced(service, answers), answers),
{
    lemma_always_ready(advanced(service, answers), answers);
}

/// What is true of a round on acceptable answers, before each step.
spec fn under_way(service: AccountsBackgroundService, answers: Answers) -> bool {
    let left = steps_left(service.step);
    &&& service.well_formed()
    &&& answers.jitter < MAX_CLEAN_JITTER
    &&& 0 < left < 15 ==> service.root_block_height == answers.root_block_height
    &&& left >= 14 ==> service.removed_slots.fits(answers.removed_count, answers.removed_time)
    &&& 0 < left < 9 ==> service.snapshot_outcome == answers.outcome
    &&& left == 6 || left == 5 ==> answers.outcome is NoRequest || service.step is RaiseExitFlag
    &&& left >= 5 ==> match answers.outcome {
        SnapshotOutcome::Handled(block_height) => service.last_cleaned_block_height
            <= block_height,
        SnapshotOutcome::Failed => true,
        SnapshotOutcome::NoRequest => service.last_cleaned_block_height
            <= answers.root_block_height,
    }
}

proof fn lemma_always_ready(service: AccountsBackgroundService, answers: Answers)
    requires
        under_way(service, answers),
    ensures
        always_ready(service, answers),
    decreases steps_left(service.step),
{
    if steps_left(service.step) > 0 {
        lemma_always_ready(advanced(service, answers), answers);
    }
}

/// The height up to which the accounts are cleaned never goes down, and the budget
/// and the reports are kept to, round after round.
pub proof fn law_round_keeps_the_service_well_formed(
    service: AccountsBackgroundService,
    answers: Answers,
)
    requires
        service.well_formed(),
        service.step is ReadExitFlag,
        acceptable(service, answers),
        !answers.exit,
    ensures
        round_result(service, answers).well_formed(),
        service.last_cleaned_block_height <= round_result(
            service,
            answers,
        ).last_cleaned_block_height,
{
}

/// The accounts are not cleaned again within the clean interval, and for certain
/// once the largest delay has passed as well.
pub proof fn law_clean_interval(block_height: u64, last_cleaned: u64, jitter: u64)
    requires
        jitter < MAX_CLEAN_JITTER,
    ensures
        block_height <= last_cleaned + CLEAN_INTERVAL_BLOCKS ==> !clean_due(
            block_height,
            last_cleaned,
            jitter,
        ),
        block_height >= last_cleaned + CLEAN_INTERVAL_BLOCKS + MAX_CLEAN_JITTER ==> clean_due(
            block_height,
            last_cleaned,
            jitter,
        ),
{
}

/// A snapshot that failed ends the service: the exit flag is raised, and that is
/// the last step. Nothing else is shrunk or cleaned.
pub proof fn law_failed_snapshot_ends_the_service(
    service: AccountsBackgroundService,
    answers: Answers,
)
    requires
        answers.outcome is Failed,
    ensures
        closing_steps(service, answers) == seq![ServiceStep::RaiseExitFlag],
        round_steps(service, answers).last() is RaiseExitFlag,
        round_result(service, answers).step is Stopped,
        round_result(service, answers).last_cleaned_block_height
            == service.last_cleaned_block_height,
{
    lemma_round_contains(service, answers, ServiceStep::CleanAccounts);
}

/// A round cleans the accounts of the root bank exactly when no snapshot request
/// was there and cleaning is due; with a cache it flushes it first. Where a request
/// was handled, its bank counts as cleaned.
pub proof fn law_when_a_round_cleans(service: AccountsBackgroundService, answers: Answers)
    ensures
        round_steps(service, answers).contains(ServiceStep::CleanAccounts) <==> cleans(
            service,
            answers,
        ),
        round_steps(service, answers).contains(ServiceStep::ForceFlushAccountsCache) <==> cleans(
            service,
            answers,
        ) && service.accounts_db_caching_enabled,
        answers.outcome matches SnapshotOutcome::Handled(block_height) ==> round_result(
            service,
            answers,
        ).last_cleaned_block_height == block_height,
        cleans(service, answers) ==> round_result(service, answers).last_cleaned_block_height
            == answers.root_block_height,
{
    lemma_round_contains(service, answers, ServiceStep::CleanAccounts);
    lemma_round_contains(service, answers, ServiceStep::ForceFlushAccountsCache);
    lemma_closing_contains(service, answers, ServiceStep::CleanAccounts);
    lemma_closing_contains(service, answers, ServiceStep::ForceFlushAccountsCache);
}

/// When a round cleans its root bank, cleaning is told the slot of the last full
/// snapshot, as it is once the snapshot requests are out of the way.
pub proof fn law_cleaning_is_told_of_the_last_full_snapshot(
    service: AccountsBackgroundService,
    answers: Answers,
)
    requires
        service.step is ReadExitFlag,
        !answers.exit,
        cleans(service, answers),
    ensures
        reached(
            advanced(service, answers),
            answers,
            ServiceStep::CleanAccounts,
        ).next_action() == (ServiceAction::CleanAccounts {
            last_full_snapshot_slot: answers.last_full_snapshot_slot,
        }),
{
    law_round(service, answers);
    law_when_a_round_cleans(service, answers);
    lemma_reached(advanced(service, answers), answers, ServiceStep::CleanAccounts);
}

/// A step of the round is reached, and if it comes after the snapshot requests, it
/// is with the last full snapshot as they left it.
proof fn lemma_reached(service: AccountsBackgroundService, answers: Answers, step: ServiceStep)
    requires
        trace(service, answers).contains(step),
        steps_left(service.step) < 9 ==> service.last_full_snapshot_slot
            == answers.last_full_snapshot_slot,
    ensures
        reached(service, answers, step).step == step,
        steps_left(step) < 9 ==> reached(service, answers, step).last_full_snapshot_slot
            == answers.last_full_snapshot_slot,
    decreases steps_left(service.step),
{
    if service.step != step && steps_left(service.step) > 0 {
        let next = advanced(service, answers);
        lemma_step(service, answers);
        lemma_concat(seq![service.step], trace(next, answers), step);
        assert(seq![service.step][0] == service.step);
        lemma_reached(next, answers, step);
    }
}

/// What two sequences of steps have in common with the one behind the other.
proof fn lemma_concat(first: Seq<ServiceStep>, rest: Seq<ServiceStep>, step: ServiceStep)
    ensures
        (first + rest).contains(step) <==> first.contains(step) || rest.contains(step),
        rest.len() > 0 ==> (first + rest).last() == rest.last(),
{
    let both = first + rest;
    if first.contains(step) {
        let i = choose|i: int| 0 <= i < first.len() && first[i] == step;
        assert(both[i] == step);
    }
    if rest.contains(step) {
        let i = choose|i: int| 0 <= i < rest.len() && rest[i] == step;
        assert(both[first.len() + i] == step);
    }
}

/// As `lemma_concat`, where the first is a single step that may not be due.
proof fn lemma_only_if(due: bool, first: ServiceStep, rest: Seq<ServiceStep>, step: ServiceStep)
    ensures
        (only_if(due, first) + rest).contains(step) <==> due && step == first || rest.contains(
            step,
        ),
        rest.len() > 0 ==> (only_if(due, first) + rest).last() == rest.last(),
        (only_if(due, first) + rest).len() >= rest.len(),
{
    lemma_concat(only_if(due, first), rest, step);
    if due {
        assert(only_if(due, first)[0] == first);
    }
}

/// Which closing steps a round has, of those that concern the cleaning.
proof fn lemma_closing_contains(
    service: AccountsBackgroundService,
    answers: Answers,
    step: ServiceStep,
)
    requires
        step is CleanAccounts || step is ForceFlushAccountsCache,
    ensures
        closing_steps(service, answers).contains(step) <==> cleans(service, answers) && (
        step is CleanAccounts || service.accounts_db_caching_enabled),
{
    if answers.outcome is NoRequest {
        let caching = service.accounts_db_caching_enabled;
        let last = seq![ServiceStep::RecordRound, ServiceStep::Sleep];
        let cleaning = only_if(cleans(service, answers), ServiceStep::CleanAccounts) + last;
        let flushing = only_if(
            cleans(service, answers) && caching,
            ServiceStep::ForceFlushAccountsCache,
        ) + cleaning;
        let drawing = seq![ServiceStep::DrawCleanJitter] + flushing;
        let stale = only_if(!caching, ServiceStep::ProcessStaleSlot) + drawing;
        lemma_only_if(cleans(service, answers), ServiceStep::CleanAccounts, last, step);
        lemma_only_if(
            cleans(service, answers) && caching,
            ServiceStep::ForceFlushAccountsCache,
            cleaning,
            step,
        );
        lemma_only_if(true, ServiceStep::DrawCleanJitter, flushing, step);
        lemma_only_if(!caching, ServiceStep::ProcessStaleSlot, drawing, step);
        lemma_only_if(caching, ServiceStep::ShrinkCandidateSlots, stale, step);
    }
}

/// A round ends with its closing steps, and only they concern the cleaning.
proof fn lemma_round_contains(
    service: AccountsBackgroundService,
    answers: Answers,
    step: ServiceStep,
)
    requires
        step is CleanAccounts || step is ForceFlushAccountsCache,
    ensures
        round_steps(service, answers).contains(step) <==> closing_steps(
            service,
            answers,
        ).contains(step),
        closing_steps(service, answers).len() > 0 ==> round_steps(service, answers).last()
            == closing_steps(service, answers).last(),
{
    let removed = service.removed_slots.plus(answers.removed_count, answers.removed_time);
    let expires = expiration_due(service.last_expiration_check_time, answers.expiration_clock);
    let closing = closing_steps(service, answers);
    let caching = service.accounts_db_caching_enabled;
    let flushing = only_if(caching, ServiceStep::FlushAccountsCacheIfNeeded) + closing;
    let requested = !(answers.outcome is NoRequest);
    let recording = only_if(requested, ServiceStep::RecordSnapshotEnd) + flushing;
    let handling = seq![ServiceStep::HandleSnapshotRequests] + recording;
    let measures = service.last_snapshot_end_time is Some;
    let measuring = only_if(measures, ServiceStep::MeasureNonSnapshotTime) + handling;
    let expiring = only_if(expires, ServiceStep::ExpireOldRecycleStores) + measuring;
    let checking = seq![ServiceStep::CheckExpiration] + expiring;
    let reporting = only_if(removed.is_reportable(), ServiceStep::ReportRemovedSlots) + checking;
    lemma_only_if(caching, ServiceStep::FlushAccountsCacheIfNeeded, closing, step);
    lemma_only_if(requested, ServiceStep::RecordSnapshotEnd, flushing, step);
    lemma_only_if(true, ServiceStep::HandleSnapshotRequests, recording, step);
    lemma_only_if(measures, ServiceStep::MeasureNonSnapshotTime, handling, step);
    lemma_only_if(expires, ServiceStep::ExpireOldRecycleStores, measuring, step);
    lemma_only_if(true, ServiceStep::CheckExpiration, expiring, step);
    lemma_only_if(removed.is_reportable(), ServiceStep::ReportRemovedSlots, checking, step);
    lemma_concat(
        seq![ServiceStep::FetchRootBank, ServiceStep::RemoveDeadSlots],
        reporting,
        step,
    );
}

/// Which steps a round takes, each by what it depends on. Every round gets the root
/// bank, purges dead slots, checks for expired stores and handles snapshot requests;
/// the rest as follows from the sums, the clock, the cache, what came of the requests
/// and the heights.
pub proof fn law_steps_of_a_round(service: AccountsBackgroundService, answers: Answers)
    requires
        service.step is ReadExitFlag,
        !answers.exit,
        service.removed_slots.removed_slots_count + answers.removed_count <= usize::MAX,
    ensures
        ({
            let steps = trace(advanced(service, answers), answers);
            let caching = service.accounts_db_caching_enabled;
            let handled = answers.outcome is Handled;
            let failed = answers.outcome is Failed;
            let cleaning = answers.outcome is NoRequest && answers.root_block_height
                > service.last_cleaned_block_height + 100 + answers.jitter;
            &&& steps.contains(ServiceStep::FetchRootBank)
            &&& steps.contains(ServiceStep::RemoveDeadSlots)
            &&& steps.contains(ServiceStep::CheckExpiration)
            &&& steps.contains(ServiceStep::HandleSnapshotRequests)
            &&& steps.contains(ServiceStep::ReportRemovedSlots)
                <==> service.removed_slots.removed_slots_count + answers.removed_count >= 100
            &&& steps.contains(ServiceStep::ExpireOldRecycleStores) <==> answers.expiration_clock
                >= service.last_expiration_check_time + 601 * 1_000_000_000
            &&& steps.contains(ServiceStep::MeasureNonSnapshotTime)
                <==> service.last_snapshot_end_time is Some
            &&& steps.contains(ServiceStep::RecordSnapshotEnd) <==> handled || failed
            &&& steps.contains(ServiceStep::FlushAccountsCacheIfNeeded) <==> caching
            &&& steps.contains(ServiceStep::RaiseExitFlag) <==> failed
            &&& steps.contains(ServiceStep::ShrinkCandidateSlots) <==> caching && !handled
                && !failed
            &&& steps.contains(ServiceStep::ProcessStaleSlot) <==> !caching && !handled && !failed
            &&& steps.contains(ServiceStep::DrawCleanJitter) <==> !handled && !failed
            &&& steps.contains(ServiceStep::ForceFlushAccountsCache) <==> caching && cleaning
            &&& steps.contains(ServiceStep::CleanAccounts) <==> cleaning
            &&& steps.contains(ServiceStep::RecordRound) <==> !failed
            &&& steps.contains(ServiceStep::Sleep) <==> !failed
        }),
{
    law_round(service, answers);
    law_removed_slots_add_up(service.removed_slots, answers.removed_count, 0);
    law_when_stores_expire(service.last_expiration_check_time, answers.expiration_clock);
    lemma_all_steps(service, answers, ServiceStep::FetchRootBank);
    lemma_all_steps(service, answers, ServiceStep::RemoveDeadSlots);
    lemma_all_steps(service, answers, ServiceStep::CheckExpiration);
    lemma_all_steps(service, answers, ServiceStep::HandleSnapshotRequests);
    lemma_all_steps(service, answers, ServiceStep::ReportRemovedSlots);
    lemma_all_steps(service, answers, ServiceStep::ExpireOldRecycleStores);
    lemma_all_steps(service, answers, ServiceStep::MeasureNonSnapshotTime);
    lemma_all_steps(service, answers, ServiceStep::RecordSnapshotEnd);
    lemma_all_steps(service, answers, ServiceStep::FlushAccountsCacheIfNeeded);
    lemma_all_steps(service, answers, ServiceStep::RaiseExitFlag);
    lemma_all_steps(service, answers, ServiceStep::ShrinkCandidateSlots);
    lemma_all_steps(service, answers, ServiceStep::ProcessStaleSlot);
    lemma_all_steps(service, answers, ServiceStep::DrawCleanJitter);
    lemma_all_steps(service, answers, ServiceStep::ForceFlushAccountsCache);
    lemma_all_steps(service, answers, ServiceStep::CleanAccounts);
    lemma_all_steps(service, answers, ServiceStep::RecordRound);
    lemma_all_steps(service, answers, ServiceStep::Sleep);
}

/// Whether `step` is one of the steps of a round.
proof fn lemma_all_steps(service: AccountsBackgroundService, answers: Answers, step: ServiceStep)
    ensures
        round_steps(service, answers).contains(step) <==> {
            let removed = service.removed_slots.plus(answers.removed_count, answers.removed_time);
            ||| step is FetchRootBank
            ||| step is RemoveDeadSlots
            ||| step is ReportRemovedSlots && removed.is_reportable()
            ||| step is CheckExpiration
            ||| step is ExpireOldRecycleStores && expiration_due(
                service.last_expiration_check_time,
                answers.expiration_clock,
            )
            ||| step is MeasureNonSnapshotTime && service.last_snapshot_end_time is Some
            ||| step is HandleSnapshotRequests
            ||| step is RecordSnapshotEnd && !(answers.outcome is NoRequest)
            ||| step is FlushAccountsCacheIfNeeded && service.accounts_db_caching_enabled
            ||| closing_steps(service, answers).contains(step)
        },
        closing_steps(service, answers).contains(step) <==> match answers.outcome {
            SnapshotOutcome::Handled(_) => step is RecordRound || step is Sleep,
            SnapshotOutcome::Failed => step is RaiseExitFlag,
            SnapshotOutcome::NoRequest => {
                let caching = service.accounts_db_caching_enabled;
                ||| step is ShrinkCandidateSlots && caching
                ||| step is ProcessStaleSlot && !caching
                ||| step is DrawCleanJitter
                ||| step is ForceFlushAccountsCache && cleans(service, answers) && caching
                ||| step is CleanAccounts && cleans(service, answers)
                ||| step is RecordRound
                ||| step is Sleep
            },
        },
{
    let caching = service.accounts_db_caching_enabled;
    let last = seq![ServiceStep::RecordRound, ServiceStep::Sleep];
    assert(last[0] is RecordRound && last[1] is Sleep);
    assert(last.contains(step) <==> step is RecordRound || step is Sleep);
    let first = seq![ServiceStep::FetchRootBank, ServiceStep::RemoveDeadSlots];
    assert(first[0] is FetchRootBank && first[1] is RemoveDeadSlots);
    assert(first.contains(step) <==> step is FetchRootBank || step is RemoveDeadSlots);
    let raise = seq![ServiceStep::RaiseExitFlag];
    assert(raise[0] is RaiseExitFlag);
    assert(raise.contains(step) <==> step is RaiseExitFlag);
    let cleaning = only_if(cleans(service, answers), ServiceStep::CleanAccounts) + last;
    let forcing = only_if(
        cleans(service, answers) && caching,
        ServiceStep::ForceFlushAccountsCache,
    ) + cleaning;
    let drawing = seq![ServiceStep::DrawCleanJitter] + forcing;
    let stale = only_if(!caching, ServiceStep::ProcessStaleSlot) + drawing;
    lemma_only_if(cleans(service, answers), ServiceStep::CleanAccounts, last, step);
    lemma_only_if(
        cleans(service, answers) && caching,
        ServiceStep::ForceFlushAccountsCache,
        cleaning,
        step,
    );
    lemma_only_if(true, ServiceStep::DrawCleanJitter, forcing, step);
    lemma_only_if(!caching, ServiceStep::ProcessStaleSlot, drawing, step);
    lemma_only_if(caching, ServiceStep::ShrinkCandidateSlots, stale, step);
    let removed = service.removed_slots.plus(answers.removed_count, answers.removed_time);
    let expires = expiration_due(service.last_expiration_check_time, answers.expiration_clock);
    let closing = closing_steps(service, answers);
    let flushing = only_if(caching, ServiceStep::FlushAccountsCacheIfNeeded) + closing;
    let requested = !(answers.outcome is NoRequest);
    let recording = only_if(requested, ServiceStep::RecordSnapshotEnd) + flushing;
    let handling = seq![ServiceStep::HandleSnapshotRequests] + recording;
    let measures = service.last_snapshot_end_time is Some;
    let measuring = only_if(measures, ServiceStep::MeasureNonSnapshotTime) + handling;
    let expiring = only_if(expires, ServiceStep::ExpireOldRecycleStores) + measuring;
    let checking = seq![ServiceStep::CheckExpiration] + expiring;
    let reporting = only_if(removed.is_reportable(), ServiceStep::ReportRemovedSlots) + checking;
    lemma_only_if(caching, ServiceStep::FlushAccountsCacheIfNeeded, closing, step);
    lemma_only_if(requested, ServiceStep::RecordSnapshotEnd, flushing, step);
    lemma_only_if(true, ServiceStep::HandleSnapshotRequests, recording, step);
    lemma_only_if(measures, ServiceStep::MeasureNonSnapshotTime, handling, step);
    lemma_only_if(expires, ServiceStep::ExpireOldRecycleStores, measuring, step);
    lemma_only_if(true, ServiceStep::CheckExpiration, expiring, step);
    lemma_only_if(removed.is_reportable(), ServiceStep::ReportRemovedSlots, checking, step);
    lemma_concat(first, reporting, step);
}

/// The steps of a round stand in this order, each at most once.
pub proof fn law_order_of_a_round(
    service: AccountsBackgroundService,
    answers: Answers,
    i: int,
    j: int,
)
    requires
        service.step is ReadExitFlag,
        !answers.exit,
        0 <= i < j < trace(advanced(service, answers), answers).len(),
    ensures
        ({
            let place = |step: ServiceStep|
                match step {
                    ServiceStep::FetchRootBank => 1int,
                    ServiceStep::RemoveDeadSlots => 2,
                    ServiceStep::ReportRemovedSlots => 3,
                    ServiceStep::CheckExpiration => 4,
                    ServiceStep::ExpireOldRecycleStores => 5,
                    ServiceStep::MeasureNonSnapshotTime => 6,
                    ServiceStep::HandleSnapshotRequests => 7,
                    ServiceStep::RecordSnapshotEnd => 8,
                    ServiceStep::FlushAccountsCacheIfNeeded => 9,
                    ServiceStep::RaiseExitFlag => 10,
                    ServiceStep::ShrinkCandidateSlots => 10,
                    ServiceStep::ProcessStaleSlot => 10,
                    ServiceStep::DrawCleanJitter => 11,
                    ServiceStep::ForceFlushAccountsCache => 12,
                    ServiceStep::CleanAccounts => 13,
                    ServiceStep::RecordRound => 14,
                    ServiceStep::Sleep => 15,
                    ServiceStep::ReadExitFlag => 16,
                    ServiceStep::Stopped => 16,
                };
            place(trace(advanced(service, answers), answers)[i]) < place(
                trace(advanced(service, answers), answers)[j],
            )
        }),
{
    lemma_steps_left_falls(advanced(service, answers), answers, i, j);
}

/// Along a round fewer and fewer steps are left.
proof fn lemma_steps_left_falls(
    service: AccountsBackgroundService,
    answers: Answers,
    i: int,
    j: int,
)
    requires
        0 <= i <= j < trace(service, answers).len(),
    ensures
        i < j ==> steps_left(trace(service, answers)[i]) > steps_left(trace(service, answers)[j]),
        0 < steps_left(trace(service, answers)[j]) <= steps_left(service.step),
    decreases steps_left(service.step),
{
    let next = advanced(service, answers);
    lemma_step(service, answers);
    assert(trace(service, answers)[0] == service.step);
    if j > 0 {
        assert(trace(service, answers)[j] == trace(next, answers)[j - 1]);
        assert(steps_left(next.step) < steps_left(service.step));
        if i > 0 {
            assert(trace(service, answers)[i] == trace(next, answers)[i - 1]);
            lemma_steps_left_falls(next, answers, i - 1, j - 1);
        } else {
            lemma_steps_left_falls(next, answers, j - 1, j - 1);
        }
    }
}

/// What a round leaves behind, field by field.
pub proof fn law_what_a_round_leaves_behind(service: AccountsBackgroundService, answers: Answers)
    requires
        service.step is ReadExitFlag,
        !answers.exit,
        service.removed_slots.fits(answers.removed_count, answers.removed_time),
    ensures
        ({
            let after = round_end(advanced(service, answers), answers);
            let count = service.removed_slots.removed_slots_count + answers.removed_count;
            let time = service.removed_slots.total_remove_slots_time + answers.removed_time;
            let expires = answers.expiration_clock >= service.last_expiration_check_time + 601
                * 1_000_000_000;
            &&& after.accounts_db_caching_enabled == service.accounts_db_caching_enabled
            &&& after.test_hash_calculation == service.test_hash_calculation
            &&& after.last_full_snapshot_slot == answers.last_full_snapshot_slot
            &&& after.root_block_height == answers.root_block_height
            &&& after.step == if answers.outcome is Failed {
                ServiceStep::Stopped
            } else {
                ServiceStep::ReadExitFlag
            }
            &&& after.removed_slots.removed_slots_count == if count >= 100 {
                0
            } else {
                count
            }
            &&& after.removed_slots.total_remove_slots_time == if count >= 100 {
                0
            } else {
                time
            }
            &&& count >= 100 ==> after.removed_slots_report.removed_slots_count == count
                && after.removed_slots_report.total_remove_slots_time == time
            &&& after.last_expiration_check_time == if expires {
                answers.expiration_clock
            } else {
                service.last_expiration_check_time
            }
            &&& after.last_snapshot_end_time == if answers.outcome is NoRequest {
                service.last_snapshot_end_time
            } else {
                Some(answers.snapshot_end_clock)
            }
            &&& after.non_snapshot_time_us as int == match service.last_snapshot_end_time {
                Some(end) => if end <= answers.requests_clock {
                    (answers.requests_clock - end) / 1000
                } else {
                    0
                },
                None => 0,
            }
            &&& after.consumed_budget as int == if service.accounts_db_caching_enabled || !(
            answers.outcome is NoRequest) {
                service.consumed_budget as int
            } else if answers.consumed_budget < 25 {
                answers.consumed_budget as int
            } else {
                25
            }
            &&& after.last_cleaned_block_height == match answers.outcome {
                SnapshotOutcome::Handled(block_height) => block_height,
                SnapshotOutcome::Failed => service.last_cleaned_block_height,
                SnapshotOutcome::NoRequest => if answers.root_block_height
                    > service.last_cleaned_block_height + 100 + answers.jitter {
                    answers.root_block_height
                } else {
                    service.last_cleaned_block_height
                },
            }
        }),
{
    law_round(service, answers);
    law_removed_slots_add_up(service.removed_slots, answers.removed_count, answers.removed_time);
    law_removed_slots_add_up(
        service.removed_slots.plus(answers.removed_count, answers.removed_time),
        0,
        0,
    );
    law_when_stores_expire(service.last_expiration_check_time, answers.expiration_clock);
}

/// Any error of taking a snapshot ends the service: the round in which it came up
/// raises the exit flag as its last step, cleans nothing and stops.
pub proof fn law_any_snapshot_error_ends_the_service(
    service: AccountsBackgroundService,
    answers: Answers,
    err: SnapshotError,
)
    requires
        service.step is ReadExitFlag,
        !answers.exit,
        answers.outcome == outcome_of(Some(Err(err))),
    ensures
        trace(advanced(service, answers), answers).last() is RaiseExitFlag,
        !trace(advanced(service, answers), answers).contains(ServiceStep::CleanAccounts),
        !trace(advanced(service, answers), answers).contains(ServiceStep::Sleep),
        round_end(advanced(service, answers), answers).step is Stopped,
        round_end(advanced(service, answers), answers).last_cleaned_block_height
            == service.last_cleaned_block_height,
{
    law_round(service, answers);
    law_failed_snapshot_ends_the_service(service, answers);
    lemma_all_steps(service, answers, ServiceStep::CleanAccounts);
    lemma_all_steps(service, answers, ServiceStep::Sleep);
}

} // verus!
