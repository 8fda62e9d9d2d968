use accounts_background_service::error::SnapshotError;
use accounts_background_service::jitter::clean_jitter;
use accounts_background_service::service::{
    AccountsBackgroundService, ServiceAction, ServiceStep, SnapshotOutcome,
    RECYCLE_STORE_EXPIRATION_INTERVAL_SECS,
};
use accounts_background_service::{
    INTERVAL_MS, SHRUNKEN_ACCOUNT_PER_INTERVAL, SHRUNKEN_ACCOUNT_PER_SEC,
};

const SECOND: u128 = 1_000_000_000;

/// What the runtime answers in a round.
struct Answers {
    root_block_height: u64,
    removed: (usize, u64),
    clock: u128,
    result: Option<Result<u64, SnapshotError>>,
    last_full_snapshot_slot: Option<u64>,
    consumed_budget: usize,
    jitter: u64,
}

fn quiet(root_block_height: u64) -> Answers {
    Answers {
        root_block_height,
        removed: (0, 0),
        clock: SECOND,
        result: None,
        last_full_snapshot_slot: None,
        consumed_budget: 0,
        jitter: 0,
    }
}

/// Takes the next step of a round.
fn take_step(service: &mut AccountsBackgroundService, answers: &Answers) {
    match service.step {
        ServiceStep::FetchRootBank => service.root_bank_fetched(answers.root_block_height),
        ServiceStep::RemoveDeadSlots => {
            service.dead_slots_removed(answers.removed.0, answers.removed.1)
        }
        ServiceStep::CheckExpiration
        | ServiceStep::MeasureNonSnapshotTime
        | ServiceStep::RecordSnapshotEnd => {
            assert!(matches!(service.action(), ServiceAction::ReadClock));
            service.clock_read(answers.clock)
        }
        ServiceStep::HandleSnapshotRequests => {
            service.snapshot_requests_handled(&answers.result, answers.last_full_snapshot_slot)
        }
        ServiceStep::ProcessStaleSlot => service.stale_slot_processed(answers.consumed_budget),
        ServiceStep::DrawCleanJitter => service.clean_jitter_drawn(answers.jitter),
        _ => service.done(),
    }
}

/// Takes the steps of one round, and returns them.
fn run(service: &mut AccountsBackgroundService, answers: &Answers) -> Vec<ServiceStep> {
    service.exit_flag_read(false);
    let mut steps = vec![];
    while service.step != ServiceStep::ReadExitFlag && service.step != ServiceStep::Stopped {
        steps.push(service.step);
        take_step(service, answers);
    }
    steps
}

#[test]
fn told_to_end() {
    let mut service = AccountsBackgroundService::new(true, false, None, 0);
    assert!(matches!(service.action(), ServiceAction::ReadExitFlag));
    service.exit_flag_read(true);
    assert!(matches!(service.action(), ServiceAction::Stop));
}

#[test]
fn quiet_round_with_cache() {
    let mut service = AccountsBackgroundService::new(true, false, None, 0);
    assert_eq!(
        run(&mut service, &quiet(50)),
        vec![
            ServiceStep::FetchRootBank,
            ServiceStep::RemoveDeadSlots,
            ServiceStep::CheckExpiration,
            ServiceStep::HandleSnapshotRequests,
            ServiceStep::FlushAccountsCacheIfNeeded,
            ServiceStep::ShrinkCandidateSlots,
            ServiceStep::DrawCleanJitter,
            ServiceStep::RecordRound,
            ServiceStep::Sleep,
        ]
    );
    assert_eq!(service.last_cleaned_block_height, 0);
}

#[test]
fn cleaning_round_with_cache() {
    let mut service = AccountsBackgroundService::new(true, false, None, 0);
    assert_eq!(
        run(&mut service, &quiet(101)),
        vec![
            ServiceStep::FetchRootBank,
            ServiceStep::RemoveDeadSlots,
            ServiceStep::CheckExpiration,
            ServiceStep::HandleSnapshotRequests,
            ServiceStep::FlushAccountsCacheIfNeeded,
            ServiceStep::ShrinkCandidateSlots,
            ServiceStep::DrawCleanJitter,
            ServiceStep::ForceFlushAccountsCache,
            ServiceStep::CleanAccounts,
            ServiceStep::RecordRound,
            ServiceStep::Sleep,
        ]
    );
    assert_eq!(service.last_cleaned_block_height, 101);
}

#[test]
fn clean_interval() {
    for (height, jitter, cleans) in [
        (200, 0, false),
        (201, 0, true),
        (201, 1, false),
        (209, 9, false),
        (210, 9, true),
    ] {
        let mut service = AccountsBackgroundService::new(false, false, Some(6), 0);
        service.last_cleaned_block_height = 100;
        let mut answers = quiet(height);
        answers.jitter = jitter;
        let steps = run(&mut service, &answers);
        assert_eq!(steps.contains(&ServiceStep::CleanAccounts), cleans);
        assert!(!steps.contains(&ServiceStep::ForceFlushAccountsCache));
        assert_eq!(service.last_cleaned_block_height, if cleans { height } else { 100 });
    }
}

#[test]
fn round_without_cache_keeps_to_the_budget() {
    let mut service = AccountsBackgroundService::new(false, false, None, 0);
    let mut answers = quiet(1);
    answers.consumed_budget = 17;
    let steps = run(&mut service, &answers);
    assert!(steps.contains(&ServiceStep::ProcessStaleSlot));
    assert!(!steps.contains(&ServiceStep::ShrinkCandidateSlots));
    assert!(!steps.contains(&ServiceStep::FlushAccountsCacheIfNeeded));
    assert_eq!(service.consumed_budget, 17);
    answers.consumed_budget = 26;
    run(&mut service, &answers);
    assert_eq!(service.consumed_budget, 25);
    service.step = ServiceStep::ProcessStaleSlot;
    assert!(matches!(
        service.action(),
        ServiceAction::ProcessStaleSlot {
            consumed_budget: 25,
            budget_recovery_delta: 25
        }
    ));
}

#[test]
fn handled_snapshot_counts_as_cleaned() {
    let mut service = AccountsBackgroundService::new(true, false, Some(1), 0);
    let mut answers = quiet(500);
    answers.result = Some(Ok(490));
    answers.last_full_snapshot_slot = Some(492);
    assert_eq!(
        run(&mut service, &answers),
        vec![
            ServiceStep::FetchRootBank,
            ServiceStep::RemoveDeadSlots,
            ServiceStep::CheckExpiration,
            ServiceStep::HandleSnapshotRequests,
            ServiceStep::RecordSnapshotEnd,
            ServiceStep::FlushAccountsCacheIfNeeded,
            ServiceStep::RecordRound,
            ServiceStep::Sleep,
        ]
    );
    assert_eq!(service.last_cleaned_block_height, 490);
    assert_eq!(service.last_full_snapshot_slot, Some(492));
    assert_eq!(service.last_snapshot_end_time, Some(SECOND));
    assert_eq!(service.snapshot_outcome, SnapshotOutcome::Handled(490));
    assert_eq!(service.step, ServiceStep::ReadExitFlag);
}

#[test]
fn failed_snapshot_ends_the_service() {
    for caching in [true, false] {
        let mut service = AccountsBackgroundService::new(caching, false, None, 0);
        let mut answers = quiet(500);
        answers.result = Some(Err(SnapshotError::NoSnapshotArchives));
        let steps = run(&mut service, &answers);
        assert_eq!(steps.last(), Some(&ServiceStep::RaiseExitFlag));
        assert_eq!(steps.contains(&ServiceStep::FlushAccountsCacheIfNeeded), caching);
        assert!(!steps.contains(&ServiceStep::CleanAccounts));
        assert_eq!(service.step, ServiceStep::Stopped);
        assert_eq!(service.last_cleaned_block_height, 0);
    }
}

#[test]
fn time_since_the_last_snapshot() {
    let mut service = AccountsBackgroundService::new(false, true, Some(9), 0);
    service.step = ServiceStep::MeasureNonSnapshotTime;
    service.last_snapshot_end_time = Some(2_000);
    service.clock_read(5_999);
    assert!(matches!(
        service.action(),
        ServiceAction::HandleSnapshotRequests {
            accounts_db_caching_enabled: false,
            test_hash_calculation: true,
            non_snapshot_time_us: 3,
            last_full_snapshot_slot: Some(9)
        }
    ));
    // the clock was set back
    service.step = ServiceStep::MeasureNonSnapshotTime;
    service.clock_read(1_000);
    assert_eq!(service.non_snapshot_time_us, 0);
}

#[test]
fn stores_expire_every_ten_minutes() {
    let start = 3 * SECOND;
    for (clock, due) in [
        (start + 600 * SECOND, false),
        (start + 601 * SECOND - 1, false),
        (start + 601 * SECOND, true),
        (0, false),
    ] {
        let mut service = AccountsBackgroundService::new(true, false, None, start);
        let mut answers = quiet(1);
        answers.clock = clock;
        let steps = run(&mut service, &answers);
        assert_eq!(steps.contains(&ServiceStep::ExpireOldRecycleStores), due);
        assert_eq!(service.last_expiration_check_time, if due { clock } else { start });
    }
}

#[test]
fn removed_slots_are_reported() {
    let mut service = AccountsBackgroundService::new(true, false, None, 0);
    let mut answers = quiet(1);
    answers.removed = (99, 10);
    assert!(!run(&mut service, &answers).contains(&ServiceStep::ReportRemovedSlots));
    assert_eq!(service.removed_slots.removed_slots_count, 99);
    answers.removed = (1, 5);
    assert!(run(&mut service, &answers).contains(&ServiceStep::ReportRemovedSlots));
    assert_eq!(service.removed_slots.removed_slots_count, 0);
    assert_eq!(service.removed_slots.total_remove_slots_time, 0);
    service.step = ServiceStep::ReportRemovedSlots;
    match service.action() {
        ServiceAction::ReportRemovedSlots { removed } => {
            assert_eq!(removed.removed_slots_count, 100);
            assert_eq!(removed.total_remove_slots_time, 15);
        }
        _ => panic!("the report comes next"),
    }
}

#[test]
fn cleaning_is_told_of_the_last_full_snapshot() {
    let mut service = AccountsBackgroundService::new(true, false, Some(77), 0);
    service.step = ServiceStep::CleanAccounts;
    assert!(matches!(
        service.action(),
        ServiceAction::CleanAccounts {
            last_full_snapshot_slot: Some(77)
        }
    ));
    service.step = ServiceStep::Sleep;
    assert!(matches!(service.action(), ServiceAction::Sleep { millis: 100 }));
}

#[test]
fn jitter_varies_below_ten() {
    let drawn: Vec<u64> = (0..1000).map(|_| clean_jitter()).collect();
    assert!(drawn.iter().all(|jitter| *jitter < 10));
    for expected in 0..10 {
        assert!(drawn.contains(&expected));
    }
}

#[test]
fn constants_fit_together() {
    assert_eq!(
        SHRUNKEN_ACCOUNT_PER_INTERVAL,
        SHRUNKEN_ACCOUNT_PER_SEC / (1000 / INTERVAL_MS as usize)
    );
    assert_eq!(RECYCLE_STORE_EXPIRATION_INTERVAL_SECS, 600);
}

#[test]
fn requests_are_not_below_what_was_cleaned() {
    let mut service = AccountsBackgroundService::new(true, false, None, 0);
    // each round: the root, and the request that came before it, if any
    for (root, request, cleaned) in [
        (50, None, 0),
        (120, None, 120),
        (130, Some(125), 125),
        (220, None, 125),
        (236, None, 236),
        (236, Some(236), 236),
        (400, Some(390), 390),
    ] {
        if let Some(height) = request {
            assert!(service.last_cleaned_block_height <= height);
        }
        let mut answers = quiet(root);
        answers.result = request.map(Ok);
        run(&mut service, &answers);
        assert_eq!(service.last_cleaned_block_height, cleaned);
    }
}

#[test]
fn cleaning_is_told_of_the_full_snapshot_handled_last() {
    let mut service = AccountsBackgroundService::new(false, false, Some(3), 0);
    // each round: the root, the request handled and the last full snapshot after it,
    // and what cleaning is told
    for (root, request, last_full, told) in [
        (150, None, Some(3), Some(Some(3))),
        (260, Some(255), Some(250), None),
        (300, None, Some(250), None),
        (310, Some(305), Some(250), None),
        (450, None, Some(250), Some(Some(250))),
    ] {
        let mut answers = quiet(root);
        answers.result = request.map(Ok);
        answers.last_full_snapshot_slot = last_full;
        let mut observed = None;
        service.exit_flag_read(false);
        while service.step != ServiceStep::ReadExitFlag {
            if let ServiceAction::CleanAccounts {
                last_full_snapshot_slot,
            } = service.action()
            {
                observed = Some(last_full_snapshot_slot);
            }
            take_step(&mut service, &answers);
        }
        assert_eq!(observed, told);
    }
}
