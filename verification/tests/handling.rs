use accounts_background_service::bank::{AccountsHash, Bank};
use accounts_background_service::error::{is_snapshot_error_fatal, SnapshotError};
use accounts_background_service::handler::SnapshotRequestHandler;
use accounts_background_service::handling::{SnapshotAction, SnapshotHandling, SnapshotWork};
use accounts_background_service::package::{AccountsPackageType, SnapshotConfig, SnapshotType};
use accounts_background_service::request::{SnapshotRequest, SnapshotRequestType};
use crossbeam_channel::unbounded;
use std::sync::Arc;

const FULL: AccountsPackageType = AccountsPackageType::Snapshot(SnapshotType::FullSnapshot);

fn new_handler() -> SnapshotRequestHandler<(), u64, &'static str> {
    SnapshotRequestHandler {
        snapshot_config: SnapshotConfig {
            full_snapshot_archive_interval_slots: 100,
            incremental_snapshot_archive_interval_slots: 10,
            full_snapshot_archives_dir: "full".to_string(),
            incremental_snapshot_archives_dir: "incremental".to_string(),
            bank_snapshots_dir: "bank".to_string(),
            archive_format: "tar".to_string(),
            snapshot_version: "1.2.0".to_string(),
        },
        snapshot_request_receiver: unbounded().1,
        pending_accounts_package: "pending",
    }
}

fn new_request() -> SnapshotRequest<(), u64> {
    SnapshotRequest {
        snapshot_root_bank: Arc::new(Bank {
            slot: 42,
            bank_id: 1,
            block_height: 40,
            inner: (),
        }),
        status_cache_slot_deltas: vec![3, 4],
        request_type: SnapshotRequestType::Snapshot,
    }
}

fn start(
    caching: bool,
    test_hash: bool,
    package: AccountsPackageType,
    last_full: &mut Option<u64>,
) -> SnapshotHandling {
    let request = new_request();
    new_handler().handle_snapshot_request(caching, test_hash, last_full, &request, package, true)
}

fn hash(byte: u8) -> AccountsHash {
    AccountsHash { bytes: [byte; 32] }
}

/// Does whatever is asked for, and returns what that was.
fn run(handling: &mut SnapshotHandling, result: Result<(), SnapshotError>) -> Vec<SnapshotWork> {
    let mut result = Some(result);
    let mut works = vec![];
    while let Some(work) = handling.pending {
        works.push(work);
        match work {
            SnapshotWork::UpdateAccountsHash => handling.accounts_hash_updated(hash(7)),
            SnapshotWork::ForceFlushAccountsCache => handling.accounts_cache_flushed(42),
            SnapshotWork::CalculateAccountsHash => {
                assert!(handling.is_previous_hash(&hash(7)));
                handling.accounts_hash_calculated(hash(7), 5, 5)
            }
            SnapshotWork::SnapshotBank => handling.bank_snapshot_taken(result.take().unwrap()),
            _ => handling.done(),
        }
    }
    works
}

#[test]
fn work_with_cache() {
    let mut handling = start(true, false, FULL, &mut None);
    assert_eq!(
        run(&mut handling, Ok(())),
        vec![
            SnapshotWork::ForceFlushAccountsCache,
            SnapshotWork::CleanAccounts,
            SnapshotWork::ShrinkCandidateSlots,
            SnapshotWork::SnapshotBank,
            SnapshotWork::PurgeOldBankSnapshots,
        ]
    );
    assert!(matches!(handling.into_result(), Ok(40)));
}

#[test]
fn work_without_cache() {
    let mut handling = start(false, false, FULL, &mut None);
    assert_eq!(
        run(&mut handling, Ok(())),
        vec![
            SnapshotWork::ProcessStaleSlot,
            SnapshotWork::CleanAccounts,
            SnapshotWork::SnapshotBank,
            SnapshotWork::PurgeOldBankSnapshots,
        ]
    );
    assert!(matches!(handling.into_result(), Ok(40)));
}

#[test]
fn work_with_cache_and_tested_hash() {
    let mut handling = start(true, true, FULL, &mut None);
    assert_eq!(
        run(&mut handling, Ok(())),
        vec![
            SnapshotWork::UpdateAccountsHash,
            SnapshotWork::ForceFlushAccountsCache,
            SnapshotWork::CalculateAccountsHash,
            SnapshotWork::CleanAccounts,
            SnapshotWork::ShrinkCandidateSlots,
            SnapshotWork::SnapshotBank,
            SnapshotWork::PurgeOldBankSnapshots,
        ]
    );
}

#[test]
fn work_without_cache_and_with_tested_hash() {
    let mut handling = start(false, true, FULL, &mut None);
    assert_eq!(
        run(&mut handling, Ok(())),
        vec![
            SnapshotWork::UpdateAccountsHash,
            SnapshotWork::ProcessStaleSlot,
            SnapshotWork::CalculateAccountsHash,
            SnapshotWork::CleanAccounts,
            SnapshotWork::SnapshotBank,
            SnapshotWork::PurgeOldBankSnapshots,
        ]
    );
}

#[test]
fn failed_snapshot_ends_the_handling() {
    let mut handling = start(true, false, FULL, &mut None);
    let works = run(&mut handling, Err(SnapshotError::MismatchedBaseSlot(3, 4)));
    assert_eq!(works.last(), Some(&SnapshotWork::SnapshotBank));
    assert!(handling.action().is_none());
    assert!(matches!(handling.into_result(), Err(SnapshotError::MismatchedBaseSlot(3, 4))));
}

#[test]
fn actions_pass_everything_along() {
    let mut last_full = Some(7);
    let mut handling = start(false, true, FULL, &mut last_full);
    assert_eq!(last_full, Some(42));
    assert!(matches!(
        handling.action(),
        Some(SnapshotAction::UpdateAccountsHash {
            use_index: true,
            debug_verify: false,
            is_startup: false
        })
    ));
    handling.accounts_hash_updated(hash(9));
    assert!(matches!(
        handling.action(),
        Some(SnapshotAction::ProcessStaleSlot {
            consumed_budget: 0,
            budget_recovery_delta: 25
        })
    ));
    handling.done();
    assert!(matches!(
        handling.action(),
        Some(SnapshotAction::CalculateAccountsHash {
            use_index: false,
            slot: 42,
            use_bg_thread_pool: true,
            check_hash: false,
            store_detailed_debug_info_on_failure: false
        })
    ));
    assert!(!handling.is_previous_hash(&hash(8)));
    assert!(handling.is_previous_hash(&hash(9)));
    handling.accounts_hash_calculated(hash(9), 11, 11);
    assert!(matches!(
        handling.action(),
        Some(SnapshotAction::CleanAccounts {
            last_full_snapshot_slot: Some(42)
        })
    ));
    handling.done();
    match handling.action() {
        Some(SnapshotAction::SnapshotBank {
            hash_for_testing,
            accounts_package_type,
        }) => {
            assert!(hash_for_testing.unwrap().same(&hash(9)));
            assert_eq!(accounts_package_type, FULL);
        }
        _ => panic!("the snapshot comes next"),
    }
}

#[test]
fn only_a_full_snapshot_becomes_the_last_full_one() {
    for package in [
        AccountsPackageType::AccountsHashVerifier,
        AccountsPackageType::EpochAccountsHash,
        AccountsPackageType::Snapshot(SnapshotType::IncrementalSnapshot(7)),
    ] {
        let mut last_full = Some(7);
        let mut handling = start(true, false, package, &mut last_full);
        assert_eq!(last_full, Some(7));
        handling.accounts_cache_flushed(50);
        assert!(matches!(
            handling.action(),
            Some(SnapshotAction::CleanAccounts {
                last_full_snapshot_slot: Some(7)
            })
        ));
        handling.done();
        handling.done();
        match handling.action() {
            Some(SnapshotAction::SnapshotBank {
                hash_for_testing,
                accounts_package_type,
            }) => {
                assert!(hash_for_testing.is_none());
                assert_eq!(accounts_package_type, package);
            }
            _ => panic!("the snapshot comes next"),
        }
    }
}

#[test]
fn every_error_is_fatal() {
    let text = || "text".to_string();
    for err in [
        SnapshotError::Io(text()),
        SnapshotError::Serialize(text()),
        SnapshotError::ArchiveGenerationFailure(text()),
        SnapshotError::StoragePathSymlinkInvalid,
        SnapshotError::UnpackError(text()),
        SnapshotError::IoWithSource(text(), text()),
        SnapshotError::PathToFileNameError(text()),
        SnapshotError::FileNameToStrError(text()),
        SnapshotError::ParseSnapshotArchiveFileNameError(text()),
        SnapshotError::MismatchedBaseSlot(1, 2),
        SnapshotError::NoSnapshotArchives,
        SnapshotError::MismatchedSlotHash(text()),
        SnapshotError::VerifySlotDeltas(text()),
    ] {
        assert!(is_snapshot_error_fatal(&err));
    }
}

#[test]
fn hashes_differ_in_any_byte() {
    for i in 0..32 {
        let mut other = hash(1);
        other.bytes[i] = 2;
        assert!(!hash(1).same(&other));
    }
    assert!(hash(1).same(&hash(1)));
}

#[test]
fn snapshot_gets_what_the_request_and_the_config_hold() {
    let mut handling = start(false, true, FULL, &mut None);
    handling.accounts_hash_updated(hash(7));
    handling.done();
    handling.accounts_hash_calculated(hash(7), 5, 5);
    handling.done();
    assert_eq!(handling.pending, Some(SnapshotWork::SnapshotBank));

    let handler = new_handler();
    let request = new_request();
    let bank = Arc::clone(&request.snapshot_root_bank);
    let arguments = handler.bank_snapshot_arguments(request, &handling);
    assert!(Arc::ptr_eq(&arguments.snapshot_root_bank, &bank));
    assert_eq!(arguments.status_cache_slot_deltas, vec![3, 4]);
    assert_eq!(*arguments.pending_accounts_package, "pending");
    assert_eq!(arguments.bank_snapshots_dir, "bank");
    assert_eq!(arguments.full_snapshot_archives_dir, "full");
    assert_eq!(arguments.incremental_snapshot_archives_dir, "incremental");
    assert_eq!(arguments.snapshot_version, "1.2.0");
    assert_eq!(arguments.archive_format, "tar");
    assert!(arguments.hash_for_testing.unwrap().same(&hash(7)));
    assert_eq!(arguments.accounts_package_type, FULL);
    assert_eq!(handler.purged_bank_snapshots_dir(), "bank");
}
