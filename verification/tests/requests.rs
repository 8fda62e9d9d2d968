use accounts_background_service::bank::Bank;
use accounts_background_service::handler::{
    pick_snapshot_request, AbsRequestHandlers, AbsRequestSender, PickError,
    SnapshotRequestHandler,
};
use accounts_background_service::package::{
    should_take_full_snapshot, should_take_incremental_snapshot, AccountsPackageType,
    SnapshotConfig, SnapshotType,
};
use accounts_background_service::pruned::PrunedBanksRequestHandler;
use accounts_background_service::request::{
    accounts_package_type_when_due, are_classifiable, cmp_snapshot_requests,
    has_epoch_accounts_hash_conflict, new_accounts_package_type, select_snapshot_request,
    SnapshotRequest, SnapshotRequestType,
};
use crossbeam_channel::unbounded;
use std::sync::Arc;

type Request = SnapshotRequest<&'static str, u64>;

const FULL: AccountsPackageType = AccountsPackageType::Snapshot(SnapshotType::FullSnapshot);

fn incremental(base_slot: u64) -> AccountsPackageType {
    AccountsPackageType::Snapshot(SnapshotType::IncrementalSnapshot(base_slot))
}

fn new_bank(slot: u64, block_height: u64) -> Arc<Bank<&'static str>> {
    Arc::new(Bank {
        slot,
        bank_id: slot + 1000,
        block_height,
        inner: "bank",
    })
}

fn new_request(slot: u64, block_height: u64, request_type: SnapshotRequestType) -> Request {
    SnapshotRequest {
        snapshot_root_bank: new_bank(slot, block_height),
        status_cache_slot_deltas: vec![slot],
        request_type,
    }
}

fn snapshot(slot: u64, block_height: u64) -> Request {
    new_request(slot, block_height, SnapshotRequestType::Snapshot)
}

fn epoch(slot: u64, block_height: u64) -> Request {
    new_request(slot, block_height, SnapshotRequestType::EpochAccountsHash)
}

fn new_config(full: u64, incremental: u64) -> SnapshotConfig {
    SnapshotConfig {
        full_snapshot_archive_interval_slots: full,
        incremental_snapshot_archive_interval_slots: incremental,
        full_snapshot_archives_dir: "full".to_string(),
        incremental_snapshot_archives_dir: "incremental".to_string(),
        bank_snapshots_dir: "bank".to_string(),
        archive_format: "tar".to_string(),
        snapshot_version: "1.2.0".to_string(),
    }
}

fn new_snapshot_request_type(accounts_package_type: &AccountsPackageType) -> SnapshotRequestType {
    match accounts_package_type {
        AccountsPackageType::AccountsHashVerifier => SnapshotRequestType::Snapshot,
        AccountsPackageType::Snapshot(_) => SnapshotRequestType::Snapshot,
        AccountsPackageType::EpochAccountsHash => SnapshotRequestType::EpochAccountsHash,
    }
}

#[test]
fn test_cmp_snapshot_requests() {
    let bank = new_bank(0, 0);

    for (accounts_package_type_a, accounts_package_type_b, expected_result) in [
        (
            AccountsPackageType::EpochAccountsHash,
            AccountsPackageType::Snapshot(SnapshotType::FullSnapshot),
            std::cmp::Ordering::Greater,
        ),
        (
            AccountsPackageType::EpochAccountsHash,
            AccountsPackageType::Snapshot(SnapshotType::IncrementalSnapshot(5)),
            std::cmp::Ordering::Greater,
        ),
        (
            AccountsPackageType::EpochAccountsHash,
            AccountsPackageType::AccountsHashVerifier,
            std::cmp::Ordering::Greater,
        ),
        (
            AccountsPackageType::Snapshot(SnapshotType::FullSnapshot),
            AccountsPackageType::EpochAccountsHash,
            std::cmp::Ordering::Less,
        ),
        (
            AccountsPackageType::Snapshot(SnapshotType::FullSnapshot),
            AccountsPackageType::Snapshot(SnapshotType::FullSnapshot),
            std::cmp::Ordering::Equal,
        ),
        (
            AccountsPackageType::Snapshot(SnapshotType::FullSnapshot),
            AccountsPackageType::Snapshot(SnapshotType::IncrementalSnapshot(5)),
            std::cmp::Ordering::Greater,
        ),
        (
            AccountsPackageType::Snapshot(SnapshotType::FullSnapshot),
            AccountsPackageType::AccountsHashVerifier,
            std::cmp::Ordering::Greater,
        ),
        (
            AccountsPackageType::Snapshot(SnapshotType::IncrementalSnapshot(5)),
            AccountsPackageType::EpochAccountsHash,
            std::cmp::Ordering::Less,
        ),
        (
            AccountsPackageType::Snapshot(SnapshotType::IncrementalSnapshot(5)),
            AccountsPackageType::Snapshot(SnapshotType::FullSnapshot),
            std::cmp::Ordering::Less,
        ),
        (
            AccountsPackageType::Snapshot(SnapshotType::IncrementalSnapshot(5)),
            AccountsPackageType::Snapshot(SnapshotType::IncrementalSnapshot(6)),
            std::cmp::Ordering::Less,
        ),
        (
            AccountsPackageType::Snapshot(SnapshotType::IncrementalSnapshot(5)),
            AccountsPackageType::Snapshot(SnapshotType::IncrementalSnapshot(5)),
            std::cmp::Ordering::Equal,
        ),
        (
            AccountsPackageType::Snapshot(SnapshotType::IncrementalSnapshot(5)),
            AccountsPackageType::Snapshot(SnapshotType::IncrementalSnapshot(4)),
            std::cmp::Ordering::Greater,
        ),
        (
            AccountsPackageType::Snapshot(SnapshotType::IncrementalSnapshot(5)),
            AccountsPackageType::AccountsHashVerifier,
            std::cmp::Ordering::Greater,
        ),
        (
            AccountsPackageType::AccountsHashVerifier,
            AccountsPackageType::AccountsHashVerifier,
            std::cmp::Ordering::Equal,
        ),
    ] {
        let snapshot_request_a: Request = SnapshotRequest {
            snapshot_root_bank: Arc::clone(&bank),
            status_cache_slot_deltas: Vec::default(),
            request_type: new_snapshot_request_type(&accounts_package_type_a),
        };
        let snapshot_request_b: Request = SnapshotRequest {
            snapshot_root_bank: Arc::clone(&bank),
            status_cache_slot_deltas: Vec::default(),
            request_type: new_snapshot_request_type(&accounts_package_type_b),
        };

        let request_a = &(snapshot_request_a, accounts_package_type_a);
        let request_b = &(snapshot_request_b, accounts_package_type_b);

        let actual_result = cmp_snapshot_requests(request_a, request_b);
        assert_eq!(expected_result, actual_result);
    }
}

#[test]
#[should_panic]
fn test_cmp_snapshot_requests_both_eah() {
    let bank = new_bank(0, 0);

    let accounts_package_type_a = AccountsPackageType::EpochAccountsHash;
    let accounts_package_type_b = AccountsPackageType::EpochAccountsHash;

    let snapshot_request_a: Request = SnapshotRequest {
        snapshot_root_bank: Arc::clone(&bank),
        status_cache_slot_deltas: Vec::default(),
        request_type: new_snapshot_request_type(&accounts_package_type_a),
    };
    let snapshot_request_b: Request = SnapshotRequest {
        snapshot_root_bank: Arc::clone(&bank),
        status_cache_slot_deltas: Vec::default(),
        request_type: new_snapshot_request_type(&accounts_package_type_b),
    };

    let requests = vec![snapshot_request_a, snapshot_request_b];
    let _ = pick_snapshot_request(requests, &new_config(100, 10), None).unwrap();
}

#[test]
fn slots_break_ties() {
    let low = |package| (snapshot(4, 0), package);
    let high = |package| (snapshot(5, 0), package);
    for package in [
        FULL,
        incremental(3),
        AccountsPackageType::AccountsHashVerifier,
    ] {
        let (low, high) = (low(package), high(package));
        assert_eq!(cmp_snapshot_requests(&low, &high), std::cmp::Ordering::Less);
        assert_eq!(cmp_snapshot_requests(&high, &low), std::cmp::Ordering::Greater);
    }
    // the bank's slot comes before the base slot
    let a = (snapshot(4, 0), incremental(3));
    let b = (snapshot(5, 0), incremental(2));
    assert_eq!(cmp_snapshot_requests(&a, &b), std::cmp::Ordering::Less);
}

#[test]
fn intervals() {
    assert!(should_take_full_snapshot(300, 100));
    assert!(!should_take_full_snapshot(301, 100));
    assert!(should_take_full_snapshot(0, u64::MAX));
    assert!(should_take_incremental_snapshot(310, 10, Some(300)));
    assert!(!should_take_incremental_snapshot(310, 10, None));
    assert!(!should_take_incremental_snapshot(311, 10, Some(300)));
}

#[test]
fn package_types() {
    let config = new_config(100, 10);
    assert_eq!(new_accounts_package_type(&snapshot(7, 200), &config, Some(3)), FULL);
    assert_eq!(new_accounts_package_type(&snapshot(7, 210), &config, Some(3)), incremental(3));
    assert_eq!(
        new_accounts_package_type(&snapshot(7, 210), &config, None),
        AccountsPackageType::AccountsHashVerifier
    );
    assert_eq!(
        new_accounts_package_type(&snapshot(7, 211), &config, Some(3)),
        AccountsPackageType::AccountsHashVerifier
    );
    assert_eq!(
        new_accounts_package_type(&epoch(7, 200), &config, Some(3)),
        AccountsPackageType::EpochAccountsHash
    );
    // intervals do not matter to an epoch accounts hash, nor the incremental one
    // where a full snapshot is due
    assert_eq!(
        new_accounts_package_type(&epoch(7, 200), &new_config(0, 0), None),
        AccountsPackageType::EpochAccountsHash
    );
    assert_eq!(new_accounts_package_type(&snapshot(7, 200), &new_config(100, 0), None), FULL);
}

#[test]
fn package_types_once_it_is_known_what_is_due() {
    let ask = SnapshotRequestType::Snapshot;
    assert_eq!(accounts_package_type_when_due(ask, true, true, Some(9)), FULL);
    assert_eq!(accounts_package_type_when_due(ask, false, true, Some(9)), incremental(9));
    assert_eq!(
        accounts_package_type_when_due(ask, false, false, Some(9)),
        AccountsPackageType::AccountsHashVerifier
    );
    assert_eq!(
        accounts_package_type_when_due(SnapshotRequestType::EpochAccountsHash, true, true, None),
        AccountsPackageType::EpochAccountsHash
    );
}

#[test]
fn nothing_to_select() {
    assert!(select_snapshot_request::<(), ()>(vec![], &new_config(100, 10), None).is_none());
}

#[test]
fn highest_priority_is_selected() {
    let config = new_config(100, 10);
    let waiting = vec![snapshot(50, 211), snapshot(10, 200), snapshot(40, 210), snapshot(9, 300)];
    let (request, package) = select_snapshot_request(waiting, &config, Some(1)).unwrap();
    assert_eq!(request.snapshot_root_bank.slot, 10);
    assert_eq!(request.snapshot_root_bank.inner, "bank");
    assert_eq!(request.status_cache_slot_deltas, vec![10]);
    assert_eq!(package, FULL);
}

#[test]
fn latest_of_a_kind_is_selected() {
    let config = new_config(100, 10);
    let waiting = vec![snapshot(40, 210), snapshot(60, 230), snapshot(50, 220)];
    let (request, package) = select_snapshot_request(waiting, &config, Some(1)).unwrap();
    assert_eq!(request.snapshot_root_bank.slot, 60);
    assert_eq!(package, incremental(1));
}

#[test]
fn last_of_equals_is_selected() {
    let config = new_config(100, 10);
    let waiting = vec![snapshot(40, 211), snapshot(40, 212), snapshot(39, 213)];
    let (request, _) = select_snapshot_request(waiting, &config, None).unwrap();
    assert_eq!(request.snapshot_root_bank.block_height, 212);
}

#[test]
fn epoch_accounts_hash_is_selected() {
    let config = new_config(100, 10);
    let waiting = vec![snapshot(40, 200), epoch(2, 150), snapshot(50, 300)];
    assert!(!has_epoch_accounts_hash_conflict(&waiting));
    let (request, package) = select_snapshot_request(waiting, &config, None).unwrap();
    assert_eq!(request.snapshot_root_bank.slot, 2);
    assert_eq!(package, AccountsPackageType::EpochAccountsHash);
}

#[test]
fn pick_errors() {
    let waiting = vec![epoch(1, 1), snapshot(2, 2), epoch(3, 3)];
    assert!(has_epoch_accounts_hash_conflict(&waiting));
    assert_eq!(
        pick_snapshot_request(waiting, &new_config(100, 10), None).err(),
        Some(PickError::EpochAccountsHashConflict)
    );
    let waiting = vec![snapshot(2, 2)];
    assert!(!are_classifiable(&waiting, &new_config(0, 10)));
    assert!(!are_classifiable(&waiting, &new_config(100, 0)));
    assert!(are_classifiable(&waiting, &new_config(2, 0)));
    assert_eq!(
        pick_snapshot_request(waiting, &new_config(0, 10), None).err(),
        Some(PickError::ZeroSnapshotInterval)
    );
    assert!(matches!(
        pick_snapshot_request(vec![epoch(2, 2)], &new_config(0, 0), None),
        Ok(Some((_, AccountsPackageType::EpochAccountsHash)))
    ));
}

#[test]
fn requests_go_from_sender_to_handler() {
    let (sender, receiver) = unbounded();
    let sender = AbsRequestSender::new(sender);
    let handlers = AbsRequestHandlers {
        snapshot_request_handler: SnapshotRequestHandler {
            snapshot_config: new_config(100, 10),
            snapshot_request_receiver: receiver,
            pending_accounts_package: (),
        },
        pruned_banks_request_handler: PrunedBanksRequestHandler {
            pruned_banks_receiver: unbounded().1,
        },
    };
    assert!(matches!(handlers.handle_snapshot_requests(None), Ok(None)));

    assert!(sender.is_snapshot_creation_enabled());
    assert!(sender.send_snapshot_request(snapshot(5, 205)).is_ok());
    assert!(sender.clone().send_snapshot_request(snapshot(6, 200)).is_ok());
    assert!(sender.send_snapshot_request(snapshot(7, 210)).is_ok());
    match handlers.handle_snapshot_requests(Some(1)) {
        Ok(Some((request, package))) => {
            assert_eq!(request.snapshot_root_bank.slot, 6);
            assert_eq!(package, FULL);
        }
        _ => panic!("a request was sent"),
    }
    // the others were dropped
    assert!(matches!(handlers.handle_snapshot_requests(Some(1)), Ok(None)));
}

#[test]
fn request_comes_back_when_nobody_receives_it() {
    let (sender, receiver) = unbounded();
    let sender = AbsRequestSender::new(sender);
    drop(receiver);
    match sender.send_snapshot_request(snapshot(5, 205)) {
        Err(error) => assert_eq!(error.0.snapshot_root_bank.slot, 5),
        Ok(()) => panic!("there is no receiver"),
    }
}

#[test]
fn default_sender_is_disabled() {
    let sender: AbsRequestSender<&'static str, u64> = AbsRequestSender::default();
    assert!(!sender.is_snapshot_creation_enabled());
    assert!(!sender.clone().is_snapshot_creation_enabled());
    assert!(sender.send_snapshot_request(snapshot(5, 205)).is_ok());
}

#[test]
fn priority_is_an_order() {
    let mut all = vec![(epoch(1, 1), AccountsPackageType::EpochAccountsHash)];
    for slot in 1..4 {
        all.push((snapshot(slot, 0), FULL));
        all.push((snapshot(slot, 0), incremental(0)));
        all.push((snapshot(slot, 0), incremental(1)));
        all.push((snapshot(slot, 0), AccountsPackageType::AccountsHashVerifier));
    }
    // the only epoch accounts hash request is not compared with itself
    let below = |i: usize, j: usize| {
        (i != 0 || j != 0)
            && cmp_snapshot_requests(&all[i], &all[j]) == std::cmp::Ordering::Less
    };
    for i in 0..all.len() {
        assert!(!below(i, i));
        for j in 0..all.len() {
            assert!(!(below(i, j) && below(j, i)));
            // no two of them have the same priority
            assert!(i == j || below(i, j) || below(j, i));
            for k in 0..all.len() {
                assert!(!(below(i, j) && below(j, k)) || below(i, k));
            }
        }
    }
}
