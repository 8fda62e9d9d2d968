use accounts_background_service::bank::Bank;
use accounts_background_service::pruned::{
    dropped_bank_signal, purge_requests, DropSignal, PrunedBankQueueLenReporter,
    PrunedBanksRequestHandler, PurgeSlot, RemovedSlots, SendDroppedBankCallback,
};
use accounts_background_service::service::AccountsBackgroundService;
use crossbeam_channel::unbounded;
use std::collections::HashMap;

/// The accounts of a bank, by the slot they were stored in.
struct Accounts {
    lamports: HashMap<u64, Vec<u64>>,
}

impl Accounts {
    fn store_account(&mut self, slot: u64, lamports: u64) {
        self.lamports.entry(slot).or_default().push(lamports);
    }

    fn scan_slot(&self, slot: u64) -> Vec<u64> {
        self.lamports.get(&slot).cloned().unwrap_or_default()
    }

    fn purge_slot(&mut self, purge: &PurgeSlot) {
        assert!(purge.is_serialized_with_abs);
        self.lamports.remove(&purge.slot);
    }
}

fn bank(slot: u64, bank_id: u64) -> Bank<()> {
    Bank {
        slot,
        bank_id,
        block_height: 3,
        inner: (),
    }
}

#[test]
fn test_accounts_background_service_remove_dead_slots() {
    let mut accounts = Accounts {
        lamports: HashMap::new(),
    };
    let bank0 = bank(0, 0);
    let (pruned_banks_sender, pruned_banks_receiver) = unbounded();
    let pruned_banks_request_handler = PrunedBanksRequestHandler {
        pruned_banks_receiver,
    };

    // Store an account in slot 0
    accounts.store_account(bank0.slot, 264);
    assert!(accounts.scan_slot(0).contains(&264));
    pruned_banks_sender.send((0, 0)).unwrap();

    assert!(!accounts.scan_slot(0).is_empty());

    let mut removed = RemovedSlots {
        removed_slots_count: 0,
        total_remove_slots_time: 0,
    };
    let purges = pruned_banks_request_handler.remove_dead_slots();
    for purge in &purges {
        accounts.purge_slot(purge);
    }
    assert!(removed.record(purges.len(), 0).is_none());

    assert!(accounts.scan_slot(0).is_empty());
    assert_eq!(removed.removed_slots_count, 1);
}

#[test]
fn removed_slots_are_reported_by_the_hundred() {
    let mut removed = RemovedSlots {
        removed_slots_count: 0,
        total_remove_slots_time: 0,
    };
    assert_eq!(removed.record(60, 5), None);
    assert_eq!(removed.record(39, 6), None);
    assert_eq!(
        removed.record(1, 7),
        Some(RemovedSlots {
            removed_slots_count: 100,
            total_remove_slots_time: 18
        })
    );
    assert_eq!(removed.removed_slots_count, 0);
    assert_eq!(removed.total_remove_slots_time, 0);
    assert_eq!(removed.record(3, 4), None);
    assert_eq!(removed.removed_slots_count, 3);
    assert_eq!(removed.total_remove_slots_time, 4);
}

#[test]
fn warnings_need_a_long_queue_and_an_interval() {
    let mut reporter = PrunedBankQueueLenReporter::default();
    assert_eq!(reporter.last_report_time, 0);
    assert!(!reporter.report(10_000, 1_000_000));
    assert!(!reporter.report(10_001, 60_000));
    assert!(reporter.report(10_001, 60_001));
    assert_eq!(reporter.last_report_time, 60_001);
    assert!(!reporter.report(20_000, 120_001));
    assert!(reporter.report(20_000, 120_002));
    // the clock was set back
    assert!(!reporter.report(20_000, 5));
    assert_eq!(reporter.last_report_time, 120_002);
}

#[test]
fn callback_signals_the_dropped_bank() {
    let (sender, receiver) = AccountsBackgroundService::setup_bank_drop_callback(1);
    let callback = SendDroppedBankCallback::new(sender);
    let mut reporter = PrunedBankQueueLenReporter::default();
    let quiet = DropSignal {
        excessive_queue_len: None,
        disconnected: false,
    };
    assert_eq!(callback.callback(&bank(5, 9), &mut reporter, 100_000), quiet);
    assert_eq!(callback.clone().callback(&bank(6, 10), &mut reporter, 100_000), quiet);
    let handler = PrunedBanksRequestHandler {
        pruned_banks_receiver: receiver,
    };
    assert_eq!(
        handler.handle_request(false),
        vec![
            PurgeSlot {
                slot: 5,
                bank_id: 9,
                is_serialized_with_abs: false
            },
            PurgeSlot {
                slot: 6,
                bank_id: 10,
                is_serialized_with_abs: false
            },
        ]
    );
    assert!(handler.handle_request(true).is_empty());
    drop(handler);
    assert!(callback.callback(&bank(7, 11), &mut reporter, 100_000).disconnected);
}

#[test]
fn callback_warns_of_a_long_queue() {
    let (sender, receiver) = unbounded();
    for i in 0..10_001 {
        sender.send((i, i)).unwrap();
    }
    let callback = SendDroppedBankCallback::new(sender);
    let mut reporter = PrunedBankQueueLenReporter::default();
    let signal = callback.callback(&bank(5, 9), &mut reporter, 100_000);
    assert_eq!(signal.excessive_queue_len, Some(10_001));
    assert_eq!(reporter.last_report_time, 100_000);
    let signal = callback.callback(&bank(5, 9), &mut reporter, 160_000);
    assert_eq!(signal.excessive_queue_len, None);
    assert_eq!(receiver.len(), 10_003);
}

#[test]
fn signals_and_purges() {
    assert_eq!(dropped_bank_signal(&bank(5, 9)), (5, 9));
    assert!(purge_requests(vec![], true).is_empty());
    assert_eq!(
        purge_requests(vec![(5, 9)], true),
        vec![PurgeSlot {
            slot: 5,
            bank_id: 9,
            is_serialized_with_abs: true
        }]
    );
}

#[test]
fn length_before_the_signal_is_reported() {
    let (sender, receiver) = unbounded();
    let callback = SendDroppedBankCallback::new(sender);
    let reporter = PrunedBankQueueLenReporter::default();
    let (signal, after) = callback.signal_dropped(&bank(5, 9), 10_000, reporter, 100_000);
    assert_eq!(signal.excessive_queue_len, None);
    assert!(!signal.disconnected);
    assert_eq!(after.last_report_time, 0);
    let (signal, after) = callback.signal_dropped(&bank(6, 10), 10_001, reporter, 100_000);
    assert_eq!(signal.excessive_queue_len, Some(10_001));
    assert_eq!(after.last_report_time, 100_000);
    let sent: Vec<(u64, u64)> = receiver.try_iter().collect();
    assert_eq!(sent, vec![(5, 9), (6, 10)]);

    // one short of a warning: the signal itself is not counted
    for i in 0..10_000 {
        callback.signal_dropped(&bank(i, i), 0, reporter, 0);
    }
    let mut reporter = reporter;
    let signal = callback.callback(&bank(7, 11), &mut reporter, 100_000);
    assert_eq!(signal.excessive_queue_len, None);
    let signal = callback.callback(&bank(8, 12), &mut reporter, 100_000);
    assert_eq!(signal.excessive_queue_len, Some(10_001));
}
