//! Banks that were dropped: how the service hears of them, and the purging of
//! their slots.

use crate::bank::{Bank, BankId, Slot};
use crate::channel::{
    another_sender, lemma_queue_len_read, lemma_signal_sent, queue_len, queue_len_read,
    send_signal, signal_sent, signals_from, signals_into, signals_taken, take_signals_on_record,
    Takes,
};
use crossbeam_channel::{Receiver, Sender};
use vstd::prelude::*;

verus! {

pub type DroppedSlotsSender = Sender<(Slot, BankId)>;

pub type DroppedSlotsReceiver = Receiver<(Slot, BankId)>;

/// interval to report bank_drop queue events: 60s
pub const BANK_DROP_SIGNAL_CHANNEL_REPORT_INTERVAL: u64 = 60_000;

/// maximum drop bank signal queue length
pub const MAX_DROP_BANK_SIGNAL_QUEUE_SIZE: usize = 10_000;

/// How many slots are removed before their removal is reported.
pub const REMOVED_SLOTS_PER_REPORT: usize = 100;

/// Warns of a queue of dropped banks that grew too long, but not too often.
#[derive(Clone, Copy, Debug)]
pub struct PrunedBankQueueLenReporter {
    /// When the last warning was given, in milliseconds since the Unix epoch.
    pub last_report_time: u64,
}

impl PrunedBankQueueLenReporter {
    /// A warning about a queue of `q_len` is due at `now`: the queue is too long, and
    /// the last warning is more than the interval ago.
    pub open spec fn is_due(&self, q_len: usize, now: u64) -> bool {
        &&& q_len > MAX_DROP_BANK_SIGNAL_QUEUE_SIZE
        &&& now - self.last_report_time > BANK_DROP_SIGNAL_CHANNEL_REPORT_INTERVAL
    }

    /// Whether to warn, at `now`, that the queue has the length `q_len`. If so, that
    /// is remembered as the last warning.
    pub fn report(&mut self, q_len: usize, now: u64) -> (due: bool)
        ensures
            due == old(self).is_due(q_len, now),
            final(self).last_report_time == if due {
                now
            } else {
                old(self).last_report_time
            },
    {
        if q_len > MAX_DROP_BANK_SIGNAL_QUEUE_SIZE && now.saturating_sub(self.last_report_time)
            > BANK_DROP_SIGNAL_CHANNEL_REPORT_INTERVAL {
            self.last_report_time = now;
            true
        } else {
            false
        }
    }
}

impl Default for PrunedBankQueueLenReporter {
    fn default() -> (reporter: Self)
        ensures
            reporter.last_report_time == 0,
    {
        PrunedBankQueueLenReporter { last_report_time: 0 }
    }
}

/// What there is to say after a dropped bank was signalled.
#[derive(Clone, Copy, Debug, PartialEq, Eq, Structural)]
pub struct DropSignal {
    /// The length of the queue, if it is to be warned of.
    pub excessive_queue_len: Option<usize>,
    /// Nobody is left to receive the signal.
    pub disconnected: bool,
}

/// Signals the service that a bank was dropped.
pub struct SendDroppedBankCallback {
    sender: DroppedSlotsSender,
}

impl View for SendDroppedBankCallback {
    type V = DroppedSlotsSender;

    closed spec fn view(&self) -> DroppedSlotsSender {
        self.sender
    }
}

impl SendDroppedBankCallback {
    pub fn new(sender: DroppedSlotsSender) -> (callback: Self)
        ensures
            callback@ == sender,
    {
        SendDroppedBankCallback { sender }
    }

    /// Signals, at `now`, that `bank` was dropped, and warns of the length that the
    /// queue had before, where that is due. How long the queue is, and whether anyone
    /// receives the signal, is up to others.
    pub fn callback<B>(
        &self,
        bank: &Bank<B>,
        reporter: &mut PrunedBankQueueLenReporter,
        now: u64,
    ) -> (signal: DropSignal)
        ensures
            exists|q_len: usize| #[trigger]
                queue_len_read(self@, q_len) && self.dropped_signalled(
                    *bank,
                    q_len,
                    *old(reporter),
                    now,
                    (signal, *final(reporter)),
                ) && signal.excessive_queue_len == if old(reporter).is_due(q_len, now) {
                    Some(q_len)
                } else {
                    None
                },
            final(reporter).last_report_time == if signal.excessive_queue_len is Some {
                now
            } else {
                old(reporter).last_report_time
            },
            exists|sent: Result<(), (Slot, BankId)>| #[trigger]
                signal_sent(self@, (bank.slot, bank.bank_id), sent) && signal.disconnected == (
                sent is Err),
            !signal.disconnected ==> signals_into(self@).contains((bank.slot, bank.bank_id)),
    {
        let q_len: usize = queue_len(&self.sender);
        let (signal, reporter_after) = self.signal_dropped(bank, q_len, *reporter, now);
        *reporter = reporter_after;
        proof {
            lemma_queue_len_read(self@, q_len);
        }
        signal
    }

    /// `signalled` is what signalling that `bank` was dropped gives, once the queue was
    /// found to have the length `q_len`.
    pub open spec fn dropped_signalled<B>(
        &self,
        bank: Bank<B>,
        q_len: usize,
        reporter: PrunedBankQueueLenReporter,
        now: u64,
        signalled: (DropSignal, PrunedBankQueueLenReporter),
    ) -> bool {
        call_ensures(Self::signal_dropped::<B>, (self, &bank, q_len, reporter, now), signalled)
    }

    /// Signals, at `now`, that `bank` was dropped, the queue having had the length
    /// `q_len` before. That length is warned of where `reporter` finds it due; the
    /// reporter comes back as it is afterwards.
    pub fn signal_dropped<B>(
        &self,
        bank: &Bank<B>,
        q_len: usize,
        reporter: PrunedBankQueueLenReporter,
        now: u64,
    ) -> (signalled: (DropSignal, PrunedBankQueueLenReporter))
        ensures
            signalled.0.excessive_queue_len == if reporter.is_due(q_len, now) {
                Some(q_len)
            } else {
                None
            },
            signalled.1.last_report_time == if reporter.is_due(q_len, now) {
                now
            } else {
                reporter.last_report_time
            },
            exists|sent: Result<(), (Slot, BankId)>| #[trigger]
                signal_sent(self@, (bank.slot, bank.bank_id), sent) && signalled.0.disconnected
                    == (sent is Err),
            !signalled.0.disconnected ==> signals_into(self@).contains(
                (bank.slot, bank.bank_id),
            ),
    {
        let mut reporter_after = reporter;
        let excessive = reporter_after.report(q_len, now);
        let sent = send_signal(&self.sender, dropped_bank_signal(bank));
        proof {
            lemma_signal_sent(self@, (bank.slot, bank.bank_id), sent);
        }
        let signal = DropSignal {
            excessive_queue_len: if excessive {
                Some(q_len)
            } else {
                None
            },
            disconnected: sent.is_err(),
        };
        (signal, reporter_after)
    }
}

impl Clone for SendDroppedBankCallback {
    fn clone(&self) -> (other: Self)
        ensures
            other@ == self@,
    {
        SendDroppedBankCallback { sender: another_sender(&self.sender) }
    }
}

/// The signal for a dropped bank.
pub fn dropped_bank_signal<B>(bank: &Bank<B>) -> (signal: (Slot, BankId))
    ensures
        signal == (bank.slot, bank.bank_id),
{
    (bank.slot, bank.bank_id)
}

/// A slot that is to be purged from the accounts of the root bank.
#[derive(Clone, Copy, Debug, PartialEq, Eq, Structural)]
pub struct PurgeSlot {
    pub slot: Slot,
    pub bank_id: BankId,
    /// The purge does not run at the same time as the background loop.
    pub is_serialized_with_abs: bool,
}

/// The purge for each of the dropped banks, in order.
pub open spec fn purges_for(
    pruned_banks: Seq<(Slot, BankId)>,
    is_serialized_with_abs: bool,
) -> Seq<PurgeSlot> {
    pruned_banks.map_values(
        |pruned: (Slot, BankId)|
            PurgeSlot { slot: pruned.0, bank_id: pruned.1, is_serialized_with_abs },
    )
}

/// Receives the signals of dropped banks.
#[derive(Debug)]
pub struct PrunedBanksRequestHandler {
    pub pruned_banks_receiver: DroppedSlotsReceiver,
}

impl PrunedBanksRequestHandler {
    /// Takes every signal that is waiting; each is one slot to purge. `takes` is the
    /// record of what was taken: nothing is on it behind what was there before but the
    /// signals that are purged.
    pub fn handle_request_on_record(
        &self,
        is_serialized_with_abs: bool,
        takes: &mut Takes<(Slot, BankId)>,
    ) -> (purges: Vec<PurgeSlot>)
        ensures
            final(takes)@.len() == old(takes)@.len() + 1,
            final(takes)@.drop_last() == old(takes)@,
            purges@.len() == final(takes)@.last().len(),
            forall|i: int|
                0 <= i < purges@.len() ==> {
                    &&& (#[trigger] purges@[i]).slot == final(takes)@.last()[i].0
                    &&& purges@[i].bank_id == final(takes)@.last()[i].1
                    &&& purges@[i].is_serialized_with_abs == is_serialized_with_abs
                },
            exists|pruned_banks: Vec<(Slot, BankId)>| #[trigger]
                signals_taken(self.pruned_banks_receiver, pruned_banks) && purges@ == purges_for(
                    pruned_banks@,
                    is_serialized_with_abs,
                ),
            forall|i: int|
                0 <= i < purges@.len() ==> signals_from(self.pruned_banks_receiver).contains(
                    ((#[trigger] purges@[i]).slot, purges@[i].bank_id),
                ),
    {
        let pruned_banks = take_signals_on_record(&self.pruned_banks_receiver, takes);
        let ghost taken = pruned_banks;
        let purges = purge_requests(pruned_banks, is_serialized_with_abs);
        assert forall|i: int| 0 <= i < purges@.len() implies signals_from(
            self.pruned_banks_receiver,
        ).contains(((#[trigger] purges@[i]).slot, purges@[i].bank_id)) by {
            assert(signals_from(self.pruned_banks_receiver).contains(taken@[i]));
        }
        purges
    }

    /// The slots that one round of the background loop has to purge.
    pub fn remove_dead_slots(&self) -> (purges: Vec<PurgeSlot>)
        ensures
            exists|pruned_banks: Vec<(Slot, BankId)>| #[trigger]
                signals_taken(self.pruned_banks_receiver, pruned_banks) && purges@ == purges_for(
                    pruned_banks@,
                    true,
                ),
            forall|i: int|
                0 <= i < purges@.len() ==> signals_from(self.pruned_banks_receiver).contains(
                    ((#[trigger] purges@[i]).slot, purges@[i].bank_id),
                ),
    {
        self.handle_request(true)
    }
}

/// The purge for each of the dropped banks, in order.
pub fn purge_requests(
    pruned_banks: Vec<(Slot, BankId)>,
    is_serialized_with_abs: bool,
) -> (purges: Vec<PurgeSlot>)
    ensures
        purges@ == purges_for(pruned_banks@, is_serialized_with_abs),
{
    let mut purges: Vec<PurgeSlot> = Vec::new();
    let mut i: usize = 0;
    while i < pruned_banks.len()
        invariant
            i <= pruned_banks.len(),
            purges@.len() == i,
            forall|j: int|
                0 <= j < i ==> #[trigger] purges@[j] == (PurgeSlot {
                    slot: pruned_banks@[j].0,
                    bank_id: pruned_banks@[j].1,
                    is_serialized_with_abs,
                }),
        decreases pruned_banks.len() - i,
    {
        let (slot, bank_id) = pruned_banks[i];
        purges.push(PurgeSlot { slot, bank_id, is_serialized_with_abs });
        i += 1;
    }
    purges
}

/// How many slots were removed, and how long that took.
#[derive(Clone, Copy, Debug, PartialEq, Eq, Structural)]
pub struct RemovedSlots {
    pub removed_slots_count: usize,
    /// In microseconds.
    pub total_remove_slots_time: u64,
}

impl RemovedSlots {
    /// These and some more.
    pub open spec fn plus(&self, count: usize, time: u64) -> RemovedSlots {
        RemovedSlots {
            removed_slots_count: (self.removed_slots_count + count) as usize,
            total_remove_slots_time: (self.total_remove_slots_time + time) as u64,
        }
    }

    /// No slots.
    pub open spec fn zero() -> RemovedSlots {
        RemovedSlots { removed_slots_count: 0, total_remove_slots_time: 0 }
    }

    /// Enough slots to report them.
    pub open spec fn is_reportable(&self) -> bool {
        self.removed_slots_count >= REMOVED_SLOTS_PER_REPORT
    }

    /// The sums stay within what their types can hold.
    pub open spec fn fits(&self, count: usize, time: u64) -> bool {
        &&& self.removed_slots_count + count <= usize::MAX
        &&& self.total_remove_slots_time + time <= u64::MAX
    }

    /// Adds the removal of `count` slots, which took `time` microseconds. Once
    /// enough slots were removed the sums are returned, to be reported, and start
    /// again from zero.
    pub fn record(&mut self, count: usize, time: u64) -> (report: Option<RemovedSlots>)
        requires
            old(self).fits(count, time),
        ensures
            report == if old(self).plus(count, time).is_reportable() {
                Some(old(self).plus(count, time))
            } else {
                None
            },
            *final(self) == if old(self).plus(count, time).is_reportable() {
                RemovedSlots::zero()
            } else {
                old(self).plus(count, time)
            },
    {
        self.removed_slots_count = self.removed_slots_count + count;
        self.total_remove_slots_time = self.total_remove_slots_time + time;
        if self.removed_slots_count >= REMOVED_SLOTS_PER_REPORT {
            let sums = *self;
            self.removed_slots_count = 0;
            self.total_remove_slots_time = 0;
            Some(sums)
        } else {
            None
        }
    }
}

/// Two warnings are more than the interval apart: once one was given at `first`,
/// none is due before the interval has passed, whatever the length of the queue.
pub proof fn law_warnings_are_an_interval_apart(
    reporter: PrunedBankQueueLenReporter,
    first: u64,
    second: u64,
    q_len: usize,
)
    requires
        reporter.last_report_time == first,
        reporter.is_due(q_len, second),
    ensures
        second > first + BANK_DROP_SIGNAL_CHANNEL_REPORT_INTERVAL,
{
}

/// A warning is due exactly when more than 10,000 signals wait and more than a
/// minute has passed since the last one.
pub proof fn law_when_a_warning_is_due(
    reporter: PrunedBankQueueLenReporter,
    q_len: usize,
    now: u64,
)
    ensures
        reporter.is_due(q_len, now) <==> q_len > 10_000 && now > reporter.last_report_time + 60_000,
{
}

/// Every dropped bank is purged, in order, and nothing else is.
pub proof fn law_each_dropped_bank_is_purged(
    pruned_banks: Seq<(Slot, BankId)>,
    is_serialized_with_abs: bool,
)
    ensures
        purges_for(pruned_banks, is_serialized_with_abs).len() == pruned_banks.len(),
        forall|i: int|
            0 <= i < pruned_banks.len() ==> {
                let purge = #[trigger] purges_for(pruned_banks, is_serialized_with_abs)[i];
                &&& purge.slot == pruned_banks[i].0
                &&& purge.bank_id == pruned_banks[i].1
                &&& purge.is_serialized_with_abs == is_serialized_with_abs
            },
{
}

/// No signal that handling takes out of the channel is lost: each is purged.
/// `before` and `after` are the record of what was taken.
pub proof fn law_no_signal_taken_is_lost(
    before: Seq<Seq<(Slot, BankId)>>,
    after: Seq<Seq<(Slot, BankId)>>,
    purges: Seq<PurgeSlot>,
    is_serialized_with_abs: bool,
    batch: int,
    i: int,
)
    requires
        after.len() == before.len() + 1,
        after.drop_last() == before,
        purges == purges_for(after.last(), is_serialized_with_abs),
        before.len() <= batch < after.len(),
        0 <= i < after[batch].len(),
    ensures
        purges.contains(
            PurgeSlot {
                slot: after[batch][i].0,
                bank_id: after[batch][i].1,
                is_serialized_with_abs,
            },
        ),
{
    law_each_dropped_bank_is_purged(after.last(), is_serialized_with_abs);
    assert(purges[i] == PurgeSlot {
        slot: after[batch][i].0,
        bank_id: after[batch][i].1,
        is_serialized_with_abs,
    });
}

/// The sums add up, and are reported from the hundredth slot on.
pub proof fn law_removed_slots_add_up(removed: RemovedSlots, count: usize, time: u64)
    ensures
        removed.fits(count, time) <==> removed.removed_slots_count + count <= usize::MAX
            && removed.total_remove_slots_time + time <= u64::MAX,
        removed.fits(count, time) ==> removed.plus(count, time).removed_slots_count
            == removed.removed_slots_count + count,
        removed.fits(count, time) ==> removed.plus(count, time).total_remove_slots_time
            == removed.total_remove_slots_time + time,
        removed.is_reportable() <==> removed.removed_slots_count >= 100,
        RemovedSlots::zero().removed_slots_count == 0,
        RemovedSlots::zero().total_remove_slots_time == 0,
{
}

} // verus!
