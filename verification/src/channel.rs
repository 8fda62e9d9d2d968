//! The channels of `crossbeam_channel` over which the service is fed.
//!
//! The contracts of the calls are trusted. A channel is shared between threads, so
//! what is waiting in it, and whether the other side is still there, can change
//! between any two calls: nothing is said of either. What does not change is
//! which signals go through a channel over its whole life, and of those the
//! contracts speak.

use crate::bank::{BankId, Slot};
use crate::handler::{picked_from, PickError, SnapshotRequestHandler};
use crate::pruned::{purges_for, PrunedBanksRequestHandler, PurgeSlot};
use crate::request::{ClassifiedRequest, SnapshotRequest};
use crossbeam_channel::{Receiver, Sender};
use vstd::prelude::*;

verus! {

/// The sending side of a channel, opaque here.
#[verifier::external_type_specification]
#[verifier::external_body]
#[verifier::reject_recursive_types(T)]
pub struct ExSender<T>(crossbeam_channel::Sender<T>);

/// The receiving side of a channel, opaque here.
#[verifier::external_type_specification]
#[verifier::external_body]
#[verifier::reject_recursive_types(T)]
pub struct ExReceiver<T>(crossbeam_channel::Receiver<T>);

/// Every signal that is put into the channel of `sender`, by anyone, from the
/// making of the channel to its end.
pub uninterp spec fn signals_into(sender: Sender<(Slot, BankId)>) -> Set<(Slot, BankId)>;

/// Every signal that is put into the channel of `receiver`, by anyone, from the
/// making of the channel to its end.
pub uninterp spec fn signals_from(receiver: Receiver<(Slot, BankId)>) -> Set<(Slot, BankId)>;

/// The record of what is taken out of a channel, take by take. Outside of this
/// file nothing can be taken without putting it on record, and no record can be
/// started: whoever is handed one cannot take anything behind its back.
#[verifier::reject_recursive_types(T)]
pub struct Takes<T> {
    batches: Ghost<Seq<Seq<T>>>,
}

impl<T> View for Takes<T> {
    type V = Seq<Seq<T>>;

    closed spec fn view(&self) -> Seq<Seq<T>> {
        self.batches@
    }
}

impl<T> Takes<T> {
    /// A record of nothing.
    fn start() -> (takes: Self)
        ensures
            takes@ == Seq::<Seq<T>>::empty(),
    {
        Takes { batches: Ghost(Seq::empty()) }
    }
}

/// `crossbeam_channel::unbounded`: makes a channel without a bound on its length
/// and hands out its two sides. Both belong to that channel, so the signals that
/// are put in on the one are those that can come out on the other.
#[verifier::external_body]
pub(crate) fn new_dropped_slots_channel() -> (ends: (
    Sender<(Slot, BankId)>,
    Receiver<(Slot, BankId)>,
))
    ensures
        signals_into(ends.0) == signals_from(ends.1),
{
    crossbeam_channel::unbounded()
}

/// `crossbeam_channel::Sender::send`, for signals: puts `signal` into the channel;
/// where the channel has a bound it waits for room. When no receiver is left the
/// signal is not put in, and comes back unchanged. Whether one is left is not said.
#[verifier::external_body]
pub(crate) fn send_signal(sender: &Sender<(Slot, BankId)>, signal: (Slot, BankId)) -> (sent: Result<
    (),
    (Slot, BankId),
>)
    ensures
        sent is Ok ==> signals_into(*sender).contains(signal),
        sent matches Err(returned) ==> returned == signal,
{
    match sender.send(signal) {
        Ok(()) => Ok(()),
        Err(crossbeam_channel::SendError(returned)) => Err(returned),
    }
}

/// `sent` is what sending `signal` on `sender` gives.
pub closed spec fn signal_sent(
    sender: Sender<(Slot, BankId)>,
    signal: (Slot, BankId),
    sent: Result<(), (Slot, BankId)>,
) -> bool {
    call_ensures(send_signal, (&sender, signal), sent)
}

/// A call of `send_signal` sends a signal.
pub(crate) proof fn lemma_signal_sent(
    sender: Sender<(Slot, BankId)>,
    signal: (Slot, BankId),
    sent: Result<(), (Slot, BankId)>,
)
    requires
        call_ensures(send_signal, (&sender, signal), sent),
    ensures
        signal_sent(sender, signal, sent),
{
}

/// `crossbeam_channel::Receiver::try_iter`, for signals: takes out, without
/// waiting, every signal that is ready, oldest first. Each was put into the
/// channel. Nothing is said of which are ready.
#[verifier::external_body]
fn take_signals(receiver: &Receiver<(Slot, BankId)>) -> (signals: Vec<(Slot, BankId)>)
    ensures
        forall|i: int|
            0 <= i < signals@.len() ==> signals_from(*receiver).contains(#[trigger] signals@[i]),
{
    receiver.try_iter().collect()
}

/// `signals` is what taking out every signal that is ready in `receiver` gives.
pub closed spec fn signals_taken(
    receiver: Receiver<(Slot, BankId)>,
    signals: Vec<(Slot, BankId)>,
) -> bool {
    call_ensures(take_signals, (&receiver,), signals)
}

/// A call of `take_signals` takes signals.
proof fn lemma_signals_taken(
    receiver: Receiver<(Slot, BankId)>,
    signals: Vec<(Slot, BankId)>,
)
    requires
        call_ensures(take_signals, (&receiver,), signals),
    ensures
        signals_taken(receiver, signals),
{
}

/// Takes out every signal that is ready in `receiver`, and puts it on record.
pub(crate) fn take_signals_on_record(
    receiver: &Receiver<(Slot, BankId)>,
    takes: &mut Takes<(Slot, BankId)>,
) -> (signals: Vec<(Slot, BankId)>)
    ensures
        signals_taken(*receiver, signals),
        forall|i: int|
            0 <= i < signals@.len() ==> signals_from(*receiver).contains(#[trigger] signals@[i]),
        final(takes)@ == old(takes)@.push(signals@),
{
    let signals = take_signals(receiver);
    proof {
        lemma_signals_taken(*receiver, signals);
    }
    takes.batches = Ghost(takes.batches@.push(signals@));
    signals
}

/// `crossbeam_channel::Sender::len`: how many signals are waiting. Nothing is
/// said of the number, which other threads change.
#[verifier::external_body]
pub(crate) fn queue_len(sender: &Sender<(Slot, BankId)>) -> (len: usize)
{
    sender.len()
}

/// `len` is what reading the length of the queue of `sender` gives.
pub closed spec fn queue_len_read(sender: Sender<(Slot, BankId)>, len: usize) -> bool {
    call_ensures(queue_len, (&sender,), len)
}

/// A call of `queue_len` reads the length of the queue.
pub(crate) proof fn lemma_queue_len_read(sender: Sender<(Slot, BankId)>, len: usize)
    requires
        call_ensures(queue_len, (&sender,), len),
    ensures
        queue_len_read(sender, len),
{
}

/// `crossbeam_channel::Sender::send`, for snapshot requests: puts `request` into
/// the channel; where the channel has a bound it waits for room. When no receiver
/// is left the request comes back, unchanged. Whether one is left is not said, nor
/// is what is in the channel afterwards.
#[verifier::external_body]
pub(crate) fn send_request<B, D>(
    sender: &Sender<SnapshotRequest<B, D>>,
    request: SnapshotRequest<B, D>,
) -> (sent: Result<(), SnapshotRequest<B, D>>)
    ensures
        sent matches Err(returned) ==> returned == request,
{
    match sender.send(request) {
        Ok(()) => Ok(()),
        Err(crossbeam_channel::SendError(returned)) => Err(returned),
    }
}

/// `sent` is what sending `request` on `sender` gives.
pub closed spec fn request_sent<B, D>(
    sender: Sender<SnapshotRequest<B, D>>,
    request: SnapshotRequest<B, D>,
    sent: Result<(), SnapshotRequest<B, D>>,
) -> bool {
    call_ensures(send_request::<B, D>, (&sender, request), sent)
}

/// A call of `send_request` sends a request.
pub(crate) proof fn lemma_request_sent<B, D>(
    sender: Sender<SnapshotRequest<B, D>>,
    request: SnapshotRequest<B, D>,
    sent: Result<(), SnapshotRequest<B, D>>,
)
    requires
        call_ensures(send_request::<B, D>, (&sender, request), sent),
    ensures
        request_sent(sender, request, sent),
{
}

/// `crossbeam_channel::Receiver::try_iter`, for snapshot requests: takes out,
/// without waiting, every request that is ready, oldest first. Nothing is said of
/// which those are.
#[verifier::external_body]
fn take_requests<B, D>(receiver: &Receiver<SnapshotRequest<B, D>>) -> (requests: Vec<
    SnapshotRequest<B, D>,
>)
{
    receiver.try_iter().collect()
}

/// `requests` is what taking out every request that is ready in `receiver` gives.
pub closed spec fn requests_taken<B, D>(
    receiver: Receiver<SnapshotRequest<B, D>>,
    requests: Vec<SnapshotRequest<B, D>>,
) -> bool {
    call_ensures(take_requests::<B, D>, (&receiver,), requests)
}

/// A call of `take_requests` takes requests.
proof fn lemma_requests_taken<B, D>(
    receiver: Receiver<SnapshotRequest<B, D>>,
    requests: Vec<SnapshotRequest<B, D>>,
)
    requires
        call_ensures(take_requests::<B, D>, (&receiver,), requests),
    ensures
        requests_taken(receiver, requests),
{
}

/// Takes out every request that is ready in `receiver`, and puts it on record.
pub(crate) fn take_requests_on_record<B, D>(
    receiver: &Receiver<SnapshotRequest<B, D>>,
    takes: &mut Takes<SnapshotRequest<B, D>>,
) -> (requests: Vec<SnapshotRequest<B, D>>)
    ensures
        requests_taken(*receiver, requests),
        final(takes)@ == old(takes)@.push(requests@),
{
    let requests = take_requests(receiver);
    proof {
        lemma_requests_taken(*receiver, requests);
    }
    takes.batches = Ghost(takes.batches@.push(requests@));
    requests
}

/// `crossbeam_channel::Sender::clone`: one more sending side of the same
/// channel. A sender stands for its channel and holds nothing else, so the two
/// are equal.
#[verifier::external_body]
pub(crate) fn another_sender<T>(sender: &Sender<T>) -> (other: Sender<T>)
    ensures
        other == *sender,
{
    sender.clone()
}

impl PrunedBanksRequestHandler {
    /// Takes every signal that is waiting; each is one slot to purge.
    ///
    /// Which are waiting is not known beforehand, but all that are taken are purged,
    /// in order, and only what was signalled is.
    pub fn handle_request(&self, is_serialized_with_abs: bool) -> (purges: Vec<PurgeSlot>)
        ensures
            exists|pruned_banks: Vec<(Slot, BankId)>| #[trigger]
                signals_taken(self.pruned_banks_receiver, pruned_banks) && purges@ == purges_for(
                    pruned_banks@,
                    is_serialized_with_abs,
                ),
            forall|i: int|
                0 <= i < purges@.len() ==> signals_from(self.pruned_banks_receiver).contains(
                    ((#[trigger] purges@[i]).slot, purges@[i].bank_id),
                ),
    {
        self.handle_request_on_record(is_serialized_with_abs, &mut Takes::start())
    }
}

impl<B, D, P> SnapshotRequestHandler<B, D, P> {
    /// Takes every request that is waiting and returns the one to handle, if there
    /// is one. The others are dropped.
    ///
    /// What is waiting is not known beforehand; whatever was taken, it is picked from
    /// as `picked_from` says.
    pub fn handle_snapshot_requests(&self, last_full_snapshot_slot: Option<Slot>) -> (picked: Result<
        Option<ClassifiedRequest<B, D>>,
        PickError,
    >)
        ensures
            exists|waiting: Vec<SnapshotRequest<B, D>>| #[trigger]
                requests_taken(self.snapshot_request_receiver, waiting) && picked_from(
                    waiting@,
                    self.snapshot_config,
                    last_full_snapshot_slot,
                    picked,
                ),
    {
        self.handle_snapshot_requests_on_record(last_full_snapshot_slot, &mut Takes::start())
    }
}

} // verus!
