//! The sides of the request channels that the service works on.

use crate::bank::{AccountsHash, Bank, Slot};
use crate::channel::{
    another_sender, lemma_request_sent, request_sent, requests_taken, send_request,
    take_requests_on_record, Takes,
};
use crate::handling::SnapshotHandling;
use crate::package::{AccountsPackageType, SnapshotConfig, SnapshotType};
use crate::pruned::PrunedBanksRequestHandler;
use crate::request::{
    are_classifiable, can_classify, can_classify_all, classified, epoch_accounts_hash_conflict,
    has_epoch_accounts_hash_conflict, is_selected, law_nothing_comes_before_the_selected,
    law_which_requests_can_be_classified, request_package_type, select_snapshot_request,
    ClassifiedRequest, SnapshotRequest,
};
use crossbeam_channel::{Receiver, Sender};
use std::sync::Arc;
use vstd::prelude::*;

verus! {

pub type SnapshotRequestSender<B, D> = Sender<SnapshotRequest<B, D>>;

pub type SnapshotRequestReceiver<B, D> = Receiver<SnapshotRequest<B, D>>;

/// Why none of the requests that are waiting can be picked.
#[derive(Clone, Copy, Debug, PartialEq, Eq, Structural)]
pub enum PickError {
    /// Whether a snapshot is due is undefined, as its interval is zero.
    ZeroSnapshotInterval,
    /// More than one epoch accounts hash was asked for at a time.
    EpochAccountsHashConflict,
}

/// `picked` is what has to come of the `waiting` requests, which stand in the
/// order they arrived in: the request to handle, none if none is waiting, or why
/// none can be picked.
pub open spec fn picked_from<B, D>(
    waiting: Seq<SnapshotRequest<B, D>>,
    snapshot_config: SnapshotConfig,
    last_full_snapshot_slot: Option<Slot>,
    picked: Result<Option<ClassifiedRequest<B, D>>, PickError>,
) -> bool {
    match picked {
        Err(PickError::ZeroSnapshotInterval) => !can_classify_all(waiting, snapshot_config),
        Err(PickError::EpochAccountsHashConflict) => {
            &&& can_classify_all(waiting, snapshot_config)
            &&& epoch_accounts_hash_conflict(waiting)
        },
        Ok(None) => waiting.len() == 0,
        Ok(Some(request)) => {
            &&& can_classify_all(waiting, snapshot_config)
            &&& !epoch_accounts_hash_conflict(waiting)
            &&& exists|i: int| #[trigger]
                is_selected(waiting, snapshot_config, last_full_snapshot_slot, i) && request
                    == classified(waiting, snapshot_config, last_full_snapshot_slot, i)
        },
    }
}

/// The message that could not be sent.
pub struct SendError<T>(pub T);

/// The slot of the last full snapshot, once the bank at `slot` was made into
/// `accounts_package_type`: a full snapshot becomes the last one.
pub open spec fn last_full_after(
    accounts_package_type: AccountsPackageType,
    slot: Slot,
    before: Option<Slot>,
) -> Option<Slot> {
    if accounts_package_type == AccountsPackageType::Snapshot(SnapshotType::FullSnapshot) {
        Some(slot)
    } else {
        before
    }
}

/// Everything that goes into taking the snapshot of a bank.
pub struct BankSnapshotArguments<'a, B, D, P> {
    pub snapshot_root_bank: Arc<Bank<B>>,
    pub status_cache_slot_deltas: Vec<D>,
    pub pending_accounts_package: &'a P,
    pub bank_snapshots_dir: &'a String,
    pub full_snapshot_archives_dir: &'a String,
    pub incremental_snapshot_archives_dir: &'a String,
    pub snapshot_version: &'a String,
    pub archive_format: &'a String,
    pub hash_for_testing: Option<AccountsHash>,
    pub accounts_package_type: AccountsPackageType,
}

/// Receives snapshot requests and decides what is done for them. `P` is the
/// runtime's own place for the accounts package that is handed over next.
#[verifier::reject_recursive_types(B)]
#[verifier::reject_recursive_types(D)]
pub struct SnapshotRequestHandler<B, D, P> {
    pub snapshot_config: SnapshotConfig,
    pub snapshot_request_receiver: SnapshotRequestReceiver<B, D>,
    pub pending_accounts_package: P,
}

impl<B, D, P> SnapshotRequestHandler<B, D, P> {
    /// Takes every request that is waiting and returns the one to handle, if there
    /// is one. The others are dropped. `takes` is the record of what was taken: nothing
    /// is on it behind what was there before but the requests that are picked from.
    pub fn handle_snapshot_requests_on_record(
        &self,
        last_full_snapshot_slot: Option<Slot>,
        takes: &mut Takes<SnapshotRequest<B, D>>,
    ) -> (picked: Result<Option<ClassifiedRequest<B, D>>, PickError>)
        ensures
            final(takes)@.len() == old(takes)@.len() + 1,
            final(takes)@.drop_last() == old(takes)@,
            final(takes)@.last().len() > 0 ==> !(picked matches Ok(None)),
            picked matches Ok(Some(request)) ==> final(takes)@.last().contains(request.0),
            exists|waiting: Vec<SnapshotRequest<B, D>>| #[trigger]
                requests_taken(self.snapshot_request_receiver, waiting) && waiting@
                    == final(takes)@.last() && picked_from(
                    waiting@,
                    self.snapshot_config,
                    last_full_snapshot_slot,
                    picked,
                ),
    {
        let waiting = take_requests_on_record(&self.snapshot_request_receiver, takes);
        pick_snapshot_request(waiting, &self.snapshot_config, last_full_snapshot_slot)
    }

    /// Starts handling `snapshot_request`. A full snapshot becomes the last one.
    ///
    /// The state of the node is not to be relied on before startup verification is
    /// complete, except for an epoch accounts hash.
    pub fn handle_snapshot_request(
        &self,
        accounts_db_caching_enabled: bool,
        test_hash_calculation: bool,
        last_full_snapshot_slot: &mut Option<Slot>,
        snapshot_request: &SnapshotRequest<B, D>,
        accounts_package_type: AccountsPackageType,
        startup_verification_complete: bool,
    ) -> (handling: SnapshotHandling)
        requires
            startup_verification_complete
                || snapshot_request.request_type is EpochAccountsHash,
        ensures
            *final(last_full_snapshot_slot) == last_full_after(
                accounts_package_type,
                snapshot_request.snapshot_root_bank.slot,
                *old(last_full_snapshot_slot),
            ),
            handling.well_formed(),
            handling.accounts_db_caching_enabled == accounts_db_caching_enabled,
            handling.test_hash_calculation == test_hash_calculation,
            handling.slot == snapshot_request.snapshot_root_bank.slot,
            handling.block_height == snapshot_request.snapshot_root_bank.block_height,
            handling.accounts_package_type == accounts_package_type,
            handling.last_full_snapshot_slot == *final(last_full_snapshot_slot),
            handling.previous_hash is None,
            handling.hash_for_testing is None,
            handling.failure is None,
            handling.remaining() == handling.plan(),
    {
        let slot: Slot = snapshot_request.snapshot_root_bank.slot;
        if accounts_package_type == AccountsPackageType::Snapshot(SnapshotType::FullSnapshot) {
            *last_full_snapshot_slot = Some(slot);
        }
        SnapshotHandling::begin(
            accounts_db_caching_enabled,
            test_hash_calculation,
            slot,
            snapshot_request.snapshot_root_bank.block_height,
            accounts_package_type,
            *last_full_snapshot_slot,
        )
    }

    /// What goes into the snapshot that `handling` takes for `snapshot_request`: the
    /// request's own bank and slot deltas, where and how the handler stores
    /// snapshots, and the hash and the package of the handling.
    pub fn bank_snapshot_arguments<'a>(
        &'a self,
        snapshot_request: SnapshotRequest<B, D>,
        handling: &SnapshotHandling,
    ) -> (arguments: BankSnapshotArguments<'a, B, D, P>)
        ensures
            arguments.snapshot_root_bank == snapshot_request.snapshot_root_bank,
            arguments.status_cache_slot_deltas == snapshot_request.status_cache_slot_deltas,
            *arguments.pending_accounts_package == self.pending_accounts_package,
            *arguments.bank_snapshots_dir == self.snapshot_config.bank_snapshots_dir,
            *arguments.full_snapshot_archives_dir
                == self.snapshot_config.full_snapshot_archives_dir,
            *arguments.incremental_snapshot_archives_dir
                == self.snapshot_config.incremental_snapshot_archives_dir,
            *arguments.snapshot_version == self.snapshot_config.snapshot_version,
            *arguments.archive_format == self.snapshot_config.archive_format,
            arguments.hash_for_testing == handling.hash_for_testing,
            arguments.accounts_package_type == handling.accounts_package_type,
    {
        BankSnapshotArguments {
            snapshot_root_bank: snapshot_request.snapshot_root_bank,
            status_cache_slot_deltas: snapshot_request.status_cache_slot_deltas,
            pending_accounts_package: &self.pending_accounts_package,
            bank_snapshots_dir: &self.snapshot_config.bank_snapshots_dir,
            full_snapshot_archives_dir: &self.snapshot_config.full_snapshot_archives_dir,
            incremental_snapshot_archives_dir:
                &self.snapshot_config.incremental_snapshot_archives_dir,
            snapshot_version: &self.snapshot_config.snapshot_version,
            archive_format: &self.snapshot_config.archive_format,
            hash_for_testing: handling.hash_for_testing,
            accounts_package_type: handling.accounts_package_type,
        }
    }

    /// The directory out of which old bank snapshots are purged.
    pub fn purged_bank_snapshots_dir(&self) -> (bank_snapshots_dir: &String)
        ensures
            *bank_snapshots_dir == self.snapshot_config.bank_snapshots_dir,
    {
        &self.snapshot_config.bank_snapshots_dir
    }
}

/// The one of the `waiting` requests to handle, if there is one. They stand in
/// the order they arrived in.
pub fn pick_snapshot_request<B, D>(
    waiting: Vec<SnapshotRequest<B, D>>,
    snapshot_config: &SnapshotConfig,
    last_full_snapshot_slot: Option<Slot>,
) -> (picked: Result<Option<ClassifiedRequest<B, D>>, PickError>)
    ensures
        picked_from(waiting@, *snapshot_config, last_full_snapshot_slot, picked),
{
    if !are_classifiable(&waiting, snapshot_config) {
        Err(PickError::ZeroSnapshotInterval)
    } else if has_epoch_accounts_hash_conflict(&waiting) {
        Err(PickError::EpochAccountsHashConflict)
    } else {
        Ok(select_snapshot_request(waiting, snapshot_config, last_full_snapshot_slot))
    }
}

/// Everything the background loop receives requests on.
#[verifier::reject_recursive_types(B)]
#[verifier::reject_recursive_types(D)]
pub struct AbsRequestHandlers<B, D, P> {
    pub snapshot_request_handler: SnapshotRequestHandler<B, D, P>,
    pub pruned_banks_request_handler: PrunedBanksRequestHandler,
}

impl<B, D, P> AbsRequestHandlers<B, D, P> {
    /// Takes every snapshot request that is waiting and returns the one to handle, if
    /// there is one.
    pub fn handle_snapshot_requests(&self, last_full_snapshot_slot: Option<Slot>) -> (picked: Result<
        Option<ClassifiedRequest<B, D>>,
        PickError,
    >)
        ensures
            exists|waiting: Vec<SnapshotRequest<B, D>>| #[trigger]
                requests_taken(
                    self.snapshot_request_handler.snapshot_request_receiver,
                    waiting,
                ) && picked_from(
                    waiting@,
                    self.snapshot_request_handler.snapshot_config,
                    last_full_snapshot_slot,
                    picked,
                ),
    {
        self.snapshot_request_handler.handle_snapshot_requests(last_full_snapshot_slot)
    }
}

/// The side on which snapshot requests are made. Without a sender, nobody handles
/// them, and none is made.
#[verifier::reject_recursive_types(B)]
#[verifier::reject_recursive_types(D)]
pub struct AbsRequestSender<B, D> {
    snapshot_request_sender: Option<SnapshotRequestSender<B, D>>,
}

impl<B, D> View for AbsRequestSender<B, D> {
    type V = Option<SnapshotRequestSender<B, D>>;

    closed spec fn view(&self) -> Option<SnapshotRequestSender<B, D>> {
        self.snapshot_request_sender
    }
}

impl<B, D> AbsRequestSender<B, D> {
    pub fn new(snapshot_request_sender: SnapshotRequestSender<B, D>) -> (sender: Self)
        ensures
            sender@ == Some(snapshot_request_sender),
    {
        AbsRequestSender { snapshot_request_sender: Some(snapshot_request_sender) }
    }

    pub fn is_snapshot_creation_enabled(&self) -> (enabled: bool)
        ensures
            enabled == self@ is Some,
    {
        self.snapshot_request_sender.is_some()
    }

    /// Sends `snapshot_request`, if snapshot creation is enabled, and returns what
    /// came of that. It comes back when no handler is left to receive it.
    pub fn send_snapshot_request(&self, snapshot_request: SnapshotRequest<B, D>) -> (sent: Result<
        (),
        SendError<SnapshotRequest<B, D>>,
    >)
        ensures
            match self@ {
                Some(snapshot_request_sender) => request_sent(
                    snapshot_request_sender,
                    snapshot_request,
                    match sent {
                        Ok(done) => Ok(done),
                        Err(error) => Err(error.0),
                    },
                ),
                None => sent is Ok,
            },
            sent matches Err(error) ==> error.0 == snapshot_request,
    {
        match &self.snapshot_request_sender {
            Some(snapshot_request_sender) => {
                let ghost request = snapshot_request;
                let sent = send_request(snapshot_request_sender, snapshot_request);
                proof {
                    lemma_request_sent(*snapshot_request_sender, request, sent);
                }
                match sent {
                    Ok(done) => Ok(done),
                    Err(returned) => Err(SendError(returned)),
                }
            },
            None => Ok(()),
        }
    }
}

impl<B, D> Default for AbsRequestSender<B, D> {
    fn default() -> (sender: Self)
        ensures
            sender@ is None,
    {
        AbsRequestSender { snapshot_request_sender: None }
    }
}

impl<B, D> Clone for AbsRequestSender<B, D> {
    fn clone(&self) -> (other: Self)
        ensures
            other@ == self@,
    {
        let snapshot_request_sender = match &self.snapshot_request_sender {
            Some(sender) => Some(another_sender(sender)),
            None => None,
        };
        AbsRequestSender { snapshot_request_sender }
    }
}

/// A full snapshot becomes the last one; any other package leaves the last one.
pub proof fn law_only_a_full_snapshot_becomes_the_last_one(
    accounts_package_type: AccountsPackageType,
    slot: Slot,
    before: Option<Slot>,
)
    ensures
        last_full_after(
            AccountsPackageType::Snapshot(SnapshotType::FullSnapshot),
            slot,
            before,
        ) == Some(slot),
        accounts_package_type != AccountsPackageType::Snapshot(SnapshotType::FullSnapshot)
            ==> last_full_after(accounts_package_type, slot, before) == before,
{
}

/// When picking succeeds, and what comes of it. Nothing is picked exactly when
/// nothing is waiting. Two requests for an epoch accounts hash cannot be picked
/// from. Where no interval is zero and at most one epoch accounts hash is asked for,
/// one of the waiting requests is picked, with the package that it becomes.
pub proof fn law_picking<B, D>(
    waiting: Seq<SnapshotRequest<B, D>>,
    config: SnapshotConfig,
    last_full_snapshot_slot: Option<Slot>,
    picked: Result<Option<ClassifiedRequest<B, D>>, PickError>,
)
    requires
        picked_from(waiting, config, last_full_snapshot_slot, picked),
    ensures
        picked matches Ok(None) <==> waiting.len() == 0,
        picked matches Ok(Some(request)) ==> waiting.contains(request.0) && request.1
            == request_package_type(request.0, config, last_full_snapshot_slot),
        picked matches Err(PickError::ZeroSnapshotInterval) ==> exists|i: int|
            0 <= i < waiting.len() && (#[trigger] waiting[i]).request_type is Snapshot && (
            config.full_snapshot_archive_interval_slots == 0
                || config.incremental_snapshot_archive_interval_slots == 0),
        picked matches Err(PickError::EpochAccountsHashConflict) ==> exists|i: int, j: int|
            0 <= i < j < waiting.len() && (#[trigger] waiting[i]).request_type is EpochAccountsHash
                && (#[trigger] waiting[j]).request_type is EpochAccountsHash,
        (exists|i: int, j: int|
            0 <= i < j < waiting.len() && (#[trigger] waiting[i]).request_type is EpochAccountsHash
                && (#[trigger] waiting[j]).request_type is EpochAccountsHash) ==> picked is Err,
        config.full_snapshot_archive_interval_slots == 0 && (exists|i: int|
            0 <= i < waiting.len() && (#[trigger] waiting[i]).request_type is Snapshot)
            ==> picked == Err::<Option<ClassifiedRequest<B, D>>, PickError>(
            PickError::ZeroSnapshotInterval,
        ),
{
    if let Ok(Some(request)) = picked {
        let i = choose|i: int| #[trigger]
            is_selected(waiting, config, last_full_snapshot_slot, i) && request == classified(
                waiting,
                config,
                last_full_snapshot_slot,
                i,
            );
        assert(waiting[i] == request.0);
    }
    if picked matches Err(PickError::ZeroSnapshotInterval) {
        let i = choose|i: int|
            0 <= i < waiting.len() && !can_classify(#[trigger] waiting[i], config);
        law_which_requests_can_be_classified(waiting[i], config);
    }
}

/// No request that handling takes out of the channel is lost: where it took any,
/// one is picked or the picking failed, and none of those it took comes before the
/// one that is picked. `before` and `after` are the record of what was taken.
pub proof fn law_no_request_taken_is_lost<B, D>(
    before: Seq<Seq<SnapshotRequest<B, D>>>,
    after: Seq<Seq<SnapshotRequest<B, D>>>,
    config: SnapshotConfig,
    last_full_snapshot_slot: Option<Slot>,
    picked: Result<Option<ClassifiedRequest<B, D>>, PickError>,
    batch: int,
    i: int,
)
    requires
        after.len() == before.len() + 1,
        after.drop_last() == before,
        picked_from(after.last(), config, last_full_snapshot_slot, picked),
        before.len() <= batch < after.len(),
        0 <= i < after[batch].len(),
    ensures
        !(picked matches Ok(None)),
        picked matches Ok(Some(request)) ==> {
            let taken = after[batch][i];
            let package = request_package_type(taken, config, last_full_snapshot_slot);
            &&& after.last().contains(request.0)
            &&& package is EpochAccountsHash ==> request.1 is EpochAccountsHash
            &&& package == AccountsPackageType::Snapshot(SnapshotType::FullSnapshot) ==> {
                ||| request.1 is EpochAccountsHash
                ||| request.1 == package
            }
            &&& package is Snapshot ==> !(request.1 is AccountsHashVerifier)
            &&& package == request.1 && !(package is EpochAccountsHash)
                ==> taken.snapshot_root_bank.slot <= request.0.snapshot_root_bank.slot
        },
{
    law_picking(after.last(), config, last_full_snapshot_slot, picked);
    if let Ok(Some(request)) = picked {
        let at = choose|at: int| #[trigger]
            is_selected(after.last(), config, last_full_snapshot_slot, at) && request
                == classified(after.last(), config, last_full_snapshot_slot, at);
        law_nothing_comes_before_the_selected(
            after.last(),
            config,
            last_full_snapshot_slot,
            at,
            i,
        );
    }
}

} // verus!
