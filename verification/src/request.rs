//! Snapshot requests: how each is classified, how they are ordered, and which of
//! several waiting requests is handled.

use crate::bank::{Bank, Slot};
use crate::package::{
    should_take_full_snapshot, should_take_incremental_snapshot, AccountsPackageType,
    SnapshotConfig, SnapshotType,
};
use std::sync::Arc;
use vstd::prelude::*;

verus! {

/// What type of request is this?
///
/// Not every request asks for a snapshot: the hash over all accounts that is due
/// once per epoch is asked for in the same way.
#[derive(Clone, Copy, Debug, PartialEq, Eq, Structural)]
pub enum SnapshotRequestType {
    Snapshot,
    EpochAccountsHash,
}

/// Asks the service to handle a rooted bank. The slot deltas of the status cache
/// go into the snapshot as they are.
pub struct SnapshotRequest<B, D> {
    pub snapshot_root_bank: Arc<Bank<B>>,
    pub status_cache_slot_deltas: Vec<D>,
    pub request_type: SnapshotRequestType,
}

/// A request together with what is to be made of it.
pub type ClassifiedRequest<B, D> = (SnapshotRequest<B, D>, AccountsPackageType);

/// The package for a request of type `request_type`, where `full_due` and
/// `incremental_due` say which snapshots are due at its bank. A full snapshot
/// comes before an incremental one, which builds on the last full one.
pub open spec fn package_type(
    request_type: SnapshotRequestType,
    full_due: bool,
    incremental_due: bool,
    last_full_snapshot_slot: Option<Slot>,
) -> AccountsPackageType {
    if request_type is EpochAccountsHash {
        AccountsPackageType::EpochAccountsHash
    } else if full_due {
        AccountsPackageType::Snapshot(SnapshotType::FullSnapshot)
    } else if incremental_due {
        AccountsPackageType::Snapshot(
            SnapshotType::IncrementalSnapshot(last_full_snapshot_slot->0),
        )
    } else {
        AccountsPackageType::AccountsHashVerifier
    }
}

/// `height` is a multiple of `interval`.
pub open spec fn on_interval(height: u64, interval: Slot) -> bool {
    height as int % interval as int == 0
}

/// The package for `request` under `config`.
pub open spec fn request_package_type<B, D>(
    request: SnapshotRequest<B, D>,
    config: SnapshotConfig,
    last_full_snapshot_slot: Option<Slot>,
) -> AccountsPackageType {
    let height = request.snapshot_root_bank.block_height;
    package_type(
        request.request_type,
        on_interval(height, config.full_snapshot_archive_interval_slots),
        on_interval(height, config.incremental_snapshot_archive_interval_slots)
            && last_full_snapshot_slot is Some,
        last_full_snapshot_slot,
    )
}

/// No interval that is looked at for `request` is zero. The intervals matter to
/// snapshots only, and the incremental one only where no full snapshot is due.
pub open spec fn can_classify<B, D>(
    request: SnapshotRequest<B, D>,
    config: SnapshotConfig,
) -> bool {
    request.request_type is Snapshot ==> {
        &&& config.full_snapshot_archive_interval_slots != 0
        &&& config.incremental_snapshot_archive_interval_slots != 0 || on_interval(
            request.snapshot_root_bank.block_height,
            config.full_snapshot_archive_interval_slots,
        )
    }
}

/// Whether no interval that is looked at for `request` is zero.
fn is_classifiable<B, D>(request: &SnapshotRequest<B, D>, config: &SnapshotConfig) -> (can: bool)
    ensures
        can == can_classify(*request, *config),
{
    match request.request_type {
        SnapshotRequestType::EpochAccountsHash => true,
        SnapshotRequestType::Snapshot => {
            config.full_snapshot_archive_interval_slots != 0 && (
            config.incremental_snapshot_archive_interval_slots != 0 || should_take_full_snapshot(
                request.snapshot_root_bank.block_height,
                config.full_snapshot_archive_interval_slots,
            ))
        },
    }
}

/// `can_classify`, for all of `requests`.
pub open spec fn can_classify_all<B, D>(
    requests: Seq<SnapshotRequest<B, D>>,
    config: SnapshotConfig,
) -> bool {
    forall|i: int| 0 <= i < requests.len() ==> can_classify(#[trigger] requests[i], config)
}

/// Whether no interval that is looked at for any of `requests` is zero.
pub fn are_classifiable<B, D>(
    requests: &Vec<SnapshotRequest<B, D>>,
    config: &SnapshotConfig,
) -> (can: bool)
    ensures
        can == can_classify_all(requests@, *config),
{
    let mut i: usize = 0;
    while i < requests.len()
        invariant
            i <= requests.len(),
            forall|j: int| 0 <= j < i ==> can_classify(#[trigger] requests@[j], *config),
        decreases requests.len() - i,
    {
        if !is_classifiable(&requests[i], config) {
            assert(!can_classify(requests@[i as int], *config));
            return false;
        }
        i += 1;
    }
    true
}

/// Get the AccountsPackageType from a given SnapshotRequest
#[must_use]
pub fn new_accounts_package_type<B, D>(
    snapshot_request: &SnapshotRequest<B, D>,
    snapshot_config: &SnapshotConfig,
    last_full_snapshot_slot: Option<Slot>,
) -> (accounts_package_type: AccountsPackageType)
    requires
        can_classify(*snapshot_request, *snapshot_config),
    ensures
        accounts_package_type == request_package_type(
            *snapshot_request,
            *snapshot_config,
            last_full_snapshot_slot,
        ),
{
    let block_height: u64 = snapshot_request.snapshot_root_bank.block_height;
    let is_snapshot = snapshot_request.request_type == SnapshotRequestType::Snapshot;
    let full_due = is_snapshot && should_take_full_snapshot(
        block_height,
        snapshot_config.full_snapshot_archive_interval_slots,
    );
    let incremental_due = is_snapshot && !full_due && should_take_incremental_snapshot(
        block_height,
        snapshot_config.incremental_snapshot_archive_interval_slots,
        last_full_snapshot_slot,
    );
    accounts_package_type_when_due(
        snapshot_request.request_type,
        full_due,
        incremental_due,
        last_full_snapshot_slot,
    )
}

/// The package for a request, once it is known which snapshots are due. An
/// incremental one can only be due on top of a full one.
pub fn accounts_package_type_when_due(
    request_type: SnapshotRequestType,
    full_due: bool,
    incremental_due: bool,
    last_full_snapshot_slot: Option<Slot>,
) -> (accounts_package_type: AccountsPackageType)
    requires
        request_type is Snapshot && !full_due && incremental_due ==> last_full_snapshot_slot
            is Some,
    ensures
        accounts_package_type == package_type(
            request_type,
            full_due,
            incremental_due,
            last_full_snapshot_slot,
        ),
{
    match request_type {
        SnapshotRequestType::EpochAccountsHash => AccountsPackageType::EpochAccountsHash,
        SnapshotRequestType::Snapshot => {
            if full_due {
                AccountsPackageType::Snapshot(SnapshotType::FullSnapshot)
            } else if incremental_due {
                AccountsPackageType::Snapshot(
                    SnapshotType::IncrementalSnapshot(last_full_snapshot_slot.unwrap()),
                )
            } else {
                AccountsPackageType::AccountsHashVerifier
            }
        },
    }
}

/// Priority among the kinds of package, the highest number first.
pub open spec fn package_rank(accounts_package_type: AccountsPackageType) -> int {
    match accounts_package_type {
        AccountsPackageType::EpochAccountsHash => 3,
        AccountsPackageType::Snapshot(SnapshotType::FullSnapshot) => 2,
        AccountsPackageType::Snapshot(SnapshotType::IncrementalSnapshot(_)) => 1,
        AccountsPackageType::AccountsHashVerifier => 0,
    }
}

/// The slot that an incremental snapshot builds on; zero for anything else.
pub open spec fn base_slot(accounts_package_type: AccountsPackageType) -> int {
    match accounts_package_type {
        AccountsPackageType::Snapshot(SnapshotType::IncrementalSnapshot(base)) => base as int,
        _ => 0,
    }
}

/// `a` has lower priority than `b`: by the kind of package, then by the bank's
/// slot, then by the slot an incremental snapshot builds on.
pub open spec fn lower_priority<B, D>(
    a: ClassifiedRequest<B, D>,
    b: ClassifiedRequest<B, D>,
) -> bool {
    let (rank_a, rank_b) = (package_rank(a.1), package_rank(b.1));
    let (slot_a, slot_b) = (a.0.snapshot_root_bank.slot, b.0.snapshot_root_bank.slot);
    ||| rank_a < rank_b
    ||| rank_a == rank_b && slot_a < slot_b
    ||| rank_a == rank_b && slot_a == slot_b && base_slot(a.1) < base_slot(b.1)
}

/// Two epoch accounts hash requests have no order: only one is allowed at a time.
pub open spec fn comparable<B, D>(
    a: ClassifiedRequest<B, D>,
    b: ClassifiedRequest<B, D>,
) -> bool {
    !(a.1 is EpochAccountsHash && b.1 is EpochAccountsHash)
}

/// How two slots are ordered.
fn cmp_slots(a: Slot, b: Slot) -> (order: std::cmp::Ordering)
    ensures
        order == std::cmp::Ordering::Less <==> a < b,
        order == std::cmp::Ordering::Greater <==> a > b,
{
    if a < b {
        std::cmp::Ordering::Less
    } else if a > b {
        std::cmp::Ordering::Greater
    } else {
        std::cmp::Ordering::Equal
    }
}

/// Compare snapshot requests; used to pick the highest priority request to handle.
///
/// Priority, from highest to lowest:
/// - Epoch Accounts Hash
/// - Full Snapshot
/// - Incremental Snapshot
/// - Accounts Hash Verifier
///
/// If two snapshots of the same type are being compared, their bank slots are tiebreakers.
#[must_use]
pub fn cmp_snapshot_requests<B, D>(
    a: &ClassifiedRequest<B, D>,
    b: &ClassifiedRequest<B, D>,
) -> (order: std::cmp::Ordering)
    requires
        comparable(*a, *b),
    ensures
        order == std::cmp::Ordering::Less <==> lower_priority(*a, *b),
        order == std::cmp::Ordering::Greater <==> lower_priority(*b, *a),
{
    let slot_a: Slot = a.0.snapshot_root_bank.slot;
    let slot_b: Slot = b.0.snapshot_root_bank.slot;
    match (a.1, b.1) {
        // Epoch Accounts Hash packages
        (AccountsPackageType::EpochAccountsHash, _) => std::cmp::Ordering::Greater,
        (_, AccountsPackageType::EpochAccountsHash) => std::cmp::Ordering::Less,
        // Snapshot packages
        (
            AccountsPackageType::Snapshot(snapshot_type_a),
            AccountsPackageType::Snapshot(snapshot_type_b),
        ) => {
            match (snapshot_type_a, snapshot_type_b) {
                (SnapshotType::FullSnapshot, SnapshotType::FullSnapshot) => cmp_slots(
                    slot_a,
                    slot_b,
                ),
                (
                    SnapshotType::FullSnapshot,
                    SnapshotType::IncrementalSnapshot(_),
                ) => std::cmp::Ordering::Greater,
                (
                    SnapshotType::IncrementalSnapshot(_),
                    SnapshotType::FullSnapshot,
                ) => std::cmp::Ordering::Less,
                (
                    SnapshotType::IncrementalSnapshot(base_slot_a),
                    SnapshotType::IncrementalSnapshot(base_slot_b),
                ) => {
                    if slot_a == slot_b {
                        cmp_slots(base_slot_a, base_slot_b)
                    } else {
                        cmp_slots(slot_a, slot_b)
                    }
                },
            }
        },
        (AccountsPackageType::Snapshot(_), _) => std::cmp::Ordering::Greater,
        (_, AccountsPackageType::Snapshot(_)) => std::cmp::Ordering::Less,
        // Accounts Hash Verifier packages
        (
            AccountsPackageType::AccountsHashVerifier,
            AccountsPackageType::AccountsHashVerifier,
        ) => cmp_slots(slot_a, slot_b),
    }
}

/// The request at `i`, classified.
pub open spec fn classified<B, D>(
    requests: Seq<SnapshotRequest<B, D>>,
    config: SnapshotConfig,
    last_full_snapshot_slot: Option<Slot>,
    i: int,
) -> ClassifiedRequest<B, D> {
    (requests[i], request_package_type(requests[i], config, last_full_snapshot_slot))
}

/// More than one of `requests` asks for an epoch accounts hash.
pub open spec fn epoch_accounts_hash_conflict<B, D>(requests: Seq<SnapshotRequest<B, D>>) -> bool {
    exists|i: int, j: int|
        0 <= i < j < requests.len() && (#[trigger] requests[i]).request_type is EpochAccountsHash
            && (#[trigger] requests[j]).request_type is EpochAccountsHash
}

/// The request at `i` is the one to handle: none has higher priority, and of
/// those with the same priority it is the last.
pub open spec fn is_selected<B, D>(
    requests: Seq<SnapshotRequest<B, D>>,
    config: SnapshotConfig,
    last_full_snapshot_slot: Option<Slot>,
    i: int,
) -> bool {
    let chosen = classified(requests, config, last_full_snapshot_slot, i);
    &&& 0 <= i < requests.len()
    &&& forall|j: int|
        0 <= j < requests.len() ==> !lower_priority(
            chosen,
            #[trigger] classified(requests, config, last_full_snapshot_slot, j),
        )
    &&& forall|j: int|
        i < j < requests.len() ==> lower_priority(
            #[trigger] classified(requests, config, last_full_snapshot_slot, j),
            chosen,
        )
}

/// Whether more than one of `requests` asks for an epoch accounts hash.
pub fn has_epoch_accounts_hash_conflict<B, D>(requests: &Vec<SnapshotRequest<B, D>>) -> (conflict:
    bool)
    ensures
        conflict == epoch_accounts_hash_conflict(requests@),
{
    let mut first: Option<usize> = None;
    let mut i: usize = 0;
    while i < requests.len()
        invariant
            i <= requests.len(),
            match first {
                Some(k) => k < i && requests@[k as int].request_type is EpochAccountsHash,
                None => true,
            },
            forall|j: int|
                0 <= j < i && (#[trigger] requests@[j]).request_type is EpochAccountsHash ==> first
                    == Some(j as usize),
        decreases requests.len() - i,
    {
        if requests[i].request_type == SnapshotRequestType::EpochAccountsHash {
            if first.is_some() {
                assert(requests@[first->0 as int].request_type is EpochAccountsHash);
                return true;
            }
            first = Some(i);
        }
        i += 1;
    }
    false
}

/// Whether handling `challenger` comes before handling `best`, given that it
/// arrived later.
fn takes_over<B, D>(best: &ClassifiedRequest<B, D>, challenger: &ClassifiedRequest<B, D>) -> (better:
    bool)
    requires
        comparable(*best, *challenger),
    ensures
        better == !lower_priority(*challenger, *best),
{
    match cmp_snapshot_requests(best, challenger) {
        std::cmp::Ordering::Greater => false,
        _ => true,
    }
}

/// The selection among the first `n + 1` requests, given the one among the first `n`.
proof fn lemma_selection_grows<B, D>(
    all: Seq<SnapshotRequest<B, D>>,
    config: SnapshotConfig,
    last_full: Option<Slot>,
    n: int,
    at: int,
)
    requires
        0 <= n < all.len(),
        is_selected(all.take(n), config, last_full, at),
    ensures
        ({
            let at_wins = lower_priority(
                classified(all, config, last_full, n),
                classified(all, config, last_full, at),
            );
            is_selected(
                all.take(n + 1),
                config,
                last_full,
                if at_wins {
                    at
                } else {
                    n
                },
            )
        }),
{
    let (before, after) = (all.take(n), all.take(n + 1));
    assert forall|j: int| 0 <= j < n implies #[trigger] classified(after, config, last_full, j)
        == classified(before, config, last_full, j) by {};
    assert(classified(after, config, last_full, n) == classified(all, config, last_full, n));
    assert(classified(before, config, last_full, at) == classified(all, config, last_full, at));
    if lower_priority(
        classified(all, config, last_full, n),
        classified(all, config, last_full, at),
    ) {
        assert(is_selected(after, config, last_full, at));
    } else {
        assert forall|j: int| 0 <= j < after.len() implies !lower_priority(
            classified(after, config, last_full, n),
            #[trigger] classified(after, config, last_full, j),
        ) by {
            if j < n {
                assert(!lower_priority(
                    classified(before, config, last_full, at),
                    classified(before, config, last_full, j),
                ));
            }
        }
        assert(is_selected(after, config, last_full, n));
    }
}

/// Picks the request to handle out of `requests`, which stand in the order they
/// arrived in; `None` if there is none.
pub fn select_snapshot_request<B, D>(
    requests: Vec<SnapshotRequest<B, D>>,
    snapshot_config: &SnapshotConfig,
    last_full_snapshot_slot: Option<Slot>,
) -> (selected: Option<ClassifiedRequest<B, D>>)
    requires
        can_classify_all(requests@, *snapshot_config),
        !epoch_accounts_hash_conflict(requests@),
    ensures
        selected is None <==> requests@.len() == 0,
        selected matches Some(chosen) ==> exists|i: int| #[trigger]
            is_selected(requests@, *snapshot_config, last_full_snapshot_slot, i) && chosen
                == classified(requests@, *snapshot_config, last_full_snapshot_slot, i),
{
    let ghost all = requests@;
    let ghost config = *snapshot_config;
    let ghost mut at: int = 0;
    let mut best: Option<ClassifiedRequest<B, D>> = None;
    for request in iter: requests.into_iter()
        invariant
            iter.seq() == all,
            config == *snapshot_config,
            can_classify_all(all, config),
            !epoch_accounts_hash_conflict(all),
            best is None <==> iter.index() == 0,
            best matches Some(chosen) ==> {
                &&& is_selected(all.take(iter.index()), config, last_full_snapshot_slot, at)
                &&& chosen == classified(all, config, last_full_snapshot_slot, at)
            },
    {
        let accounts_package_type = new_accounts_package_type(
            &request,
            snapshot_config,
            last_full_snapshot_slot,
        );
        let challenger = (request, accounts_package_type);
        proof {
            let n = iter.index();
            if n == 0 {
                at = 0;
                assert(is_selected(all.take(1), config, last_full_snapshot_slot, 0));
            } else {
                lemma_selection_grows(all, config, last_full_snapshot_slot, n, at);
                if !lower_priority(
                    classified(all, config, last_full_snapshot_slot, n),
                    classified(all, config, last_full_snapshot_slot, at),
                ) {
                    at = n;
                }
            }
        }
        best = match best {
            None => Some(challenger),
            Some(chosen) => {
                if takes_over(&chosen, &challenger) {
                    Some(challenger)
                } else {
                    Some(chosen)
                }
            },
        };
    }
    assert(all.take(all.len() as int) =~= all);
    best
}

/// "Has lower priority" is a strict weak order: nothing is below itself, of two
/// requests at most one is below the other, and both "below" and "not below"
/// carry over.
pub proof fn law_priority_is_an_order<B, D>(
    a: ClassifiedRequest<B, D>,
    b: ClassifiedRequest<B, D>,
    c: ClassifiedRequest<B, D>,
)
    ensures
        !lower_priority(a, a),
        lower_priority(a, b) ==> !lower_priority(b, a),
        lower_priority(a, b) && lower_priority(b, c) ==> lower_priority(a, c),
        !lower_priority(a, b) && !lower_priority(b, c) ==> !lower_priority(a, c),
{
}

/// Two requests have the same priority exactly when they are to become the same
/// package, of the same slot.
pub proof fn law_same_priority_means_same_package<B, D>(
    a: ClassifiedRequest<B, D>,
    b: ClassifiedRequest<B, D>,
)
    ensures
        !lower_priority(a, b) && !lower_priority(b, a) <==> a.1 == b.1
            && a.0.snapshot_root_bank.slot == b.0.snapshot_root_bank.slot,
{
}

/// Whatever the slots: an epoch accounts hash comes before a full snapshot, that
/// before an incremental one, and that before an accounts hash verification.
pub proof fn law_kind_of_package_decides_first<B, D>(
    epoch: ClassifiedRequest<B, D>,
    full: ClassifiedRequest<B, D>,
    incremental: ClassifiedRequest<B, D>,
    verifier: ClassifiedRequest<B, D>,
)
    requires
        epoch.1 is EpochAccountsHash,
        full.1 == AccountsPackageType::Snapshot(SnapshotType::FullSnapshot),
        incremental.1 matches AccountsPackageType::Snapshot(SnapshotType::IncrementalSnapshot(_)),
        verifier.1 is AccountsHashVerifier,
    ensures
        lower_priority(full, epoch),
        lower_priority(incremental, full),
        lower_priority(verifier, incremental),
{
}

/// At most one request is the one to handle.
pub proof fn law_selection_is_unique<B, D>(
    requests: Seq<SnapshotRequest<B, D>>,
    config: SnapshotConfig,
    last_full_snapshot_slot: Option<Slot>,
    i: int,
    j: int,
)
    requires
        is_selected(requests, config, last_full_snapshot_slot, i),
        is_selected(requests, config, last_full_snapshot_slot, j),
    ensures
        i == j,
{
    let a = classified(requests, config, last_full_snapshot_slot, i);
    let b = classified(requests, config, last_full_snapshot_slot, j);
    assert(!lower_priority(a, b) && !lower_priority(b, a));
}

/// If an epoch accounts hash is asked for, that request is handled.
pub proof fn law_epoch_accounts_hash_is_selected<B, D>(
    requests: Seq<SnapshotRequest<B, D>>,
    config: SnapshotConfig,
    last_full_snapshot_slot: Option<Slot>,
    i: int,
    epoch: int,
)
    requires
        is_selected(requests, config, last_full_snapshot_slot, i),
        !epoch_accounts_hash_conflict(requests),
        0 <= epoch < requests.len(),
        requests[epoch].request_type is EpochAccountsHash,
    ensures
        i == epoch,
{
    assert(!lower_priority(
        classified(requests, config, last_full_snapshot_slot, i),
        classified(requests, config, last_full_snapshot_slot, epoch),
    ));
    assert(requests[i].request_type is EpochAccountsHash);
}

/// Of all requests that are to become the same kind of package as the one
/// handled, none has a later slot.
pub proof fn law_latest_slot_is_selected<B, D>(
    requests: Seq<SnapshotRequest<B, D>>,
    config: SnapshotConfig,
    last_full_snapshot_slot: Option<Slot>,
    i: int,
    other: int,
)
    requires
        is_selected(requests, config, last_full_snapshot_slot, i),
        0 <= other < requests.len(),
        package_rank(classified(requests, config, last_full_snapshot_slot, other).1)
            == package_rank(classified(requests, config, last_full_snapshot_slot, i).1),
    ensures
        requests[other].snapshot_root_bank.slot <= requests[i].snapshot_root_bank.slot,
{
    assert(!lower_priority(
        classified(requests, config, last_full_snapshot_slot, i),
        classified(requests, config, last_full_snapshot_slot, other),
    ));
}

/// An epoch accounts hash package is made of exactly the requests that ask for
/// one, and an incremental snapshot builds on the last full snapshot: without
/// one, none is taken.
pub proof fn law_package_follows_request<B, D>(
    request: SnapshotRequest<B, D>,
    config: SnapshotConfig,
    last_full_snapshot_slot: Option<Slot>,
)
    ensures
        request_package_type(request, config, last_full_snapshot_slot) is EpochAccountsHash
            <==> request.request_type is EpochAccountsHash,
        request_package_type(request, config, last_full_snapshot_slot) matches AccountsPackageType::Snapshot(
            SnapshotType::IncrementalSnapshot(base),
        ) ==> last_full_snapshot_slot == Some(base),
{
}

/// What a request for a snapshot becomes, by the block height of its bank: a full
/// snapshot exactly at the multiples of the full interval; elsewhere an incremental
/// one exactly at the multiples of the incremental interval, if there is a full one
/// to build on; and otherwise an accounts hash verification. Slots do not matter.
pub proof fn law_package_by_height_and_intervals<B, D>(
    request: SnapshotRequest<B, D>,
    config: SnapshotConfig,
    last_full_snapshot_slot: Option<Slot>,
    base: Slot,
)
    requires
        request.request_type is Snapshot,
        config.full_snapshot_archive_interval_slots != 0,
        config.incremental_snapshot_archive_interval_slots != 0
            || request.snapshot_root_bank.block_height as int
            % config.full_snapshot_archive_interval_slots as int == 0,
    ensures
        ({
            let height = request.snapshot_root_bank.block_height as int;
            let on_full = height % config.full_snapshot_archive_interval_slots as int == 0;
            let on_incremental = height % config.incremental_snapshot_archive_interval_slots as int
                == 0;
            let package = request_package_type(request, config, last_full_snapshot_slot);
            &&& package == AccountsPackageType::Snapshot(SnapshotType::FullSnapshot) <==> on_full
            &&& package == AccountsPackageType::Snapshot(SnapshotType::IncrementalSnapshot(base))
                <==> !on_full && on_incremental && last_full_snapshot_slot == Some(base)
            &&& package == AccountsPackageType::AccountsHashVerifier <==> !on_full && !(
            on_incremental && last_full_snapshot_slot is Some)
        }),
{
}

/// The same, once it is known which snapshots are due.
pub proof fn law_package_when_due(
    full_due: bool,
    incremental_due: bool,
    base: Slot,
    last_full_snapshot_slot: Option<Slot>,
)
    ensures
        package_type(SnapshotRequestType::EpochAccountsHash, full_due, incremental_due, last_full_snapshot_slot)
            == AccountsPackageType::EpochAccountsHash,
        package_type(SnapshotRequestType::Snapshot, true, incremental_due, last_full_snapshot_slot)
            == AccountsPackageType::Snapshot(SnapshotType::FullSnapshot),
        package_type(SnapshotRequestType::Snapshot, false, true, Some(base))
            == AccountsPackageType::Snapshot(SnapshotType::IncrementalSnapshot(base)),
        package_type(SnapshotRequestType::Snapshot, false, false, last_full_snapshot_slot)
            == AccountsPackageType::AccountsHashVerifier,
{
}

/// A request can be classified unless a snapshot is asked for and an interval that
/// has to be looked at is zero.
pub proof fn law_which_requests_can_be_classified<B, D>(
    request: SnapshotRequest<B, D>,
    config: SnapshotConfig,
)
    ensures
        request.request_type is EpochAccountsHash ==> can_classify(request, config),
        config.full_snapshot_archive_interval_slots != 0
            && config.incremental_snapshot_archive_interval_slots != 0 ==> can_classify(
            request,
            config,
        ),
        request.request_type is Snapshot && config.full_snapshot_archive_interval_slots == 0
            ==> !can_classify(request, config),
        request.request_type is Snapshot && config.full_snapshot_archive_interval_slots != 0
            && config.incremental_snapshot_archive_interval_slots == 0 ==> (can_classify(
            request,
            config,
        ) <==> request.snapshot_root_bank.block_height as int
            % config.full_snapshot_archive_interval_slots as int == 0),
{
}

/// Among packages of one kind the bank's slot decides, and between incremental
/// snapshots of one slot the slot they build on.
pub proof fn law_slots_break_ties<B, D>(a: ClassifiedRequest<B, D>, b: ClassifiedRequest<B, D>)
    ensures
        ({
            let (slot_a, slot_b) = (a.0.snapshot_root_bank.slot, b.0.snapshot_root_bank.slot);
            match (a.1, b.1) {
                (
                    AccountsPackageType::Snapshot(SnapshotType::FullSnapshot),
                    AccountsPackageType::Snapshot(SnapshotType::FullSnapshot),
                ) => lower_priority(a, b) <==> slot_a < slot_b,
                (
                    AccountsPackageType::Snapshot(SnapshotType::IncrementalSnapshot(base_a)),
                    AccountsPackageType::Snapshot(SnapshotType::IncrementalSnapshot(base_b)),
                ) => lower_priority(a, b) <==> slot_a < slot_b || slot_a == slot_b && base_a
                    < base_b,
                (
                    AccountsPackageType::AccountsHashVerifier,
                    AccountsPackageType::AccountsHashVerifier,
                ) => lower_priority(a, b) <==> slot_a < slot_b,
                _ => true,
            }
        }),
{
}

/// Only the comparison of two epoch accounts hash requests is left out.
pub proof fn law_only_epoch_accounts_hashes_are_not_comparable<B, D>(
    a: ClassifiedRequest<B, D>,
    b: ClassifiedRequest<B, D>,
)
    ensures
        comparable(a, b) <==> a.1 != AccountsPackageType::EpochAccountsHash || b.1
            != AccountsPackageType::EpochAccountsHash,
{
}

/// Of the waiting requests none comes before the one that is handled: where that is
/// an epoch accounts hash there is nothing to say; where it is a full snapshot, no
/// epoch accounts hash is waiting and no full snapshot of a later slot; where it is
/// an incremental one, no full snapshot is waiting either; and so on. Of equals, it
/// is the one that arrived last.
pub proof fn law_nothing_comes_before_the_selected<B, D>(
    requests: Seq<SnapshotRequest<B, D>>,
    config: SnapshotConfig,
    last_full_snapshot_slot: Option<Slot>,
    i: int,
    other: int,
)
    requires
        is_selected(requests, config, last_full_snapshot_slot, i),
        0 <= other < requests.len(),
    ensures
        0 <= i < requests.len(),
        ({
            let chosen = request_package_type(requests[i], config, last_full_snapshot_slot);
            let package = request_package_type(requests[other], config, last_full_snapshot_slot);
            let (slot, other_slot) = (
                requests[i].snapshot_root_bank.slot,
                requests[other].snapshot_root_bank.slot,
            );
            &&& package is EpochAccountsHash ==> chosen is EpochAccountsHash
            &&& package == AccountsPackageType::Snapshot(SnapshotType::FullSnapshot) ==> {
                ||| chosen is EpochAccountsHash
                ||| chosen == package && other_slot <= slot
            }
            &&& package is Snapshot ==> !(chosen is AccountsHashVerifier)
            &&& package is Snapshot && chosen == package ==> other_slot <= slot
            &&& package is AccountsHashVerifier && chosen == package ==> other_slot <= slot
            &&& package == chosen && other_slot == slot ==> other <= i
        }),
{
    let a = classified(requests, config, last_full_snapshot_slot, i);
    let b = classified(requests, config, last_full_snapshot_slot, other);
    assert(!lower_priority(a, b));
    if other > i {
        assert(lower_priority(b, a));
    }
}

} // verus!
