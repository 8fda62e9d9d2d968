//! The kinds of accounts package, and when a snapshot is due.

use crate::bank::Slot;
use vstd::prelude::*;

verus! {

/// The kinds of snapshot. An incremental snapshot builds on the full snapshot
/// taken at the slot it holds.
#[derive(Clone, Copy, Debug, PartialEq, Eq, Structural)]
pub enum SnapshotType {
    FullSnapshot,
    IncrementalSnapshot(Slot),
}

/// What is made of a snapshot request once it is handled.
#[derive(Clone, Copy, Debug, PartialEq, Eq, Structural)]
pub enum AccountsPackageType {
    AccountsHashVerifier,
    Snapshot(SnapshotType),
    EpochAccountsHash,
}

/// How often snapshots are taken, and where and how they are stored.
pub struct SnapshotConfig {
    /// A full snapshot is due at every multiple of this block height.
    pub full_snapshot_archive_interval_slots: Slot,
    /// An incremental snapshot is due at every multiple of this block height.
    pub incremental_snapshot_archive_interval_slots: Slot,
    pub full_snapshot_archives_dir: String,
    pub incremental_snapshot_archives_dir: String,
    pub bank_snapshots_dir: String,
    pub archive_format: String,
    pub snapshot_version: String,
}

/// Whether `block_height` is a multiple of the full snapshot interval.
pub fn should_take_full_snapshot(
    block_height: u64,
    full_snapshot_archive_interval_slots: Slot,
) -> (due: bool)
    requires
        full_snapshot_archive_interval_slots != 0,
    ensures
        due == (block_height as int % full_snapshot_archive_interval_slots as int == 0),
{
    block_height % full_snapshot_archive_interval_slots == 0
}

/// Whether `block_height` is a multiple of the incremental snapshot interval and
/// there is a full snapshot to build on.
pub fn should_take_incremental_snapshot(
    block_height: u64,
    incremental_snapshot_archive_interval_slots: Slot,
    last_full_snapshot_slot: Option<Slot>,
) -> (due: bool)
    requires
        incremental_snapshot_archive_interval_slots != 0,
    ensures
        due == (block_height as int % incremental_snapshot_archive_interval_slots as int == 0
            && last_full_snapshot_slot is Some),
{
    block_height % incremental_snapshot_archive_interval_slots == 0
        && last_full_snapshot_slot.is_some()
}

} // verus!
