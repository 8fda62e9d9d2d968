//! What can go wrong while a snapshot is taken.

use crate::bank::Slot;
use vstd::prelude::*;

verus! {

/// Why taking a snapshot failed. Causes that come from elsewhere are kept as
/// their message.
#[derive(Debug)]
pub enum SnapshotError {
    Io(String),
    Serialize(String),
    ArchiveGenerationFailure(String),
    StoragePathSymlinkInvalid,
    UnpackError(String),
    IoWithSource(String, String),
    PathToFileNameError(String),
    FileNameToStrError(String),
    ParseSnapshotArchiveFileNameError(String),
    MismatchedBaseSlot(Slot, Slot),
    NoSnapshotArchives,
    MismatchedSlotHash(String),
    VerifySlotDeltas(String),
}

/// Whether the node has to shut down over `err`. Every error is listed, so that
/// a new one cannot be added without deciding about it.
pub open spec fn is_fatal(err: SnapshotError) -> bool {
    match err {
        SnapshotError::Io(_) => true,
        SnapshotError::Serialize(_) => true,
        SnapshotError::ArchiveGenerationFailure(_) => true,
        SnapshotError::StoragePathSymlinkInvalid => true,
        SnapshotError::UnpackError(_) => true,
        SnapshotError::IoWithSource(_, _) => true,
        SnapshotError::PathToFileNameError(_) => true,
        SnapshotError::FileNameToStrError(_) => true,
        SnapshotError::ParseSnapshotArchiveFileNameError(_) => true,
        SnapshotError::MismatchedBaseSlot(_, _) => true,
        SnapshotError::NoSnapshotArchives => true,
        SnapshotError::MismatchedSlotHash(_) => true,
        SnapshotError::VerifySlotDeltas(_) => true,
    }
}

/// Check if a SnapshotError should be treated as 'fatal' while a request is
/// handled. Fatal errors will cause the node to shutdown. Non-fatal errors are
/// swallowed.
pub fn is_snapshot_error_fatal(err: &SnapshotError) -> (fatal: bool)
    ensures
        fatal == is_fatal(*err),
{
    match err {
        SnapshotError::Io(..) => true,
        SnapshotError::Serialize(..) => true,
        SnapshotError::ArchiveGenerationFailure(..) => true,
        SnapshotError::StoragePathSymlinkInvalid => true,
        SnapshotError::UnpackError(..) => true,
        SnapshotError::IoWithSource(..) => true,
        SnapshotError::PathToFileNameError(..) => true,
        SnapshotError::FileNameToStrError(..) => true,
        SnapshotError::ParseSnapshotArchiveFileNameError(..) => true,
        SnapshotError::MismatchedBaseSlot(..) => true,
        SnapshotError::NoSnapshotArchives => true,
        SnapshotError::MismatchedSlotHash(..) => true,
        SnapshotError::VerifySlotDeltas(..) => true,
    }
}

/// No error is survived: whichever comes up, the node shuts down.
pub proof fn law_every_snapshot_error_is_fatal(err: SnapshotError)
    ensures
        is_fatal(err),
{
}

} // verus!
