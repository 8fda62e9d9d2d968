//! Handling one snapshot request: which work the runtime has to do on the bank,
//! in which order, and what comes of it.

use crate::bank::{AccountsHash, Slot};
use crate::error::{is_fatal, is_snapshot_error_fatal, SnapshotError};
use crate::package::AccountsPackageType;
use crate::SHRUNKEN_ACCOUNT_PER_INTERVAL;
use vstd::prelude::*;

verus! {

/// One piece of work on the bank that is being snapshotted.
#[derive(Clone, Copy, Debug, PartialEq, Eq, Structural)]
pub enum SnapshotWork {
    UpdateAccountsHash,
    ProcessStaleSlot,
    ForceFlushAccountsCache,
    CalculateAccountsHash,
    CleanAccounts,
    ShrinkCandidateSlots,
    SnapshotBank,
    PurgeOldBankSnapshots,
}

/// A piece of work with everything that has to be passed along.
#[derive(Clone, Copy, Debug)]
pub enum SnapshotAction {
    /// Update the accounts hash of the bank. The index has to be used: the cache
    /// has not been flushed yet, and the stores do not match it.
    UpdateAccountsHash { use_index: bool, debug_verify: bool, is_startup: bool },
    /// Shrink the next stale slot.
    ProcessStaleSlot { consumed_budget: usize, budget_recovery_delta: usize },
    /// Flush every root up to and with the bank's slot.
    ForceFlushAccountsCache,
    /// Calculate the accounts hash and the capitalization from the stores.
    CalculateAccountsHash {
        use_index: bool,
        slot: Slot,
        use_bg_thread_pool: bool,
        check_hash: bool,
        store_detailed_debug_info_on_failure: bool,
    },
    /// Clean the accounts, given the slot of the last full snapshot.
    CleanAccounts { last_full_snapshot_slot: Option<Slot> },
    /// Shrink the candidate slots.
    ShrinkCandidateSlots,
    /// Snapshot the bank and send over an accounts package.
    SnapshotBank { hash_for_testing: Option<AccountsHash>, accounts_package_type: AccountsPackageType },
    /// Clean up outdated bank snapshots.
    PurgeOldBankSnapshots,
}

/// Where `work` stands in the order of all work.
pub open spec fn position(work: SnapshotWork) -> int {
    match work {
        SnapshotWork::UpdateAccountsHash => 0,
        SnapshotWork::ProcessStaleSlot => 1,
        SnapshotWork::ForceFlushAccountsCache => 2,
        SnapshotWork::CalculateAccountsHash => 3,
        SnapshotWork::CleanAccounts => 4,
        SnapshotWork::ShrinkCandidateSlots => 5,
        SnapshotWork::SnapshotBank => 6,
        SnapshotWork::PurgeOldBankSnapshots => 7,
    }
}

/// Whether `work` has to be done at all. The hash is updated and calculated only
/// when it is to be tested; the cache is flushed, and candidate slots are shrunk,
/// only with a cache; stale slots are processed only without.
pub open spec fn applies(work: SnapshotWork, caching: bool, test_hash: bool) -> bool {
    match work {
        SnapshotWork::UpdateAccountsHash => test_hash,
        SnapshotWork::ProcessStaleSlot => !caching,
        SnapshotWork::ForceFlushAccountsCache => caching,
        SnapshotWork::CalculateAccountsHash => test_hash,
        SnapshotWork::CleanAccounts => true,
        SnapshotWork::ShrinkCandidateSlots => caching,
        SnapshotWork::SnapshotBank => true,
        SnapshotWork::PurgeOldBankSnapshots => true,
    }
}

/// The work that stands at position `at`.
pub open spec fn work_at(at: int) -> SnapshotWork {
    if at == 0 {
        SnapshotWork::UpdateAccountsHash
    } else if at == 1 {
        SnapshotWork::ProcessStaleSlot
    } else if at == 2 {
        SnapshotWork::ForceFlushAccountsCache
    } else if at == 3 {
        SnapshotWork::CalculateAccountsHash
    } else if at == 4 {
        SnapshotWork::CleanAccounts
    } else if at == 5 {
        SnapshotWork::ShrinkCandidateSlots
    } else if at == 6 {
        SnapshotWork::SnapshotBank
    } else {
        SnapshotWork::PurgeOldBankSnapshots
    }
}

/// The work to do from position `start` on, in order.
pub open spec fn work_from(start: int, caching: bool, test_hash: bool) -> Seq<SnapshotWork>
    decreases 8 - start,
{
    if start >= 8 {
        seq![]
    } else if applies(work_at(start), caching, test_hash) {
        seq![work_at(start)] + work_from(start + 1, caching, test_hash)
    } else {
        work_from(start + 1, caching, test_hash)
    }
}

/// All work for one snapshot request.
pub open spec fn work_plan(caching: bool, test_hash: bool) -> Seq<SnapshotWork> {
    work_from(0, caching, test_hash)
}

/// A snapshot request that is being handled.
#[derive(Debug)]
pub struct SnapshotHandling {
    pub accounts_db_caching_enabled: bool,
    pub test_hash_calculation: bool,
    /// Slot of the bank.
    pub slot: Slot,
    /// Block height of the bank.
    pub block_height: u64,
    pub accounts_package_type: AccountsPackageType,
    /// Slot of the last full snapshot, this one counted in.
    pub last_full_snapshot_slot: Option<Slot>,
    /// The accounts hash by the index, once it was updated.
    pub previous_hash: Option<AccountsHash>,
    /// The accounts hash by the stores, once it was calculated.
    pub hash_for_testing: Option<AccountsHash>,
    /// The work to do next; nothing when the request is handled.
    pub pending: Option<SnapshotWork>,
    /// The error that ended the handling, if one did.
    pub failure: Option<SnapshotError>,
}

impl SnapshotHandling {
    /// All work for this request.
    pub open spec fn plan(&self) -> Seq<SnapshotWork> {
        work_plan(self.accounts_db_caching_enabled, self.test_hash_calculation)
    }

    /// The work still to be done, in order.
    pub open spec fn remaining(&self) -> Seq<SnapshotWork> {
        match self.pending {
            Some(work) => work_from(
                position(work),
                self.accounts_db_caching_enabled,
                self.test_hash_calculation,
            ),
            None => seq![],
        }
    }

    /// The work that comes after the pending one.
    pub open spec fn following(&self) -> Option<SnapshotWork> {
        if self.remaining().len() > 1 {
            Some(self.remaining()[1])
        } else {
            None
        }
    }

    /// The pending work has to be done, and each hash is there exactly from
    /// the moment on at which its work is done.
    pub open spec fn well_formed(&self) -> bool {
        match self.pending {
            Some(work) => {
                &&& applies(
                    work,
                    self.accounts_db_caching_enabled,
                    self.test_hash_calculation,
                )
                &&& self.failure is None
                &&& self.previous_hash is Some <==> self.test_hash_calculation && position(work) > 0
                &&& self.hash_for_testing == if position(work) > 3 {
                    self.previous_hash
                } else {
                    None
                }
            },
            None => true,
        }
    }

    /// The pending work with what has to be passed along; `None` when the request
    /// is handled.
    pub open spec fn next_action(&self) -> Option<SnapshotAction> {
        match self.pending {
            Some(SnapshotWork::UpdateAccountsHash) => Some(
                SnapshotAction::UpdateAccountsHash {
                    use_index: true,
                    debug_verify: false,
                    is_startup: false,
                },
            ),
            Some(SnapshotWork::ProcessStaleSlot) => Some(
                SnapshotAction::ProcessStaleSlot {
                    consumed_budget: 0,
                    budget_recovery_delta: SHRUNKEN_ACCOUNT_PER_INTERVAL,
                },
            ),
            Some(SnapshotWork::ForceFlushAccountsCache) => Some(
                SnapshotAction::ForceFlushAccountsCache,
            ),
            Some(SnapshotWork::CalculateAccountsHash) => Some(
                SnapshotAction::CalculateAccountsHash {
                    use_index: false,
                    slot: self.slot,
                    use_bg_thread_pool: true,
                    check_hash: false,
                    store_detailed_debug_info_on_failure: false,
                },
            ),
            Some(SnapshotWork::CleanAccounts) => Some(
                SnapshotAction::CleanAccounts {
                    last_full_snapshot_slot: self.last_full_snapshot_slot,
                },
            ),
            Some(SnapshotWork::ShrinkCandidateSlots) => Some(SnapshotAction::ShrinkCandidateSlots),
            Some(SnapshotWork::SnapshotBank) => Some(
                SnapshotAction::SnapshotBank {
                    hash_for_testing: self.hash_for_testing,
                    accounts_package_type: self.accounts_package_type,
                },
            ),
            Some(SnapshotWork::PurgeOldBankSnapshots) => Some(
                SnapshotAction::PurgeOldBankSnapshots,
            ),
            None => None,
        }
    }

    /// The work pending, with what has to be passed along.
    pub fn action(&self) -> (action: Option<SnapshotAction>)
        ensures
            action == self.next_action(),
    {
        match self.pending {
            Some(SnapshotWork::UpdateAccountsHash) => Some(
                SnapshotAction::UpdateAccountsHash {
                    use_index: true,
                    debug_verify: false,
                    is_startup: false,
                },
            ),
            Some(SnapshotWork::ProcessStaleSlot) => Some(
                SnapshotAction::ProcessStaleSlot {
                    consumed_budget: 0,
                    budget_recovery_delta: SHRUNKEN_ACCOUNT_PER_INTERVAL,
                },
            ),
            Some(SnapshotWork::ForceFlushAccountsCache) => Some(
                SnapshotAction::ForceFlushAccountsCache,
            ),
            Some(SnapshotWork::CalculateAccountsHash) => Some(
                SnapshotAction::CalculateAccountsHash {
                    use_index: false,
                    slot: self.slot,
                    use_bg_thread_pool: true,
                    check_hash: false,
                    store_detailed_debug_info_on_failure: false,
                },
            ),
            Some(SnapshotWork::CleanAccounts) => Some(
                SnapshotAction::CleanAccounts {
                    last_full_snapshot_slot: self.last_full_snapshot_slot,
                },
            ),
            Some(SnapshotWork::ShrinkCandidateSlots) => Some(SnapshotAction::ShrinkCandidateSlots),
            Some(SnapshotWork::SnapshotBank) => Some(
                SnapshotAction::SnapshotBank {
                    hash_for_testing: self.hash_for_testing,
                    accounts_package_type: self.accounts_package_type,
                },
            ),
            Some(SnapshotWork::PurgeOldBankSnapshots) => Some(
                SnapshotAction::PurgeOldBankSnapshots,
            ),
            None => None,
        }
    }

    /// Moves on to the work after the pending one.
    fn advance(&mut self)
        requires
            old(self).pending matches Some(work) && applies(
                work,
                old(self).accounts_db_caching_enabled,
                old(self).test_hash_calculation,
            ),
        ensures
            *final(self) == (SnapshotHandling { pending: old(self).following(), ..*old(self) }),
            final(self).remaining() == old(self).remaining().drop_first(),
            is_next(
                old(self).pending->0,
                final(self).pending,
                old(self).accounts_db_caching_enabled,
                old(self).test_hash_calculation,
            ),
            old(self).test_hash_calculation && position(old(self).pending->0) < 3
                ==> final(self).pending is Some && position(final(self).pending->0) <= 3,
    {
        assert(position(SnapshotWork::CalculateAccountsHash) == 3);
        if let Some(work) = self.pending {
            let next = work_after(
                work,
                self.accounts_db_caching_enabled,
                self.test_hash_calculation,
            );
            proof {
                lemma_following(*self, next);
            }
            self.pending = next;
        }
    }

    /// Starts handling a request for the bank at `slot` and `block_height`.
    pub(crate) fn begin(
        accounts_db_caching_enabled: bool,
        test_hash_calculation: bool,
        slot: Slot,
        block_height: u64,
        accounts_package_type: AccountsPackageType,
        last_full_snapshot_slot: Option<Slot>,
    ) -> (handling: SnapshotHandling)
        ensures
            handling.well_formed(),
            handling.accounts_db_caching_enabled == accounts_db_caching_enabled,
            handling.test_hash_calculation == test_hash_calculation,
            handling.slot == slot,
            handling.block_height == block_height,
            handling.accounts_package_type == accounts_package_type,
            handling.last_full_snapshot_slot == last_full_snapshot_slot,
            handling.previous_hash is None,
            handling.hash_for_testing is None,
            handling.failure is None,
            handling.remaining() == handling.plan(),
    {
        let first = if test_hash_calculation {
            SnapshotWork::UpdateAccountsHash
        } else if accounts_db_caching_enabled {
            SnapshotWork::ForceFlushAccountsCache
        } else {
            SnapshotWork::ProcessStaleSlot
        };
        proof {
            assert forall|at: int| 0 <= at < position(first) implies !applies(
                #[trigger] work_at(at),
                accounts_db_caching_enabled,
                test_hash_calculation,
            ) by {}
            lemma_skip(
                0,
                position(first),
                accounts_db_caching_enabled,
                test_hash_calculation,
            );
        }
        SnapshotHandling {
            accounts_db_caching_enabled,
            test_hash_calculation,
            slot,
            block_height,
            accounts_package_type,
            last_full_snapshot_slot,
            previous_hash: None,
            hash_for_testing: None,
            pending: Some(first),
            failure: None,
        }
    }

    /// The accounts hash was updated, and is `hash`.
    pub fn accounts_hash_updated(&mut self, hash: AccountsHash)
        requires
            old(self).well_formed(),
            old(self).pending == Some(SnapshotWork::UpdateAccountsHash),
        ensures
            final(self).well_formed(),
            *final(self) == (SnapshotHandling {
                previous_hash: Some(hash),
                pending: old(self).following(),
                ..*old(self)
            }),
            follows(*old(self), *final(self)),
    {
        self.previous_hash = Some(hash);
        self.advance();
    }

    /// The accounts cache was flushed, and now is up to and with `max_flush_root`.
    /// That may be beyond the bank, if earlier flushes were triggered by a full
    /// cache, but not before it: the snapshot would miss storages.
    pub fn accounts_cache_flushed(&mut self, max_flush_root: Slot)
        requires
            old(self).well_formed(),
            old(self).pending == Some(SnapshotWork::ForceFlushAccountsCache),
            old(self).slot <= max_flush_root,
        ensures
            final(self).well_formed(),
            *final(self) == (SnapshotHandling { pending: old(self).following(), ..*old(self) }),
            follows(*old(self), *final(self)),
    {
        self.advance();
    }

    /// Whether `hash` is the accounts hash that the index gave.
    pub fn is_previous_hash(&self, hash: &AccountsHash) -> (same: bool)
        ensures
            same == (self.previous_hash == Some(*hash)),
    {
        match self.previous_hash {
            Some(previous_hash) => previous_hash.same(hash),
            None => false,
        }
    }

    /// The accounts hash was calculated from the stores. It has to be the one that
    /// the index gave, and the capitalization has to be that of the bank.
    pub fn accounts_hash_calculated(
        &mut self,
        hash: AccountsHash,
        capitalization: u64,
        bank_capitalization: u64,
    )
        requires
            old(self).well_formed(),
            old(self).pending == Some(SnapshotWork::CalculateAccountsHash),
            old(self).previous_hash == Some(hash),
            capitalization == bank_capitalization,
        ensures
            final(self).well_formed(),
            *final(self) == (SnapshotHandling {
                hash_for_testing: Some(hash),
                pending: old(self).following(),
                ..*old(self)
            }),
            follows(*old(self), *final(self)),
    {
        self.hash_for_testing = Some(hash);
        self.advance();
    }

    /// The pending work, of which nothing has to be known but that it is done, is
    /// done.
    pub fn done(&mut self)
        requires
            old(self).well_formed(),
            old(self).pending matches Some(work) && (work is ProcessStaleSlot
                || work is CleanAccounts || work is ShrinkCandidateSlots
                || work is PurgeOldBankSnapshots),
        ensures
            final(self).well_formed(),
            *final(self) == (SnapshotHandling { pending: old(self).following(), ..*old(self) }),
            follows(*old(self), *final(self)),
    {
        self.advance();
    }

    /// Taking the snapshot ended with `result`. A fatal error ends the handling,
    /// any other is passed over.
    pub fn bank_snapshot_taken(&mut self, result: Result<(), SnapshotError>)
        requires
            old(self).well_formed(),
            old(self).pending == Some(SnapshotWork::SnapshotBank),
        ensures
            final(self).well_formed(),
            match result {
                Err(err) if is_fatal(err) => *final(self) == (SnapshotHandling {
                    failure: Some(err),
                    pending: None,
                    ..*old(self)
                }),
                _ => *final(self) == (SnapshotHandling {
                    pending: Some(SnapshotWork::PurgeOldBankSnapshots),
                    ..*old(self)
                }),
            },
            follows(*old(self), *final(self)),
    {
        if let Err(err) = result {
            if is_snapshot_error_fatal(&err) {
                self.failure = Some(err);
                self.pending = None;
                return;
            }
        }
        self.advance();
    }

    /// What came of the request: the block height of the bank, or the error that
    /// ended it.
    pub fn into_result(self) -> (result: Result<u64, SnapshotError>)
        requires
            self.pending is None,
        ensures
            result == match self.failure {
                Some(err) => Err(err),
                None => Ok(self.block_height),
            },
    {
        match self.failure {
            Some(err) => Err(err),
            None => Ok(self.block_height),
        }
    }
}

/// `a` and `b` handle the same request in the same way.
pub open spec fn same_request(a: SnapshotHandling, b: SnapshotHandling) -> bool {
    &&& a.accounts_db_caching_enabled == b.accounts_db_caching_enabled
    &&& a.test_hash_calculation == b.test_hash_calculation
    &&& a.slot == b.slot
    &&& a.block_height == b.block_height
    &&& a.accounts_package_type == b.accounts_package_type
    &&& a.last_full_snapshot_slot == b.last_full_snapshot_slot
}

/// `b` is what `a` becomes once its pending work is done: one piece of work less
/// remains, or taking the snapshot failed for good and none does.
pub open spec fn follows(a: SnapshotHandling, b: SnapshotHandling) -> bool {
    &&& a.pending is Some
    &&& same_request(a, b)
    &&& if b.failure is None {
        b.remaining() == a.remaining().drop_first()
    } else {
        a.pending == Some(SnapshotWork::SnapshotBank) && b.pending is None
    }
}

/// The states that handling a request goes through, from the first on.
pub open spec fn is_run(states: Seq<SnapshotHandling>) -> bool {
    &&& states.len() > 0
    &&& states[0].failure is None
    &&& states[0].remaining() == states[0].plan()
    &&& forall|i: int| 0 <= i < states.len() ==> (#[trigger] states[i]).well_formed()
    &&& forall|i: int, j: int|
        #![trigger states[i], states[j]]
        0 <= i && i + 1 == j && j < states.len() ==> follows(states[i], states[j])
}

/// `next` is the first work after `work` that has to be done, if there is any.
pub open spec fn is_next(
    work: SnapshotWork,
    next: Option<SnapshotWork>,
    caching: bool,
    test_hash: bool,
) -> bool {
    match next {
        Some(next) => {
            &&& applies(next, caching, test_hash)
            &&& position(work) < position(next)
            &&& forall|between: SnapshotWork|
                position(work) < #[trigger] position(between) < position(next) ==> !applies(
                    between,
                    caching,
                    test_hash,
                )
        },
        None => work is PurgeOldBankSnapshots,
    }
}

/// The work to do after `work`.
fn work_after(work: SnapshotWork, caching: bool, test_hash: bool) -> (next: Option<SnapshotWork>)
    ensures
        is_next(work, next, caching, test_hash),
{
    match work {
        SnapshotWork::UpdateAccountsHash => {
            if caching {
                Some(SnapshotWork::ForceFlushAccountsCache)
            } else {
                Some(SnapshotWork::ProcessStaleSlot)
            }
        },
        SnapshotWork::ProcessStaleSlot => {
            if caching {
                Some(SnapshotWork::ForceFlushAccountsCache)
            } else if test_hash {
                Some(SnapshotWork::CalculateAccountsHash)
            } else {
                Some(SnapshotWork::CleanAccounts)
            }
        },
        SnapshotWork::ForceFlushAccountsCache => {
            if test_hash {
                Some(SnapshotWork::CalculateAccountsHash)
            } else {
                Some(SnapshotWork::CleanAccounts)
            }
        },
        SnapshotWork::CalculateAccountsHash => Some(SnapshotWork::CleanAccounts),
        SnapshotWork::CleanAccounts => {
            if caching {
                Some(SnapshotWork::ShrinkCandidateSlots)
            } else {
                Some(SnapshotWork::SnapshotBank)
            }
        },
        SnapshotWork::ShrinkCandidateSlots => Some(SnapshotWork::SnapshotBank),
        SnapshotWork::SnapshotBank => Some(SnapshotWork::PurgeOldBankSnapshots),
        SnapshotWork::PurgeOldBankSnapshots => None,
    }
}

/// Positions at which nothing has to be done can be skipped.
proof fn lemma_skip(start: int, to: int, caching: bool, test_hash: bool)
    requires
        0 <= start <= to <= 8,
        forall|at: int| start <= at < to ==> !applies(#[trigger] work_at(at), caching, test_hash),
    ensures
        work_from(start, caching, test_hash) == work_from(to, caching, test_hash),
    decreases to - start,
{
    if start < to {
        assert(!applies(work_at(start), caching, test_hash));
        lemma_skip(start + 1, to, caching, test_hash);
    }
}

/// The work to do from `work` on is `work` itself and then what there is to do
/// from `next` on.
proof fn lemma_work_continues(
    work: SnapshotWork,
    next: Option<SnapshotWork>,
    caching: bool,
    test_hash: bool,
)
    requires
        applies(work, caching, test_hash),
        is_next(work, next, caching, test_hash),
    ensures
        work_from(position(work), caching, test_hash) == seq![work] + match next {
            Some(next) => work_from(position(next), caching, test_hash),
            None => seq![],
        },
        next matches Some(next) ==> work_from(position(next), caching, test_hash).len() > 0
            && work_from(position(next), caching, test_hash)[0] == next,
{
    let start = position(work) + 1;
    assert(work_at(position(work)) == work);
    match next {
        Some(next) => {
            let to = position(next);
            assert(work_at(to) == next);
            assert forall|at: int| start <= at < to implies !applies(
                #[trigger] work_at(at),
                caching,
                test_hash,
            ) by {
                assert(position(work_at(at)) == at);
            }
            lemma_skip(start, to, caching, test_hash);
        },
        None => {
            assert(work_from(8, caching, test_hash) =~= seq![]);
        },
    }
}

/// Moving on to the next work leaves what remained but the first.
proof fn lemma_following(handling: SnapshotHandling, next: Option<SnapshotWork>)
    requires
        handling.pending is Some,
        applies(
            handling.pending->0,
            handling.accounts_db_caching_enabled,
            handling.test_hash_calculation,
        ),
        is_next(
            handling.pending->0,
            next,
            handling.accounts_db_caching_enabled,
            handling.test_hash_calculation,
        ),
    ensures
        handling.following() == next,
        (SnapshotHandling { pending: next, ..handling }).remaining()
            == handling.remaining().drop_first(),
{
    lemma_work_continues(
        handling.pending->0,
        next,
        handling.accounts_db_caching_enabled,
        handling.test_hash_calculation,
    );
    let rest = (SnapshotHandling { pending: next, ..handling }).remaining();
    assert(handling.remaining() == seq![handling.pending->0] + rest);
    assert((seq![handling.pending->0] + rest).drop_first() =~= rest);
}

/// The plan holds exactly the work that has to be done, each once and in order.
/// So with a cache the bank is flushed before the hash is calculated, before the
/// accounts are cleaned and before the snapshot is taken; the accounts are
/// cleaned before the snapshot; and old snapshots go only after the new one.
pub proof fn law_plan_is_in_order(caching: bool, test_hash: bool)
    ensures
        forall|work: SnapshotWork|
            #![trigger applies(work, caching, test_hash)]
            work_plan(caching, test_hash).contains(work) <==> applies(work, caching, test_hash),
        forall|i: int, j: int|
            0 <= i < j < work_plan(caching, test_hash).len() ==> position(
                #[trigger] work_plan(caching, test_hash)[i],
            ) < position(#[trigger] work_plan(caching, test_hash)[j]),
{
    lemma_order_from(0, caching, test_hash);
    let plan = work_plan(caching, test_hash);
    assert forall|work: SnapshotWork|
        #![trigger applies(work, caching, test_hash)]
        plan.contains(work) <==> applies(work, caching, test_hash) by {
        assert(work_at(position(work)) == work);
    }
}

/// What there is to do from position `start` on is in order and complete.
proof fn lemma_order_from(start: int, caching: bool, test_hash: bool)
    requires
        0 <= start <= 8,
    ensures
        ({
            let rest = work_from(start, caching, test_hash);
            &&& forall|i: int|
                0 <= i < rest.len() ==> position(#[trigger] rest[i]) >= start && applies(
                    rest[i],
                    caching,
                    test_hash,
                )
            &&& forall|i: int, j: int|
                0 <= i < j < rest.len() ==> position(#[trigger] rest[i]) < position(
                    #[trigger] rest[j],
                )
            &&& forall|at: int|
                start <= at < 8 && applies(#[trigger] work_at(at), caching, test_hash)
                    ==> rest.contains(work_at(at))
        }),
    decreases 8 - start,
{
    if start < 8 {
        lemma_order_from(start + 1, caching, test_hash);
        let rest = work_from(start, caching, test_hash);
        let tail = work_from(start + 1, caching, test_hash);
        assert(position(work_at(start)) == start);
        assert forall|at: int| start <= at < 8 && applies(
            #[trigger] work_at(at),
            caching,
            test_hash,
        ) implies rest.contains(work_at(at)) by {
            if at == start {
                assert(rest[0] == work_at(at));
            } else {
                let i = choose|i: int| 0 <= i < tail.len() && tail[i] == work_at(at);
                assert(rest[i + rest.len() - tail.len()] == work_at(at));
            }
        }
    }
}

/// Handling a request does the work of the plan, piece by piece, whatever the
/// runtime answers: the `i`th state asks for the `i`th piece. It is over when all
/// is done, or when taking the snapshot failed. What is known of the request stays
/// as it was, so that without a failure the result is the height of its bank.
pub proof fn law_handling_does_the_plan(states: Seq<SnapshotHandling>, i: int)
    requires
        is_run(states),
        0 <= i < states.len(),
    ensures
        same_request(states[0], states[i]),
        states[i].pending matches Some(work) ==> {
            &&& i < states[0].plan().len()
            &&& work == states[0].plan()[i]
        },
        states[i].pending is None && states[i].failure is None ==> i == states[0].plan().len(),
        states[i].failure is Some ==> {
            &&& 0 < i < states[0].plan().len()
            &&& states[0].plan()[i - 1] is SnapshotBank
            &&& states.len() == i + 1
        },
{
    lemma_run(states, i);
    if i > 0 {
        lemma_run(states, i - 1);
    }
    if states[i].failure is Some {
        if i + 1 < states.len() {
            assert(follows(states[i], states[i + 1]));
        }
    }
    if states[i].pending is Some {
        lemma_first_is_pending(states[i]);
    }
    if i > 0 && states[i - 1].pending is Some {
        lemma_first_is_pending(states[i - 1]);
    }
}

/// A snapshot is taken with a hash for testing exactly when the hash is tested,
/// and it is the hash that the index and the stores both gave.
pub proof fn law_tested_hash_goes_into_the_snapshot(handling: SnapshotHandling)
    requires
        handling.well_formed(),
        handling.pending == Some(SnapshotWork::SnapshotBank),
    ensures
        handling.next_action() matches Some(
            SnapshotAction::SnapshotBank { hash_for_testing, accounts_package_type },
        ) && hash_for_testing == handling.previous_hash && (hash_for_testing is Some
            <==> handling.test_hash_calculation) && accounts_package_type
            == handling.accounts_package_type,
{
}

/// The pending work is the first that remains.
proof fn lemma_first_is_pending(handling: SnapshotHandling)
    requires
        handling.well_formed(),
        handling.pending is Some,
    ensures
        handling.remaining().len() > 0,
        handling.remaining()[0] == handling.pending->0,
        handling.pending->0 is SnapshotBank ==> handling.remaining().len() > 1,
{
    let work = handling.pending->0;
    assert(work_at(position(work)) == work);
    if work is SnapshotBank {
        assert(work_from(
            7,
            handling.accounts_db_caching_enabled,
            handling.test_hash_calculation,
        ).len() > 0);
    }
}

/// As long as nothing failed, what remains in the `i`th state is the plan without
/// its first `i` pieces.
proof fn lemma_run(states: Seq<SnapshotHandling>, i: int)
    requires
        is_run(states),
        0 <= i < states.len(),
    ensures
        same_request(states[0], states[i]),
        states[i].failure is None ==> i <= states[0].plan().len() && states[i].remaining()
            == states[0].plan().skip(i),
    decreases i,
{
    if i == 0 {
        assert(states[0].plan().skip(0) =~= states[0].plan());
    } else {
        lemma_run(states, i - 1);
        assert(follows(states[i - 1], states[i]));
        lemma_first_is_pending(states[i - 1]);
        if states[i].failure is None {
            assert(states[0].plan().skip(i - 1).drop_first() =~= states[0].plan().skip(i));
        }
    }
}

/// All work for one snapshot request, with and without a cache, and with and
/// without a test of the hash.
pub proof fn law_work_of_a_request()
    ensures
        work_plan(true, false) == seq![
            SnapshotWork::ForceFlushAccountsCache,
            SnapshotWork::CleanAccounts,
            SnapshotWork::ShrinkCandidateSlots,
            SnapshotWork::SnapshotBank,
            SnapshotWork::PurgeOldBankSnapshots,
        ],
        work_plan(true, true) == seq![
            SnapshotWork::UpdateAccountsHash,
            SnapshotWork::ForceFlushAccountsCache,
            SnapshotWork::CalculateAccountsHash,
            SnapshotWork::CleanAccounts,
            SnapshotWork::ShrinkCandidateSlots,
            SnapshotWork::SnapshotBank,
            SnapshotWork::PurgeOldBankSnapshots,
        ],
        work_plan(false, false) == seq![
            SnapshotWork::ProcessStaleSlot,
            SnapshotWork::CleanAccounts,
            SnapshotWork::SnapshotBank,
            SnapshotWork::PurgeOldBankSnapshots,
        ],
        work_plan(false, true) == seq![
            SnapshotWork::UpdateAccountsHash,
            SnapshotWork::ProcessStaleSlot,
            SnapshotWork::CalculateAccountsHash,
            SnapshotWork::CleanAccounts,
            SnapshotWork::SnapshotBank,
            SnapshotWork::PurgeOldBankSnapshots,
        ],
{
    reveal_with_fuel(work_from, 9);
}

/// Cleaning is told the last full snapshot, whatever the package and with or
/// without a cache.
pub proof fn law_cleaning_is_told_of_the_handlings_last_full_snapshot(handling: SnapshotHandling)
    requires
        handling.pending == Some(SnapshotWork::CleanAccounts),
    ensures
        handling.next_action() == Some(
            SnapshotAction::CleanAccounts {
                last_full_snapshot_slot: handling.last_full_snapshot_slot,
            },
        ),
{
}

/// What every other work is told. Updating the hash goes by the index, is not
/// verified and is not part of the startup; calculating it goes by the stores of the
/// bank's slot, in the background threads, and checks nothing; stale slots are
/// processed from an unused budget; the snapshot gets the tested hash and the
/// package. When nothing is pending nothing is asked for.
pub proof fn law_what_the_work_is_told(handling: SnapshotHandling)
    ensures
        handling.pending == Some(SnapshotWork::UpdateAccountsHash) ==> handling.next_action()
            == Some(
            SnapshotAction::UpdateAccountsHash {
                use_index: true,
                debug_verify: false,
                is_startup: false,
            },
        ),
        handling.pending == Some(SnapshotWork::ProcessStaleSlot) ==> handling.next_action() == Some(
            SnapshotAction::ProcessStaleSlot { consumed_budget: 0, budget_recovery_delta: 25 },
        ),
        handling.pending == Some(SnapshotWork::ForceFlushAccountsCache) ==> handling.next_action()
            == Some(SnapshotAction::ForceFlushAccountsCache),
        handling.pending == Some(SnapshotWork::CalculateAccountsHash) ==> handling.next_action()
            == Some(
            SnapshotAction::CalculateAccountsHash {
                use_index: false,
                slot: handling.slot,
                use_bg_thread_pool: true,
                check_hash: false,
                store_detailed_debug_info_on_failure: false,
            },
        ),
        handling.pending == Some(SnapshotWork::ShrinkCandidateSlots) ==> handling.next_action()
            == Some(SnapshotAction::ShrinkCandidateSlots),
        handling.pending == Some(SnapshotWork::SnapshotBank) ==> handling.next_action() == Some(
            SnapshotAction::SnapshotBank {
                hash_for_testing: handling.hash_for_testing,
                accounts_package_type: handling.accounts_package_type,
            },
        ),
        handling.pending == Some(SnapshotWork::PurgeOldBankSnapshots) ==> handling.next_action()
            == Some(SnapshotAction::PurgeOldBankSnapshots),
        handling.pending is None ==> handling.next_action() is None,
{
}

/// Which work comes after which, by the cache and the test of the hash.
pub proof fn law_which_work_follows(handling: SnapshotHandling)
    requires
        handling.well_formed(),
        handling.pending is Some,
    ensures
        ({
            let caching = handling.accounts_db_caching_enabled;
            let test_hash = handling.test_hash_calculation;
            handling.following() == match handling.pending->0 {
                SnapshotWork::UpdateAccountsHash => if caching {
                    Some(SnapshotWork::ForceFlushAccountsCache)
                } else {
                    Some(SnapshotWork::ProcessStaleSlot)
                },
                SnapshotWork::ProcessStaleSlot => if test_hash {
                    Some(SnapshotWork::CalculateAccountsHash)
                } else {
                    Some(SnapshotWork::CleanAccounts)
                },
                SnapshotWork::ForceFlushAccountsCache => if test_hash {
                    Some(SnapshotWork::CalculateAccountsHash)
                } else {
                    Some(SnapshotWork::CleanAccounts)
                },
                SnapshotWork::CalculateAccountsHash => Some(SnapshotWork::CleanAccounts),
                SnapshotWork::CleanAccounts => if caching {
                    Some(SnapshotWork::ShrinkCandidateSlots)
                } else {
                    Some(SnapshotWork::SnapshotBank)
                },
                SnapshotWork::ShrinkCandidateSlots => Some(SnapshotWork::SnapshotBank),
                SnapshotWork::SnapshotBank => Some(SnapshotWork::PurgeOldBankSnapshots),
                SnapshotWork::PurgeOldBankSnapshots => None,
            }
        }),
{
    reveal_with_fuel(work_from, 9);
}

} // verus!
