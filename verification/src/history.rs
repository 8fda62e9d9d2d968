//! Many rounds in a row, together with the banks and requests they met.

use crate::bank::Slot;
use crate::handler::last_full_after;
use crate::package::{AccountsPackageType, SnapshotConfig, SnapshotType};
use crate::request::{classified, is_selected, ClassifiedRequest, SnapshotRequest};
use crate::round::{
    advanced, cleans, law_cleaning_is_told_of_the_last_full_snapshot, reached, round_result,
    Answers,
};
use crate::service::{AccountsBackgroundService, ServiceAction, ServiceStep, SnapshotOutcome};
use vstd::prelude::*;

verus! {

/// One round that was not told to end.
pub struct Round {
    /// The service when the round began.
    pub service: AccountsBackgroundService,
    pub answers: Answers,
    /// Slot of the root bank of the round.
    pub root_slot: Slot,
    /// Which requests the round took, oldest first.
    pub taken: Seq<int>,
    /// Where among those the one that was handled stands.
    pub handled: int,
}

/// The rounds of a service from its start on, and the snapshot requests that were
/// made meanwhile. A request goes by its place in `requests`.
pub struct History<B, D> {
    pub config: SnapshotConfig,
    /// The last full snapshot that the service was started with.
    pub last_full_snapshot_slot: Option<Slot>,
    /// Every request that was put into the channel.
    pub requests: Seq<SnapshotRequest<B, D>>,
    /// For each request, the first round that took requests after it was put in.
    pub put_in_before: Seq<int>,
    pub rounds: Seq<Round>,
}

impl<B, D> History<B, D> {
    pub open spec fn slot(self, i: int) -> Slot {
        self.requests[i].snapshot_root_bank.slot
    }

    pub open spec fn block_height(self, i: int) -> u64 {
        self.requests[i].snapshot_root_bank.block_height
    }

    /// The requests that round `k` took.
    pub open spec fn waiting(self, k: int) -> Seq<SnapshotRequest<B, D>> {
        self.rounds[k].taken.map_values(|i: int| self.requests[i])
    }

    /// Round `k` handled a request.
    pub open spec fn handles(self, k: int) -> bool {
        self.rounds[k].taken.len() > 0
    }

    /// The request that round `k` handled, with what it was made into.
    pub open spec fn handled(self, k: int) -> ClassifiedRequest<B, D> {
        classified(
            self.waiting(k),
            self.config,
            self.rounds[k].service.last_full_snapshot_slot,
            self.rounds[k].handled,
        )
    }

    /// Round `k` handled a request for a full snapshot.
    pub open spec fn handles_full(self, k: int) -> bool {
        self.handles(k) && self.handled(k).1 == AccountsPackageType::Snapshot(
            SnapshotType::FullSnapshot,
        )
    }

    /// Round `k` does what came of the requests it took: the one to handle was
    /// handled, or failed; a full snapshot became the last one. Without requests
    /// nothing of that happens.
    pub open spec fn answers_follow(self, k: int) -> bool {
        let round = self.rounds[k];
        &&& forall|t: int|
            0 <= t < round.taken.len() ==> 0 <= #[trigger] round.taken[t] < self.requests.len()
        &&& if self.handles(k) {
            let (request, accounts_package_type) = self.handled(k);
            &&& is_selected(
                self.waiting(k),
                self.config,
                round.service.last_full_snapshot_slot,
                round.handled,
            )
            &&& round.answers.outcome is Failed || round.answers.outcome
                == SnapshotOutcome::Handled(request.snapshot_root_bank.block_height)
            &&& round.answers.last_full_snapshot_slot == last_full_after(
                accounts_package_type,
                request.snapshot_root_bank.slot,
                round.service.last_full_snapshot_slot,
            )
        } else {
            &&& round.answers.outcome is NoRequest
            &&& round.answers.last_full_snapshot_slot == round.service.last_full_snapshot_slot
        }
    }

    /// The rounds follow each other from the start of the service on.
    pub open spec fn is_history(self) -> bool {
        &&& self.put_in_before.len() == self.requests.len()
        &&& self.rounds.len() > 0 ==> {
            &&& self.rounds[0].service.last_cleaned_block_height == 0
            &&& self.rounds[0].service.last_full_snapshot_slot == self.last_full_snapshot_slot
        }
        &&& forall|j: int, k: int|
            #![trigger self.rounds[j], self.rounds[k]]
            0 <= j && j + 1 == k && k < self.rounds.len() ==> self.rounds[k].service
                == round_result(self.rounds[j].service, self.rounds[j].answers)
        &&& forall|k: int|
            #![trigger self.rounds[k]]
            0 <= k < self.rounds.len() ==> {
                &&& self.rounds[k].service.step is ReadExitFlag
                &&& !self.rounds[k].answers.exit
                &&& self.answers_follow(k)
            }
    }

    /// Each round takes every request that was put in before and that no earlier
    /// round took: taking empties the channel.
    pub open spec fn rounds_take_all(self) -> bool {
        forall|k: int, i: int|
            0 <= k < self.rounds.len() && 0 <= i < self.requests.len() ==> (
            #[trigger] self.rounds[k].taken.contains(i) <==> self.put_in_before[i] <= k && forall|
                j: int,
            |
                0 <= j < k ==> !(#[trigger] self.rounds[j].taken.contains(i)))
    }

    /// A request is put in before any bank above its own becomes the root. A round
    /// takes requests after it got its root, so one that got a higher root comes after
    /// the request.
    pub open spec fn requests_come_before_roots(self) -> bool {
        forall|k: int, i: int|
            0 <= k < self.rounds.len() && 0 <= i < self.requests.len() && #[trigger] self.slot(i)
                < (#[trigger] self.rounds[k]).root_slot ==> self.put_in_before[i] <= k
    }

    /// Requests are put in for higher and higher banks.
    pub open spec fn requests_rise(self) -> bool {
        forall|a: int, b: int|
            0 <= a < self.requests.len() && 0 <= b < self.requests.len()
                && #[trigger] self.put_in_before[a] < #[trigger] self.put_in_before[b]
                ==> self.slot(a) <= self.slot(b)
    }

    /// Roots and requested banks lie on one chain: with the slot the block height
    /// rises.
    pub open spec fn heights_rise_with_slots(self) -> bool {
        &&& forall|a: int, b: int|
            0 <= a < self.requests.len() && 0 <= b < self.requests.len()
                && #[trigger] self.slot(a) <= #[trigger] self.slot(b) ==> self.block_height(a)
                <= self.block_height(b)
        &&& forall|k: int, i: int|
            0 <= k < self.rounds.len() && 0 <= i < self.requests.len() && (
            #[trigger] self.rounds[k]).root_slot <= #[trigger] self.slot(i)
                ==> self.rounds[k].answers.root_block_height <= self.block_height(i)
    }

    /// Round `k` cleaned the slot `m`, on its root bank or on the bank of the request
    /// it handled. Cleaning on a bank cleans slots below it only.
    pub open spec fn cleaned(self, k: int, m: Slot) -> bool {
        ||| cleans(self.rounds[k].service, self.rounds[k].answers) && m < self.rounds[k].root_slot
        ||| self.handles(k) && m < self.handled(k).0.snapshot_root_bank.slot
    }

    /// `slot` is that of the full snapshot handled last before round `k`; where none
    /// was, it is what the service was started with.
    pub open spec fn is_last_full(self, k: int, slot: Option<Slot>) -> bool {
        ||| exists|j: int|
            0 <= j < k && #[trigger] self.handles_full(j) && slot == Some(
                self.handled(j).0.snapshot_root_bank.slot,
            ) && forall|n: int| j < n < k ==> !(#[trigger] self.handles_full(n))
        ||| slot == self.last_full_snapshot_slot && forall|n: int|
            0 <= n < k ==> !(#[trigger] self.handles_full(n))
    }
}

/// A round only takes what was put in after all earlier rounds took requests.
proof fn lemma_taken_at_once<B, D>(history: History<B, D>, j: int, k: int, i: int)
    requires
        history.rounds_take_all(),
        0 <= j < k < history.rounds.len(),
        0 <= i < history.requests.len(),
        history.rounds[k].taken.contains(i),
    ensures
        j < history.put_in_before[i] <= k,
{
    assert(!history.rounds[j].taken.contains(i));
}

/// No snapshot request is ever found for a bank below the root of an earlier round.
/// So what that round did up to its root, like flushing the accounts cache, takes
/// nothing away from a later snapshot.
pub proof fn law_no_request_is_below_an_earlier_root<B, D>(
    history: History<B, D>,
    j: int,
    k: int,
    i: int,
)
    requires
        history.rounds_take_all(),
        history.requests_come_before_roots(),
        0 <= j < k < history.rounds.len(),
        0 <= i < history.requests.len(),
        history.rounds[k].taken.contains(i),
    ensures
        history.rounds[j].root_slot <= history.slot(i),
{
    lemma_taken_at_once(history, j, k, i);
}

/// No snapshot request is ever found for a bank below the bank of a request that
/// an earlier round handled.
proof fn lemma_not_below_handled<B, D>(history: History<B, D>, j: int, k: int, i: int) -> (a: int)
    requires
        history.is_history(),
        history.rounds_take_all(),
        history.requests_rise(),
        0 <= j < k < history.rounds.len(),
        0 <= i < history.requests.len(),
        history.rounds[k].taken.contains(i),
        history.handles(j),
    ensures
        0 <= a < history.requests.len(),
        history.handled(j).0 == history.requests[a],
        history.slot(a) <= history.slot(i),
{
    assert(history.answers_follow(j));
    let a = history.rounds[j].taken[history.rounds[j].handled];
    assert(history.rounds[j].taken.contains(a));
    assert(history.put_in_before[a] <= j);
    lemma_taken_at_once(history, j, k, i);
    a
}

/// Every slot that was cleaned before a snapshot request is found lies below the
/// bank of that request: cleaning never takes away what a later snapshot needs.
/// That requests rise matters only where it was cleaned on the bank of a request.
pub proof fn law_no_request_is_for_a_cleaned_slot<B, D>(
    history: History<B, D>,
    j: int,
    m: Slot,
    k: int,
    i: int,
)
    requires
        history.is_history(),
        history.rounds_take_all(),
        history.requests_come_before_roots(),
        history.handles(j) ==> history.requests_rise(),
        0 <= j < k < history.rounds.len(),
        0 <= i < history.requests.len(),
        history.rounds[k].taken.contains(i),
        history.cleaned(j, m),
    ensures
        m < history.slot(i),
{
    law_no_request_is_below_an_earlier_root(history, j, k, i);
    if history.handles(j) {
        let _ = lemma_not_below_handled(history, j, k, i);
    }
}

/// No snapshot request is ever found for a bank of a lower block height than the
/// bank last cleaned.
pub proof fn law_no_request_is_below_the_last_cleaned_bank<B, D>(
    history: History<B, D>,
    k: int,
    i: int,
)
    requires
        history.is_history(),
        history.rounds_take_all(),
        history.requests_come_before_roots(),
        history.requests_rise(),
        history.heights_rise_with_slots(),
        0 <= k < history.rounds.len(),
        0 <= i < history.requests.len(),
        history.rounds[k].taken.contains(i),
    ensures
        history.rounds[k].service.last_cleaned_block_height <= history.block_height(i),
{
    lemma_last_cleaned(history, k, k, i);
}

/// The same of what was last cleaned when an earlier round began.
proof fn lemma_last_cleaned<B, D>(history: History<B, D>, n: int, k: int, i: int)
    requires
        history.is_history(),
        history.rounds_take_all(),
        history.requests_come_before_roots(),
        history.requests_rise(),
        history.heights_rise_with_slots(),
        0 <= n <= k < history.rounds.len(),
        0 <= i < history.requests.len(),
        history.rounds[k].taken.contains(i),
    ensures
        history.rounds[n].service.last_cleaned_block_height <= history.block_height(i),
    decreases n,
{
    if n > 0 {
        let j = n - 1;
        lemma_last_cleaned(history, j, k, i);
        assert(history.rounds[n].service == round_result(
            history.rounds[j].service,
            history.rounds[j].answers,
        ));
        assert(history.answers_follow(j));
        law_no_request_is_below_an_earlier_root(history, j, k, i);
        assert(history.rounds[j].answers.root_block_height <= history.block_height(i));
        if history.handles(j) {
            let a = lemma_not_below_handled(history, j, k, i);
            assert(history.block_height(a) <= history.block_height(i));
        }
    }
}

/// When a round cleans its root bank, cleaning is told the slot of the full
/// snapshot that was handled last, or, where none was, the one that the service
/// was started with. Requests that became anything else change nothing of that.
pub proof fn law_cleaning_is_told_of_the_full_snapshot_handled_last<B, D>(
    history: History<B, D>,
    k: int,
)
    requires
        history.is_history(),
        0 <= k < history.rounds.len(),
        cleans(history.rounds[k].service, history.rounds[k].answers),
    ensures
        reached(
            advanced(history.rounds[k].service, history.rounds[k].answers),
            history.rounds[k].answers,
            ServiceStep::CleanAccounts,
        ).next_action() matches ServiceAction::CleanAccounts { last_full_snapshot_slot }
            && history.is_last_full(k, last_full_snapshot_slot),
{
    lemma_last_full(history, k);
    assert(history.answers_follow(k));
    law_cleaning_is_told_of_the_last_full_snapshot(
        history.rounds[k].service,
        history.rounds[k].answers,
    );
}

/// Every round begins with the slot of the full snapshot that was handled last.
proof fn lemma_last_full<B, D>(history: History<B, D>, k: int)
    requires
        history.is_history(),
        0 <= k < history.rounds.len(),
    ensures
        history.is_last_full(k, history.rounds[k].service.last_full_snapshot_slot),
    decreases k,
{
    if k > 0 {
        let j = k - 1;
        lemma_last_full(history, j);
        assert(history.rounds[k].service == round_result(
            history.rounds[j].service,
            history.rounds[j].answers,
        ));
        assert(history.answers_follow(j));
        let slot = history.rounds[k].service.last_full_snapshot_slot;
        if history.handles_full(j) {
            assert(slot == Some(history.handled(j).0.snapshot_root_bank.slot));
        } else {
            assert(slot == history.rounds[j].service.last_full_snapshot_slot);
        }
    }
}

} // verus!
