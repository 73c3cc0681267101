//! The task launcher and the join collector.
//!
//! The launcher plans one deferred unit of work per index. Once an
//! executor has driven the units, the collector retrieves each outcome in
//! submission order — not completion order — and treats the first failed
//! unit as fatal: nothing at or after it is reported.

use vstd::prelude::*;

use crate::deferred::narration_of;
use crate::deferred::suspension_count;
use crate::deferred::Deferred;
use crate::deferred::Step;
use crate::messages::done_line_text;
use crate::messages::running_line_text;
use crate::messages::task_done_line;
use crate::messages::task_running_line;

verus! {

/// The unit of work for task `index`: narrate that the task is running,
/// suspend for `delay_secs` seconds, and yield the task's done line.
pub fn task_unit(index: usize, delay_secs: u64) -> (d: Deferred)
    ensures
        d.narration() == seq![running_line_text(index as nat)],
        d.suspensions() == 1,
        d.result() == done_line_text(index as nat),
{
    let running = task_running_line(index);
    let value = task_done_line(index);
    let ghost running_text = running@;
    let mut steps: Vec<Step> = Vec::new();
    steps.push(Step::Narrate(running));
    steps.push(Step::Suspend(delay_secs));
    let d = Deferred { steps, value };
    proof {
        let sv = d.steps@;
        assert(sv.len() == 2);
        assert(sv[0] matches Step::Narrate(l) && l@ == running_text);
        assert(sv[1] is Suspend);
        assert(sv.drop_last() =~= seq![sv[0]]);
        assert(seq![sv[0]].drop_last() =~= Seq::<Step>::empty());
        assert(narration_of(Seq::<Step>::empty()) == Seq::<Seq<char>>::empty());
        assert(narration_of(seq![sv[0]]) =~= seq![running_text]);
        assert(narration_of(sv) =~= seq![running_text]);
        assert(suspension_count(Seq::<Step>::empty()) == 0);
        assert(suspension_count(seq![sv[0]]) == 0);
        assert(suspension_count(sv) == 1);
    }
    d
}

/// The launcher's plan: `count` independent units of work with indices
/// `first, first + 1, ...`, in submission order, each configured to
/// narrate its running line, suspend `delay_secs` seconds, and yield its
/// done line.
pub fn launch_plan(first: usize, count: usize, delay_secs: u64) -> (plan: Vec<Deferred>)
    requires
        first + count <= usize::MAX,
    ensures
        plan@.len() == count,
        forall|k: int|
            0 <= k < count ==> (#[trigger] plan@[k]).narration() == seq![
                running_line_text((first + k) as nat),
            ],
        forall|k: int| 0 <= k < count ==> (#[trigger] plan@[k]).suspensions() == 1,
        forall|k: int|
            0 <= k < count ==> (#[trigger] plan@[k]).result() == done_line_text(
                (first + k) as nat,
            ),
{
    let mut plan: Vec<Deferred> = Vec::new();
    let mut j: usize = 0;
    while j < count
        invariant
            j <= count,
            first + count <= usize::MAX,
            plan@.len() == j,
            forall|k: int|
                0 <= k < j ==> (#[trigger] plan@[k]).narration() == seq![
                    running_line_text((first + k) as nat),
                ],
            forall|k: int| 0 <= k < j ==> (#[trigger] plan@[k]).suspensions() == 1,
            forall|k: int|
                0 <= k < j ==> (#[trigger] plan@[k]).result() == done_line_text(
                    (first + k) as nat,
                ),
        decreases count - j,
    {
        let d = task_unit(first + j, delay_secs);
        plan.push(d);
        j = j + 1;
    }
    plan
}

/// What the join collector reports.
pub enum CollectResult {
    /// Every unit of work completed; `results` holds their values in
    /// submission order.
    Complete { results: Vec<String> },
    /// The unit at `failed_index` is the first that failed; `results`
    /// holds only the values of the units before it, and nothing at or
    /// after it is reported.
    Aborted { failed_index: usize, results: Vec<String> },
}

/// The collector's contract: how the report relates to the outcomes of
/// awaiting each handle, given in submission order (`None` standing for a
/// unit that failed or was cancelled).
pub open spec fn collect_post(outs: Seq<Option<String>>, r: CollectResult) -> bool {
    match r {
        CollectResult::Complete { results } => {
            &&& forall|k: int| 0 <= k < outs.len() ==> (#[trigger] outs[k]) is Some
            &&& results@.len() == outs.len()
            &&& forall|k: int|
                0 <= k < outs.len() ==> (#[trigger] results@[k])@ == outs[k].unwrap()@
        },
        CollectResult::Aborted { failed_index, results } => {
            &&& failed_index < outs.len()
            &&& outs[failed_index as int] is None
            &&& forall|j: int| 0 <= j < failed_index ==> (#[trigger] outs[j]) is Some
            &&& results@.len() == failed_index
            &&& forall|j: int|
                0 <= j < failed_index ==> (#[trigger] results@[j])@ == outs[j].unwrap()@
        },
    }
}

/// Retrieves the outcome of each unit of work in submission order,
/// regardless of the order in which the units completed. If every unit
/// completed, every value is reported, in submission order; otherwise
/// retrieval stops at the first failed unit and only the values before it
/// are reported.
pub fn collect_in_order(outcomes: &Vec<Option<String>>) -> (r: CollectResult)
    ensures
        collect_post(outcomes@, r),
{
    let mut results: Vec<String> = Vec::new();
    let mut i: usize = 0;
    while i < outcomes.len()
        invariant
            i <= outcomes@.len(),
            results@.len() == i,
            forall|j: int| 0 <= j < i ==> (#[trigger] outcomes@[j]) is Some,
            forall|j: int| 0 <= j < i ==> (#[trigger] results@[j])@ == outcomes@[j].unwrap()@,
        decreases outcomes@.len() - i,
    {
        match &outcomes[i] {
            Some(value) => {
                results.push(value.clone());
            },
            None => {
                return CollectResult::Aborted { failed_index: i, results };
            },
        }
        i = i + 1;
    }
    CollectResult::Complete { results }
}

/// If every submitted unit completed with its configured value — the done
/// line for its index — the collector reports exactly one value per unit,
/// in submission-index order, whatever order the units completed in.
pub proof fn lemma_collects_all_in_order(outs: Seq<Option<String>>, r: CollectResult, first: nat)
    requires
        collect_post(outs, r),
        forall|k: int| 0 <= k < outs.len() ==> (#[trigger] outs[k]) is Some,
        forall|k: int|
            0 <= k < outs.len() ==> (#[trigger] outs[k]).unwrap()@ == done_line_text(
                (first + k) as nat,
            ),
    ensures
        r is Complete,
        r->Complete_results@.len() == outs.len(),
        forall|k: int|
            0 <= k < outs.len() ==> (#[trigger] r->Complete_results@[k])@ == done_line_text(
                (first + k) as nat,
            ),
{
    match r {
        CollectResult::Complete { results } => {
        },
        CollectResult::Aborted { failed_index, results } => {
            assert(outs[failed_index as int] is Some);
            assert(false);
        },
    }
}

/// A failed unit is fatal: if the outcome at any index `k` is a failure,
/// the collector aborts, the first failure it stops at is no later than
/// `k`, and it reports exactly the values of the units before that first
/// failure — none at or after it.
pub proof fn lemma_failure_is_fatal(outs: Seq<Option<String>>, r: CollectResult, k: int)
    requires
        collect_post(outs, r),
        0 <= k < outs.len(),
        outs[k] is None,
    ensures
        r is Aborted,
        r->Aborted_failed_index <= k,
        r->Aborted_results@.len() == r->Aborted_failed_index,
        r->Aborted_results@.len() <= k,
{
    match r {
        CollectResult::Complete { results } => {
            assert(outs[k] is Some);
            assert(false);
        },
        CollectResult::Aborted { failed_index, results } => {
            if failed_index > k {
                assert(outs[k] is Some);
                assert(false);
            }
        },
    }
}

} // verus!
