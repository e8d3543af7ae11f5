//! What holds of batch mode across its operations: one job at a time, run over its files in
//! order, stopped by a cancel, locking the checks while it runs, and a report that outlives
//! the check boxes shown again.

use vstd::prelude::*;

use super::actions::{operation_of, Settings};
use super::messages::Message;
use super::actions::Operation;
use super::state::{
    after_message, all_pending, begun, current_of, finished, has_status, inverted, running,
    started, status_of, toggled, with_status, BatchView, ItemStatus, JobView,
};

verus! {

/// The state after `k` calls of `begin_next` from `v`.
pub open spec fn after_begins(v: BatchView, k: nat) -> BatchView
    decreases k,
{
    if k == 0 {
        v
    } else {
        begun(after_begins(v, (k - 1) as nat)).0
    }
}

/// Whether `x` is flipped an odd number of times by `ids`.
pub open spec fn flipped(ids: Seq<u64>, x: u64) -> bool
    decreases ids.len(),
{
    if ids.len() == 0 {
        false
    } else {
        flipped(ids.drop_last(), x) != (ids.last() == x)
    }
}

/// A file is checked after inverting `ids` when it was checked before or it was flipped an
/// odd number of times, but not both.
pub proof fn lemma_inverted_contains(s: Set<u64>, ids: Seq<u64>, x: u64)
    ensures
        inverted(s, ids).contains(x) == (s.contains(x) != flipped(ids, x)),
    decreases ids.len(),
{
    if ids.len() > 0 {
        lemma_inverted_contains(s, ids.drop_last(), x);
    }
}

/// While a job runs, every message but its own cancel leaves batch mode as it is: checks,
/// action, options and job are locked.
pub proof fn law_locked_while_running(v: BatchView, message: Message)
    requires
        running(v),
        !(message is Cancel),
    ensures
        super::state::after_message(v, message) == v,
{
}

/// One job at a time: while a job runs, starting another does nothing and says so.
pub proof fn law_one_job_at_a_time(v: BatchView, files: Seq<u64>, settings: Settings)
    requires
        running(v),
    ensures
        started(v, files, settings) == (v, false),
{
}

/// A job that starts runs its files in the order it was given them, each with the operation
/// it started with, and ends after the last one.
pub proof fn law_files_run_in_order(v: BatchView, files: Seq<u64>, settings: Settings, k: nat)
    requires
        started(v, files, settings).1,
        k <= files.len(),
    ensures
        k < files.len() ==> begun(after_begins(started(v, files, settings).0, k)).1 == Some(
            (files[k as int], operation_of(v.actions, v.action, settings).unwrap()),
        ),
        k == files.len() ==> begun(after_begins(started(v, files, settings).0, k)).1 is None,
        k == files.len() ==> !running(begun(after_begins(started(v, files, settings).0, k)).0),
{
    lemma_begins_walk(v, files, settings, k);
}

/// After `k` starts of files, the job stands at its `k`th file, still running.
proof fn lemma_begins_walk(v: BatchView, files: Seq<u64>, settings: Settings, k: nat)
    requires
        started(v, files, settings).1,
        k <= files.len(),
    ensures
        ({
            let s = after_begins(started(v, files, settings).0, k);
            &&& s.job matches Some(j)
            &&& j.next == k
            &&& j.running
            &&& !j.cancelled
            &&& j.order == files
            &&& j.operation == operation_of(v.actions, v.action, settings).unwrap()
        }),
    decreases k,
{
    if k > 0 {
        lemma_begins_walk(v, files, settings, (k - 1) as nat);
    }
}

/// The state after `outcomes.len()` rounds from `v`: each round starts the next file with
/// `begin_next` and, when a file was started, records `outcomes[i]` for it with `finish`.
pub open spec fn after_rounds(v: BatchView, outcomes: Seq<ItemStatus>) -> BatchView
    decreases outcomes.len(),
{
    if outcomes.len() == 0 {
        v
    } else {
        let (s, next) = begun(after_rounds(v, outcomes.drop_last()));
        match next {
            Some((id, _)) => finished(s, id, outcomes.last()),
            None => s,
        }
    }
}

/// How many of `outcomes` are `s`.
pub open spec fn count_of(outcomes: Seq<ItemStatus>, s: ItemStatus) -> nat
    decreases outcomes.len(),
{
    if outcomes.len() == 0 {
        0
    } else {
        count_of(outcomes.drop_last(), s) + if outcomes.last() == s {
            1nat
        } else {
            0nat
        }
    }
}

/// Whether `s` is how a file can end: done, skipped or failed.
pub open spec fn is_outcome(s: ItemStatus) -> bool {
    s is Done || s is Skipped || s is Failed
}

/// What the job panel reports of `v`: a job over `total` files whose done, skipped and
/// failed files are as many as `outcomes` holds of each.
pub open spec fn reports(v: BatchView, total: nat, outcomes: Seq<ItemStatus>) -> bool {
    v.job matches Some(j) && {
        &&& j.order.len() == total
        &&& forall|s: ItemStatus| is_outcome(s) ==> #[trigger] with_status(j.statuses, s).len() == count_of(outcomes, s)
    }
}

/// Where a job stands after some rounds: at its `k`th file, still running, every earlier file
/// with the status recorded for it, every later one pending.
pub open spec fn job_at(s: BatchView, files: Seq<u64>, operation: Operation, outcomes: Seq<ItemStatus>) -> bool {
    let k = outcomes.len();
    s.job matches Some(j) && {
        &&& j.next == k
        &&& j.running
        &&& !j.cancelled
        &&& j.order == files
        &&& j.operation == operation
        &&& j.dismissed == Set::<u64>::empty()
        &&& forall|i: int| 0 <= i < files.len() ==> j.statuses.contains_key(#[trigger] files[i])
        &&& forall|i: int| 0 <= i < k ==> j.statuses[#[trigger] files[i]] == outcomes[i]
        &&& forall|i: int| k <= i < files.len() ==> j.statuses[#[trigger] files[i]] == ItemStatus::Pending
        &&& forall|st: ItemStatus| is_outcome(st) ==> (#[trigger] with_status(j.statuses, st)).finite()
            && with_status(j.statuses, st).len() == count_of(outcomes, st)
    }
}

/// Starting a pending file and recording `o` for it adds it to the files with status `o` and
/// to no others.
proof fn lemma_record(m: Map<u64, ItemStatus>, id: u64, o: ItemStatus, st: ItemStatus)
    requires
        m.contains_key(id),
        m[id] == ItemStatus::Pending,
        is_outcome(st),
        with_status(m, st).finite(),
    ensures
        with_status(m.insert(id, ItemStatus::Running).insert(id, o), st).finite(),
        with_status(m.insert(id, ItemStatus::Running).insert(id, o), st).len() == with_status(m, st).len()
            + if o == st {
            1nat
        } else {
            0nat
        },
{
    let m2 = m.insert(id, ItemStatus::Running).insert(id, o);
    if o == st {
        assert(with_status(m2, st) =~= with_status(m, st).insert(id));
    } else {
        assert(with_status(m2, st) =~= with_status(m, st));
    }
}

/// Each round of a job started over distinct files starts its next file and records the
/// outcome given for it.
proof fn lemma_rounds_walk(v: BatchView, files: Seq<u64>, settings: Settings, outcomes: Seq<ItemStatus>)
    requires
        started(v, files, settings).1,
        files.no_duplicates(),
        outcomes.len() <= files.len(),
    ensures
        job_at(
            after_rounds(started(v, files, settings).0, outcomes),
            files,
            operation_of(v.actions, v.action, settings).unwrap(),
            outcomes,
        ),
    decreases outcomes.len(),
{
    let v0 = started(v, files, settings).0;
    let op = operation_of(v.actions, v.action, settings).unwrap();
    if outcomes.len() == 0 {
        let m = all_pending(files);
        assert forall|st: ItemStatus| is_outcome(st) implies (#[trigger] with_status(m, st)).finite()
            && with_status(m, st).len() == count_of(outcomes, st) by {
            assert(with_status(m, st) =~= Set::<u64>::empty());
        }
        assert forall|i: int| 0 <= i < files.len() implies m.contains_key(#[trigger] files[i]) by {
            assert(files.contains(files[i]));
        }
    } else {
        let before = outcomes.drop_last();
        lemma_rounds_walk(v, files, settings, before);
        let prev = after_rounds(v0, before);
        let k = outcomes.len() - 1;
        let j = prev.job.unwrap();
        let m = j.statuses;
        let id = files[k];
        let o = outcomes.last();
        assert(begun(prev).1 == Some((id, op)));
        let m2 = m.insert(id, ItemStatus::Running).insert(id, o);
        let now = after_rounds(v0, outcomes);
        assert(now.job == Some(JobView { next: (k + 1) as nat, statuses: m2, ..j }));
        assert forall|st: ItemStatus| is_outcome(st) implies (#[trigger] with_status(m2, st)).finite()
            && with_status(m2, st).len() == count_of(outcomes, st) by {
            lemma_record(m, id, o, st);
        }
        assert forall|i: int| 0 <= i < outcomes.len() implies m2[#[trigger] files[i]] == outcomes[i] by {
            if i < k {
                assert(files[i] != files[k]);
                assert(before[i] == outcomes[i]);
            }
        }
        assert forall|i: int| outcomes.len() <= i < files.len() implies m2[#[trigger] files[i]]
            == ItemStatus::Pending by {
            assert(files[i] != files[k]);
        }
    }
}

/// A job started over distinct files hands them out in order, one after each recorded
/// outcome, each with the operation it started with, and ends after the last one. While it
/// runs, the file handed out is the one marked running and the one it works on, and every
/// earlier file keeps the status recorded for it.
pub proof fn law_job_runs_in_order_across_finishes(
    v: BatchView,
    files: Seq<u64>,
    settings: Settings,
    outcomes: Seq<ItemStatus>,
)
    requires
        started(v, files, settings).1,
        files.no_duplicates(),
        outcomes.len() <= files.len(),
        forall|i: int| 0 <= i < outcomes.len() ==> #[trigger] outcomes[i] != ItemStatus::Running,
    ensures
        ({
            let s = after_rounds(started(v, files, settings).0, outcomes);
            let k = outcomes.len() as int;
            &&& k < files.len() ==> {
                &&& begun(s).1 == Some((files[k], operation_of(v.actions, v.action, settings).unwrap()))
                &&& status_of(begun(s).0, files[k]) == Some(ItemStatus::Running)
                &&& current_of(begun(s).0) == Some(files[k])
            }
            &&& k == files.len() ==> begun(s).1 is None && !running(begun(s).0)
            &&& forall|i: int| 0 <= i < k ==> status_of(s, #[trigger] files[i]) == Some(outcomes[i])
        }),
{
    lemma_rounds_walk(v, files, settings, outcomes);
    let s = after_rounds(started(v, files, settings).0, outcomes);
    let k = outcomes.len() as int;
    let j = s.job.unwrap();
    if k < files.len() {
        let b = begun(s).0;
        let jb = b.job.unwrap();
        let mb = jb.statuses;
        assert(mb == j.statuses.insert(files[k], ItemStatus::Running));
        assert forall|i: int| 0 <= i < files.len() && has_status(mb, #[trigger] files[i], ItemStatus::Running)
            implies i == k by {
            if i != k {
                assert(files[i] != files[k]);
                if i < k {
                    assert(outcomes[i] != ItemStatus::Running);
                }
            }
        }
        assert(has_status(mb, jb.order[k], ItemStatus::Running));
        assert(forall|q: int| 0 <= q < k ==> !has_status(mb, #[trigger] jb.order[q], ItemStatus::Running));
        let c = choose|i: int|
            0 <= i < jb.order.len() && has_status(mb, jb.order[i], ItemStatus::Running)
                && forall|q: int| 0 <= q < i ==> !has_status(mb, jb.order[q], ItemStatus::Running);
        assert(has_status(mb, files[c], ItemStatus::Running));
    }
}

/// A cancel between rounds of such a job lets no other file start: the job ends at the next
/// step, the files it did keep their outcomes, and the rest stay pending.
pub proof fn law_cancel_leaves_the_rest_pending(
    v: BatchView,
    files: Seq<u64>,
    settings: Settings,
    outcomes: Seq<ItemStatus>,
)
    requires
        started(v, files, settings).1,
        files.no_duplicates(),
        outcomes.len() <= files.len(),
    ensures
        ({
            let c = after_message(after_rounds(started(v, files, settings).0, outcomes), Message::Cancel);
            let k = outcomes.len() as int;
            &&& begun(c).1 is None
            &&& !running(begun(c).0)
            &&& forall|i: int| 0 <= i < k ==> status_of(begun(c).0, #[trigger] files[i]) == Some(outcomes[i])
            &&& forall|i: int| k <= i < files.len() ==> status_of(begun(c).0, #[trigger] files[i])
                == Some(ItemStatus::Pending)
        }),
{
    lemma_rounds_walk(v, files, settings, outcomes);
}

/// The job panel's counts follow the outcomes recorded over the job: as many files done,
/// skipped and failed as were recorded so, no more of them than the job has files, while it
/// runs, once it has ended after its last file, and once a cancel has stopped it.
pub proof fn law_progress_counts_the_outcomes(
    v: BatchView,
    files: Seq<u64>,
    settings: Settings,
    outcomes: Seq<ItemStatus>,
)
    requires
        started(v, files, settings).1,
        files.no_duplicates(),
        outcomes.len() <= files.len(),
    ensures
        ({
            let s = after_rounds(started(v, files, settings).0, outcomes);
            let n = files.len();
            &&& reports(s, n, outcomes) && running(s)
            &&& outcomes.len() == n ==> reports(begun(s).0, n, outcomes) && !running(begun(s).0)
            &&& reports(begun(after_message(s, Message::Cancel)).0, n, outcomes)
            &&& count_of(outcomes, ItemStatus::Done) + count_of(outcomes, ItemStatus::Skipped)
                + count_of(outcomes, ItemStatus::Failed) <= n
        }),
{
    lemma_rounds_walk(v, files, settings, outcomes);
    lemma_counts_fit(outcomes);
}

/// No more of `outcomes` are done, skipped or failed than `outcomes` has.
proof fn lemma_counts_fit(outcomes: Seq<ItemStatus>)
    ensures
        count_of(outcomes, ItemStatus::Done) + count_of(outcomes, ItemStatus::Skipped)
            + count_of(outcomes, ItemStatus::Failed) <= outcomes.len(),
    decreases outcomes.len(),
{
    if outcomes.len() > 0 {
        lemma_counts_fit(outcomes.drop_last());
    }
}

/// A cancelled job starts no other file and ends at the next step, whatever was left.
pub proof fn law_cancel_stops_the_job(v: BatchView)
    requires
        v.job is Some,
    ensures
        begun(super::state::after_message(v, Message::Cancel)).1 is None,
        !running(begun(super::state::after_message(v, Message::Cancel)).0),
{
}

/// Recording how a file went changes only its status: the job stays where it was.
pub proof fn law_finish_records_only_the_status(v: BatchView, id: u64, status: ItemStatus)
    requires
        v.job is Some,
    ensures
        finished(v, id, status).job matches Some(j) && j == (JobView {
            statuses: v.job.unwrap().statuses.insert(id, status),
            ..v.job.unwrap()
        }),
        finished(v, id, status).checked == v.checked,
{
}

/// Toggling a file twice, with no job running, gives back the checks as they were.
pub proof fn law_toggle_twice(v: BatchView, id: u64)
    requires
        !running(v),
    ensures
        super::state::after_message(
            super::state::after_message(v, Message::Toggle(id)),
            Message::Toggle(id),
        ).checked == v.checked,
{
    let once = super::state::after_message(v, Message::Toggle(id));
    assert(!running(once));
    assert(toggled(toggled(v.checked, id), id) =~= v.checked);
}

/// Inverting the same files twice gives back the checks as they were.
pub proof fn law_invert_twice(s: Set<u64>, ids: Seq<u64>)
    ensures
        inverted(inverted(s, ids), ids) == s,
{
    assert forall|x: u64| inverted(inverted(s, ids), ids).contains(x) == s.contains(x) by {
        lemma_inverted_contains(inverted(s, ids), ids, x);
        lemma_inverted_contains(s, ids, x);
    }
    assert(inverted(inverted(s, ids), ids) =~= s);
}

/// Unchecking or checking a file of a finished job shows its check box again, while the
/// report keeps counting it: no status of the job changes.
pub proof fn law_recheck_keeps_the_report(v: BatchView, id: u64)
    requires
        v.job matches Some(j) && !j.running,
    ensures
        status_of(super::state::after_message(v, Message::Toggle(id)), id) is None,
        super::state::after_message(v, Message::Toggle(id)).job matches Some(j) && {
            &&& j.statuses == v.job.unwrap().statuses
            &&& j.order == v.job.unwrap().order
        },
{
}

/// Closing the report of a finished job forgets it.
pub proof fn law_close_report(v: BatchView)
    requires
        !running(v),
    ensures
        super::state::after_message(v, Message::CloseReport).job is None,
{
}

} // verus!
