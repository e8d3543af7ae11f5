//! State for batch mode: the checked files, the chosen action, and the job running it.

use std::collections::{HashMap, HashSet};

use vstd::prelude::*;

use super::actions::{
    action_of, actions_after, initial_actions, operation_of, prepared, Action, Actions, ActionsView,
    MetadataStorage, Operation, Settings,
};
use super::messages::Message;

verus! {

broadcast use vstd::std_specs::hash::group_hash_axioms;

/// Where one file of a job stands.
#[derive(Debug, Clone, Copy, PartialEq, Eq, Structural)]
pub enum ItemStatus {
    /// Not reached yet; after a cancel, never reached.
    Pending,
    Running,
    /// Changed.
    Done,
    /// Nothing to do for this file.
    Skipped,
    /// Could not be done; the details are in the log.
    Failed,
}

/// How far a job is, for the job panel.
#[derive(Debug, Clone, Copy, PartialEq, Eq, Structural)]
pub struct Progress {
    pub total: usize,
    /// Files finished, whatever their outcome.
    pub finished: usize,
    pub done: usize,
    pub skipped: usize,
    pub failed: usize,
    pub running: bool,
    pub cancelled: bool,
}

/// One run of an operation over the files checked when it started, as a model.
pub struct JobView {
    pub operation: Operation,
    /// Files in the order they are processed.
    pub order: Seq<u64>,
    pub statuses: Map<u64, ItemStatus>,
    /// Index into `order` of the next file to start.
    pub next: nat,
    pub cancelled: bool,
    /// False once the job has finished or stopped; the report stays until it is closed.
    pub running: bool,
    /// Files whose check changed after the job: the list shows their check box again, while
    /// the report still counts them.
    pub dismissed: Set<u64>,
}

/// Batch mode, as a model.
pub struct BatchView {
    /// Whether the right half shows the batch panel instead of the open file.
    pub active: bool,
    pub action: Action,
    pub actions: ActionsView,
    pub checked: Set<u64>,
    pub job: Option<JobView>,
}

/// Whether a job is running.
pub open spec fn running(v: BatchView) -> bool {
    v.job matches Some(j) && j.running
}

/// `s` with `id` added when it was not in it, and taken out when it was.
pub open spec fn toggled(s: Set<u64>, id: u64) -> Set<u64> {
    if s.contains(id) {
        s.remove(id)
    } else {
        s.insert(id)
    }
}

/// `s` with the check of each of `ids` flipped in turn.
pub open spec fn inverted(s: Set<u64>, ids: Seq<u64>) -> Set<u64>
    decreases ids.len(),
{
    if ids.len() == 0 {
        s
    } else {
        toggled(inverted(s, ids.drop_last()), ids.last())
    }
}

/// The job with `ids` dismissed: their check boxes show again.
pub open spec fn dismissed(job: Option<JobView>, ids: Set<u64>) -> Option<JobView> {
    match job {
        Some(j) => Some(JobView { dismissed: j.dismissed.union(ids), ..j }),
        None => None,
    }
}

/// Batch mode after `message`. Nothing changes under a running job but its own cancel.
pub open spec fn after_message(v: BatchView, message: Message) -> BatchView {
    if running(v) && !(message is Cancel) {
        v
    } else {
        match message {
            Message::SetActive(active) => BatchView { active, ..v },
            Message::SelectAction(action) => BatchView { action, ..v },
            Message::Action(m) => BatchView { actions: actions_after(v.actions, m), ..v },
            Message::Prepare { operation, files } => BatchView {
                actions: prepared(v.actions, operation),
                action: action_of(operation),
                active: true,
                job: None,
                checked: files@.to_set(),
            },
            Message::Toggle(id) => BatchView {
                job: dismissed(v.job, set![id]),
                checked: toggled(v.checked, id),
                ..v
            },
            Message::CheckAll(ids) => BatchView {
                job: dismissed(v.job, ids@.to_set()),
                checked: v.checked.union(ids@.to_set()),
                ..v
            },
            Message::CheckNone => BatchView {
                job: dismissed(v.job, v.checked),
                checked: Set::empty(),
                ..v
            },
            Message::Invert(ids) => BatchView {
                job: dismissed(v.job, ids@.to_set()),
                checked: inverted(v.checked, ids@),
                ..v
            },
            Message::Cancel => BatchView {
                job: match v.job {
                    Some(j) => Some(JobView { cancelled: true, ..j }),
                    None => None,
                },
                ..v
            },
            Message::CloseReport => BatchView { job: None, ..v },
            Message::Run | Message::OpenLog => v,
        }
    }
}

/// Every file of `files` pending.
pub open spec fn all_pending(files: Seq<u64>) -> Map<u64, ItemStatus> {
    Map::new(|id: u64| files.contains(id), |id: u64| ItemStatus::Pending)
}

/// What `start(files, settings)` does: a new job of the selected action over `files`, unless
/// there are no files, the action cannot run, or a job is running.
pub open spec fn started(v: BatchView, files: Seq<u64>, settings: Settings) -> (BatchView, bool) {
    match operation_of(v.actions, v.action, settings) {
        Some(operation) => if files.len() > 0 && !running(v) {
            (
                BatchView {
                    job: Some(
                        JobView {
                            operation,
                            order: files,
                            statuses: all_pending(files),
                            next: 0,
                            cancelled: false,
                            running: true,
                            dismissed: Set::empty(),
                        },
                    ),
                    ..v
                },
                true,
            )
        } else {
            (v, false)
        },
        None => (v, false),
    }
}

/// What `begin_next` does: the next file of a running job is marked running and returned with
/// the operation; a cancelled job, or one with no files left, ends instead.
pub open spec fn begun(v: BatchView) -> (BatchView, Option<(u64, Operation)>) {
    match v.job {
        Some(j) => if !j.running {
            (v, None)
        } else if j.next < j.order.len() && !j.cancelled {
            let id = j.order[j.next as int];
            (
                BatchView {
                    job: Some(
                        JobView {
                            next: j.next + 1,
                            statuses: j.statuses.insert(id, ItemStatus::Running),
                            ..j
                        },
                    ),
                    ..v
                },
                Some((id, j.operation)),
            )
        } else {
            (BatchView { job: Some(JobView { running: false, ..j }), ..v }, None)
        },
        None => (v, None),
    }
}

/// What `finish(id, status)` does: the job records the file's status.
pub open spec fn finished(v: BatchView, id: u64, status: ItemStatus) -> BatchView {
    match v.job {
        Some(j) => BatchView {
            job: Some(JobView { statuses: j.statuses.insert(id, status), ..j }),
            ..v
        },
        None => v,
    }
}

/// Where `id` stands in the job, if it is part of it and its check has not changed since.
pub open spec fn status_of(v: BatchView, id: u64) -> Option<ItemStatus> {
    match v.job {
        Some(j) => if !j.dismissed.contains(id) && j.statuses.contains_key(id) {
            Some(j.statuses[id])
        } else {
            None
        },
        None => None,
    }
}

/// Whether `id` has status `s` in `statuses`.
pub open spec fn has_status(statuses: Map<u64, ItemStatus>, id: u64, s: ItemStatus) -> bool {
    statuses.contains_key(id) && statuses[id] == s
}

/// The files with status `s`.
pub open spec fn with_status(statuses: Map<u64, ItemStatus>, s: ItemStatus) -> Set<u64> {
    statuses.dom().filter(|id: u64| statuses[id] == s)
}

/// The files of `order` with status `s`, in order.
pub open spec fn in_order_with(order: Seq<u64>, statuses: Map<u64, ItemStatus>, s: ItemStatus) -> Seq<u64>
    decreases order.len(),
{
    if order.len() == 0 {
        Seq::empty()
    } else {
        let before = in_order_with(order.drop_last(), statuses, s);
        if has_status(statuses, order.last(), s) {
            before.push(order.last())
        } else {
            before
        }
    }
}

/// The file the job is working on: the first of its order marked running.
pub open spec fn current_of(v: BatchView) -> Option<u64> {
    match v.job {
        Some(j) => if j.running && exists|i: int|
            0 <= i < j.order.len() && has_status(j.statuses, j.order[i], ItemStatus::Running) {
            let i = choose|i: int|
                0 <= i < j.order.len() && has_status(j.statuses, j.order[i], ItemStatus::Running)
                    && forall|k: int| 0 <= k < i ==> !has_status(j.statuses, j.order[k], ItemStatus::Running);
            Some(j.order[i])
        } else {
            None
        },
        None => None,
    }
}

/// One run of an operation over the files checked when it started.
#[derive(Debug)]
struct Job {
    operation: Operation,
    order: Vec<u64>,
    statuses: HashMap<u64, ItemStatus>,
    next: usize,
    cancelled: bool,
    running: bool,
    dismissed: HashSet<u64>,
}

impl Job {
    spec fn model(self) -> JobView {
        JobView {
            operation: self.operation,
            order: self.order@,
            statuses: self.statuses@,
            next: self.next as nat,
            cancelled: self.cancelled,
            running: self.running,
            dismissed: self.dismissed@,
        }
    }
}

/// Batch mode state.
#[derive(Debug)]
pub struct BatchState {
    active: bool,
    action: Action,
    /// The options of every action.
    actions: Actions,
    checked: HashSet<u64>,
    job: Option<Job>,
}

impl View for BatchState {
    type V = BatchView;

    closed spec fn view(&self) -> BatchView {
        BatchView {
            active: self.active,
            action: self.action,
            actions: self.actions@,
            checked: self.checked@,
            job: match self.job {
                Some(j) => Some(j.model()),
                None => None,
            },
        }
    }
}

/// The number of files in `statuses` with status `s`.
fn count_status(statuses: &HashMap<u64, ItemStatus>, s: ItemStatus) -> (n: usize)
    ensures
        n == with_status(statuses@, s).len(),
        with_status(statuses@, s).finite(),
{
    let size = statuses.len();
    let ghost m = statuses@;
    let ghost mut seen: Set<u64> = Set::empty();
    let mut n: usize = 0;
    proof {
        assert(seen.filter(|id: u64| m[id] == s) =~= Set::<u64>::empty());
    }
    for kv in it: statuses.iter()
        invariant
            size == m.dom().len(),
            m == statuses@,
            m.dom().finite(),
            it.seq().len() == m.dom().len(),
            it.seq().no_duplicates(),
            forall|i: int| #![trigger it.seq()[i]]
                0 <= i < it.seq().len() ==> m.contains_key(*it.seq()[i].0) && m[*it.seq()[i].0] == *it.seq()[i].1,
            seen.finite(),
            seen.subset_of(m.dom()),
            seen.len() == it.index(),
            forall|k: u64| #[trigger] seen.contains(k) ==> exists|i: int|
                0 <= i < it.index() && *it.seq()[i].0 == k,
            n == seen.filter(|id: u64| m[id] == s).len(),
            seen.filter(|id: u64| m[id] == s).finite(),
            n <= it.index(),
    {
        let (k, v) = kv;
        proof {
            let i = it.index();
            assert(it.seq()[i] == kv);
            assert(!seen.contains(*k)) by {
                if seen.contains(*k) {
                    let j = choose|j: int| 0 <= j < i && *it.seq()[j].0 == *k;
                    assert(m[*it.seq()[j].0] == *it.seq()[j].1);
                    assert(it.seq()[j] == it.seq()[i]);
                }
            }
            let old_seen = seen;
            seen = seen.insert(*k);
            assert forall|x: u64| #[trigger] seen.contains(x) implies exists|j: int|
                0 <= j < i + 1 && *it.seq()[j].0 == x by {
                if x == *k {
                    assert(*it.seq()[i].0 == x);
                } else {
                    let j = choose|j: int| 0 <= j < i && *it.seq()[j].0 == x;
                    assert(0 <= j < i + 1 && *it.seq()[j].0 == x);
                }
            }
            if *v == s {
                assert(seen.filter(|id: u64| m[id] == s) =~= old_seen.filter(|id: u64| m[id] == s).insert(*k));
            } else {
                assert(seen.filter(|id: u64| m[id] == s) =~= old_seen.filter(|id: u64| m[id] == s));
            }
        }
        if *v == s {
            n = n + 1;
        }
    }
    proof {
        vstd::set_lib::lemma_subset_equality(seen, m.dom());
        assert(seen.filter(|id: u64| m[id] == s) =~= with_status(m, s));
    }
    n
}

impl BatchState {
    /// Batch mode off, moving comments, nothing checked; the moves start from the storage the
    /// settings chose.
    pub fn new(storage: MetadataStorage) -> (state: Self)
        ensures
            !state@.active,
            state@.action == Action::MoveComments,
            state@.actions == initial_actions(storage),
            state@.checked == Set::<u64>::empty(),
            state@.job is None,
    {
        BatchState {
            active: false,
            action: Action::MoveComments,
            actions: Actions::new(storage),
            checked: HashSet::new(),
            job: None,
        }
    }

    /// Apply a message. `Run` is started by the workspace through [`Self::start`].
    pub fn update(&mut self, message: Message)
        ensures
            final(self)@ == after_message(old(self)@, message),
    {
        // Nothing changes under a running job but its own cancel.
        let is_cancel = match message {
            Message::Cancel => true,
            _ => false,
        };
        if self.is_running() && !is_cancel {
            return;
        }
        match message {
            Message::SetActive(active) => self.active = active,
            Message::SelectAction(action) => self.action = action,
            Message::Action(message) => self.actions.update(message),
            Message::Prepare { operation, files } => {
                self.actions.prepare(operation);
                self.action = operation.action();
                self.active = true;
                self.job = None;
                self.checked = HashSet::new();
                let mut i: usize = 0;
                proof {
                    assert(files@.take(0).to_set() =~= Set::<u64>::empty());
                }
                while i < files.len()
                    invariant
                        i <= files@.len(),
                        self.checked@ == files@.take(i as int).to_set(),
                        self@.job is None,
                        self@.active,
                        self@.action == action_of(operation),
                        self@.actions == prepared(old(self)@.actions, operation),
                    decreases files@.len() - i,
                {
                    self.checked.insert(files[i]);
                    proof {
                        lemma_take_to_set_step(files@, i as int);
                    }
                    i = i + 1;
                }
                proof {
                    assert(files@.take(files@.len() as int) =~= files@);
                }
            },
            Message::Toggle(id) => {
                self.dismiss_one(id);
                let ghost before = self.checked@;
                if !self.checked.remove(&id) {
                    self.checked.insert(id);
                    assert(self.checked@ =~= before.insert(id));
                }
            },
            Message::CheckAll(ids) => {
                self.dismiss(&ids);
                let ghost start = self.checked@;
                let mut i: usize = 0;
                proof {
                    assert(ids@.take(0).to_set() =~= Set::<u64>::empty());
                    assert(start.union(ids@.take(0).to_set()) =~= start);
                }
                while i < ids.len()
                    invariant
                        i <= ids@.len(),
                        self.checked@ == start.union(ids@.take(i as int).to_set()),
                        self@.job == dismissed(old(self)@.job, ids@.to_set()),
                        self@.active == old(self)@.active,
                        self@.action == old(self)@.action,
                        self@.actions == old(self)@.actions,
                    decreases ids@.len() - i,
                {
                    self.checked.insert(ids[i]);
                    proof {
                        lemma_take_to_set_step(ids@, i as int);
                        assert(start.union(ids@.take(i + 1).to_set()) =~= start.union(
                            ids@.take(i as int).to_set(),
                        ).insert(ids@[i as int]));
                    }
                    i = i + 1;
                }
                proof {
                    assert(ids@.take(ids@.len() as int) =~= ids@);
                }
            },
            Message::CheckNone => {
                self.dismiss_checked();
                self.checked.clear();
            },
            Message::Invert(ids) => {
                self.dismiss(&ids);
                let ghost start = self.checked@;
                let mut i: usize = 0;
                proof {
                    assert(ids@.take(0).to_set() =~= Set::<u64>::empty());
                    assert(start.union(ids@.take(0).to_set()) =~= start);
                }
                while i < ids.len()
                    invariant
                        i <= ids@.len(),
                        self.checked@ == inverted(start, ids@.take(i as int)),
                        self@.job == dismissed(old(self)@.job, ids@.to_set()),
                        self@.active == old(self)@.active,
                        self@.action == old(self)@.action,
                        self@.actions == old(self)@.actions,
                    decreases ids@.len() - i,
                {
                    let id = ids[i];
                    let ghost before = self.checked@;
                    if !self.checked.remove(&id) {
                        self.checked.insert(id);
                        assert(self.checked@ =~= before.insert(id));
                    }
                    proof {
                        assert(ids@.take(i + 1).drop_last() =~= ids@.take(i as int));
                    }
                    i = i + 1;
                }
                proof {
                    assert(ids@.take(ids@.len() as int) =~= ids@);
                }
            },
            Message::Cancel => {
                if let Some(mut job) = self.job.take() {
                    job.cancelled = true;
                    self.job = Some(job);
                }
            },
            Message::CloseReport => self.job = None,
            Message::Run | Message::OpenLog => {},
        }
    }

    /// Start the selected action on `files` (the checked ones, in list order), with the
    /// settings it reads. Returns false when there is nothing to run: no files, an action that
    /// is not available, or a job already running.
    pub fn start(&mut self, files: Vec<u64>, settings: Settings) -> (started_job: bool)
        ensures
            (final(self)@, started_job) == started(old(self)@, files@, settings),
    {
        let operation = match self.operation(settings) {
            Some(operation) => operation,
            None => return false,
        };
        if files.len() == 0 || self.is_running() {
            return false;
        }
        let mut statuses: HashMap<u64, ItemStatus> = HashMap::new();
        let mut i: usize = 0;
        while i < files.len()
            invariant
                i <= files@.len(),
                statuses@ == all_pending(files@.take(i as int)),
            decreases files@.len() - i,
        {
            statuses.insert(files[i], ItemStatus::Pending);
            proof {
                lemma_take_to_set_step(files@, i as int);
                assert(statuses@ =~= all_pending(files@.take(i + 1))) by {
                    assert forall|k: u64| files@.take(i + 1).contains(k) <==> (files@.take(i as int).contains(k) || k == files@[i as int]) by {
                        assert(files@.take(i + 1).to_set().contains(k) == files@.take(i + 1).contains(k));
                        assert(files@.take(i as int).to_set().contains(k) == files@.take(i as int).contains(k));
                    }
                }
            }
            i = i + 1;
        }
        proof {
            assert(files@.take(files@.len() as int) =~= files@);
        }
        self.job = Some(
            Job {
                operation,
                order: files,
                statuses,
                next: 0,
                cancelled: false,
                running: true,
                dismissed: HashSet::new(),
            },
        );
        true
    }

    /// Mark the next file running and return it with the operation, or end the job when it is
    /// cancelled or has no files left (`None`).
    pub fn begin_next(&mut self) -> (next: Option<(u64, Operation)>)
        ensures
            (final(self)@, next) == begun(old(self)@),
    {
        let mut job = match self.job.take() {
            Some(job) => job,
            None => return None,
        };
        if !job.running {
            self.job = Some(job);
            return None;
        }
        if job.next < job.order.len() && !job.cancelled {
            let id = job.order[job.next];
            job.next = job.next + 1;
            job.statuses.insert(id, ItemStatus::Running);
            let operation = job.operation;
            self.job = Some(job);
            Some((id, operation))
        } else {
            job.running = false;
            self.job = Some(job);
            None
        }
    }

    /// Record how a file of the job went.
    pub fn finish(&mut self, id: u64, status: ItemStatus)
        ensures
            final(self)@ == finished(old(self)@, id, status),
    {
        if let Some(mut job) = self.job.take() {
            job.statuses.insert(id, status);
            self.job = Some(job);
        }
    }

    /// Show the check box of `id` again instead of its outcome in the finished job.
    fn dismiss_one(&mut self, id: u64)
        ensures
            final(self)@ == (BatchView { job: dismissed(old(self)@.job, set![id]), ..old(self)@ }),
    {
        if let Some(mut job) = self.job.take() {
            job.dismissed.insert(id);
            self.job = Some(job);
            proof {
                assert(old(self)@.job.unwrap().dismissed.union(set![id]) =~= old(self)@.job.unwrap().dismissed.insert(id));
            }
        }
    }

    /// Show the check boxes of `ids` again instead of their outcome in the finished job.
    fn dismiss(&mut self, ids: &Vec<u64>)
        ensures
            final(self)@ == (BatchView { job: dismissed(old(self)@.job, ids@.to_set()), ..old(self)@ }),
    {
        if let Some(mut job) = self.job.take() {
            let ghost start = job.dismissed@;
            let mut i: usize = 0;
            while i < ids.len()
                invariant
                    i <= ids@.len(),
                    job.dismissed@ == start.union(ids@.take(i as int).to_set()),
                    job.operation == old(self).job.unwrap().operation,
                    job.order == old(self).job.unwrap().order,
                    job.statuses == old(self).job.unwrap().statuses,
                    job.next == old(self).job.unwrap().next,
                    job.cancelled == old(self).job.unwrap().cancelled,
                    job.running == old(self).job.unwrap().running,
                decreases ids@.len() - i,
            {
                job.dismissed.insert(ids[i]);
                proof {
                    lemma_take_to_set_step(ids@, i as int);
                    assert(start.union(ids@.take(i + 1).to_set()) =~= start.union(
                        ids@.take(i as int).to_set(),
                    ).insert(ids@[i as int]));
                }
                i = i + 1;
            }
            proof {
                assert(ids@.take(ids@.len() as int) =~= ids@);
            }
            self.job = Some(job);
        }
    }

    /// Show the check boxes of every checked file again.
    fn dismiss_checked(&mut self)
        ensures
            final(self)@ == (BatchView { job: dismissed(old(self)@.job, old(self)@.checked), ..old(self)@ }),
    {
        if let Some(mut job) = self.job.take() {
            let ghost start = job.dismissed@;
            let ghost checked = self.checked@;
            let ghost mut seen: Set<u64> = Set::empty();
            for id in it: self.checked.iter()
                invariant
                    checked == self.checked@,
                    checked.finite(),
                    it.seq().len() == checked.len(),
                    it.seq().no_duplicates(),
                    it.seq().unref().to_set() == checked,
                    seen.finite(),
                    seen.subset_of(checked),
                    seen.len() == it.index(),
                    forall|k: u64| #[trigger] seen.contains(k) ==> exists|i: int|
                        0 <= i < it.index() && *it.seq()[i] == k,
                    job.dismissed@ == start.union(seen),
                    job.operation == old(self).job.unwrap().operation,
                    job.order == old(self).job.unwrap().order,
                    job.statuses == old(self).job.unwrap().statuses,
                    job.next == old(self).job.unwrap().next,
                    job.cancelled == old(self).job.unwrap().cancelled,
                    job.running == old(self).job.unwrap().running,
            {
                proof {
                    let i = it.index();
                    assert(it.seq()[i] == id);
                    assert(it.seq().unref()[i] == *id);
                    assert(it.seq().unref().to_set().contains(*id));
                    assert(!seen.contains(*id)) by {
                        if seen.contains(*id) {
                            let j = choose|j: int| 0 <= j < i && *it.seq()[j] == *id;
                            assert(it.seq()[j] == it.seq()[i]);
                        }
                    }
                    let old_seen = seen;
                    seen = seen.insert(*id);
                    assert forall|x: u64| #[trigger] seen.contains(x) implies exists|j: int|
                        0 <= j < i + 1 && *it.seq()[j] == x by {
                        if x == *id {
                            assert(*it.seq()[i] == x);
                        } else {
                            let j = choose|j: int| 0 <= j < i && *it.seq()[j] == x;
                            assert(0 <= j < i + 1 && *it.seq()[j] == x);
                        }
                    }
                    assert(start.union(seen) =~= start.union(old_seen).insert(*id));
                }
                job.dismissed.insert(*id);
            }
            proof {
                vstd::set_lib::lemma_subset_equality(seen, checked);
            }
            self.job = Some(job);
        }
    }

    /// Forget the checks and the job: they belong to the folder that was open.
    pub fn reset_files(&mut self)
        ensures
            final(self)@ == (BatchView { checked: Set::empty(), job: None, ..old(self)@ }),
    {
        self.checked.clear();
        self.job = None;
    }

    /// Whether the right half shows the batch panel instead of the open file.
    pub fn is_active(&self) -> (active: bool)
        ensures
            active == self@.active,
    {
        self.active
    }

    /// Whether a job is running; the folder and its files are locked meanwhile.
    pub fn is_running(&self) -> (is_running: bool)
        ensures
            is_running == running(self@),
    {
        match &self.job {
            Some(job) => job.running,
            None => false,
        }
    }

    pub fn action(&self) -> (action: Action)
        ensures
            action == self@.action,
    {
        self.action
    }

    /// The options of every action, for the selected action's panel.
    pub fn actions(&self) -> (actions: &Actions)
        ensures
            actions@ == self@.actions,
    {
        &self.actions
    }

    /// What the selected action would do with its options and `settings`; `None` when it
    /// cannot run.
    pub fn operation(&self, settings: Settings) -> (operation: Option<Operation>)
        ensures
            operation == operation_of(self@.actions, self@.action, settings),
    {
        self.actions.operation(self.action, settings)
    }

    pub fn is_checked(&self, id: u64) -> (checked: bool)
        ensures
            checked == self@.checked.contains(id),
    {
        self.checked.contains(&id)
    }

    /// The checked files among `files` (the folder's, in folder order), in that order: the
    /// files a job runs over.
    pub fn checked_in_order(&self, files: &[u64]) -> (ordered: Vec<u64>)
        ensures
            ordered@ == files@.filter(|id: u64| self@.checked.contains(id)),
    {
        let mut ordered: Vec<u64> = Vec::new();
        let mut i: usize = 0;
        while i < files.len()
            invariant
                i <= files@.len(),
                ordered@ == files@.take(i as int).filter(|id: u64| self@.checked.contains(id)),
            decreases files@.len() - i,
        {
            proof {
                files@.take(i as int).lemma_filter_push(files@[i as int], |id: u64| self@.checked.contains(id));
                assert(files@.take(i + 1) =~= files@.take(i as int).push(files@[i as int]));
            }
            if self.checked.contains(&files[i]) {
                ordered.push(files[i]);
            }
            i = i + 1;
        }
        proof {
            assert(files@.take(files@.len() as int) =~= files@);
        }
        ordered
    }

    /// The header check box over the `listed` files: unchecks every file when all listed ones
    /// are checked, and checks the listed ones otherwise.
    pub fn toggle_all(&self, listed: Vec<u64>) -> (message: Message)
        ensures
            (listed@.len() > 0 && forall|i: int| 0 <= i < listed@.len() ==> self@.checked.contains(listed@[i]))
                ==> message is CheckNone,
            !(listed@.len() > 0 && forall|i: int| 0 <= i < listed@.len() ==> self@.checked.contains(listed@[i]))
                ==> (message matches Message::CheckAll(ids) && ids@ == listed@),
    {
        let mut all_checked = listed.len() > 0;
        let mut i: usize = 0;
        while i < listed.len()
            invariant
                i <= listed@.len(),
                all_checked == (listed@.len() > 0 && forall|j: int| 0 <= j < i ==> self@.checked.contains(listed@[j])),
            decreases listed@.len() - i,
        {
            if !self.checked.contains(&listed[i]) {
                all_checked = false;
            }
            i = i + 1;
        }
        if all_checked {
            Message::CheckNone
        } else {
            Message::CheckAll(listed)
        }
    }

    pub fn checked_count(&self) -> (count: usize)
        ensures
            count == self@.checked.len(),
    {
        self.checked.len()
    }

    /// Where a file stands in the current job, if it is part of one and its check has not
    /// changed since.
    pub fn status(&self, id: u64) -> (status: Option<ItemStatus>)
        ensures
            status == status_of(self@, id),
    {
        match &self.job {
            Some(job) => {
                if job.dismissed.contains(&id) {
                    None
                } else {
                    match job.statuses.get(&id) {
                        Some(s) => Some(*s),
                        None => None,
                    }
                }
            },
            None => None,
        }
    }

    /// The file the job is working on.
    pub fn current(&self) -> (current: Option<u64>)
        ensures
            current == current_of(self@),
    {
        let job = match &self.job {
            Some(job) => job,
            None => return None,
        };
        if !job.running {
            return None;
        }
        let ghost j = job.model();
        let mut i: usize = 0;
        while i < job.order.len()
            invariant
                j == job.model(),
                self@.job == Some(j),
                j.running,
                i <= j.order.len(),
                forall|k: int| 0 <= k < i ==> !has_status(j.statuses, j.order[k], ItemStatus::Running),
            decreases j.order.len() - i,
        {
            let id = job.order[i];
            let is_running = match job.statuses.get(&id) {
                Some(s) => *s == ItemStatus::Running,
                None => false,
            };
            if is_running {
                proof {
                    assert(0 <= i < j.order.len() && has_status(j.statuses, j.order[i as int], ItemStatus::Running));
                    let w = choose|w: int|
                        0 <= w < j.order.len() && has_status(j.statuses, j.order[w], ItemStatus::Running)
                            && forall|k: int| 0 <= k < w ==> !has_status(j.statuses, j.order[k], ItemStatus::Running);
                    assert(0 <= i < j.order.len() && has_status(j.statuses, j.order[i as int], ItemStatus::Running));
                    if w < i {
                        assert(!has_status(j.statuses, j.order[w], ItemStatus::Running));
                    } else if w > i {
                        assert(!has_status(j.statuses, j.order[i as int], ItemStatus::Running));
                    }
                }
                return Some(id);
            }
            i = i + 1;
        }
        None
    }

    /// Files of the current job that failed, in job order.
    pub fn failed(&self) -> (failed: Vec<u64>)
        ensures
            failed@ == (match self@.job {
                Some(j) => in_order_with(j.order, j.statuses, ItemStatus::Failed),
                None => Seq::empty(),
            }),
    {
        let mut failed: Vec<u64> = Vec::new();
        let job = match &self.job {
            Some(job) => job,
            None => return failed,
        };
        let ghost j = job.model();
        let mut i: usize = 0;
        while i < job.order.len()
            invariant
                j == job.model(),
                i <= j.order.len(),
                failed@ == in_order_with(j.order.take(i as int), j.statuses, ItemStatus::Failed),
            decreases j.order.len() - i,
        {
            let id = job.order[i];
            let is_failed = match job.statuses.get(&id) {
                Some(s) => *s == ItemStatus::Failed,
                None => false,
            };
            proof {
                assert(j.order.take(i + 1).drop_last() =~= j.order.take(i as int));
            }
            if is_failed {
                failed.push(id);
            }
            i = i + 1;
        }
        proof {
            assert(j.order.take(j.order.len() as int) =~= j.order);
        }
        failed
    }

    /// How far the current job is; `None` without one.
    pub fn progress(&self) -> (progress: Option<Progress>)
        ensures
            match self@.job {
                None => progress is None,
                Some(j) => progress matches Some(p) && {
                    &&& p.total == j.order.len()
                    &&& p.done == with_status(j.statuses, ItemStatus::Done).len()
                    &&& p.skipped == with_status(j.statuses, ItemStatus::Skipped).len()
                    &&& p.failed == with_status(j.statuses, ItemStatus::Failed).len()
                    &&& p.finished == p.done + p.skipped + p.failed
                    &&& p.running == j.running
                    &&& p.cancelled == j.cancelled
                },
            },
    {
        let job = match &self.job {
            Some(job) => job,
            None => return None,
        };
        let size = job.statuses.len();
        let done = count_status(&job.statuses, ItemStatus::Done);
        let skipped = count_status(&job.statuses, ItemStatus::Skipped);
        let failed = count_status(&job.statuses, ItemStatus::Failed);
        proof {
            lemma_three_statuses_fit(job.statuses@);
        }
        Some(
            Progress {
                total: job.order.len(),
                finished: done + skipped + failed,
                done,
                skipped,
                failed,
                running: job.running,
                cancelled: job.cancelled,
            },
        )
    }
}

/// The set of the first `i + 1` items is that of the first `i` with item `i` added.
pub proof fn lemma_take_to_set_step(s: Seq<u64>, i: int)
    requires
        0 <= i < s.len(),
    ensures
        s.take(i + 1).to_set() == s.take(i).to_set().insert(s[i]),
{
    assert forall|x: u64| s.take(i + 1).to_set().contains(x) <==> s.take(i).to_set().insert(s[i]).contains(x) by {
        if s.take(i + 1).contains(x) {
            let j = choose|j: int| 0 <= j < i + 1 && #[trigger] s.take(i + 1)[j] == x;
            if j < i {
                assert(s.take(i)[j] == x);
            }
        }
        if s.take(i).contains(x) {
            let j = choose|j: int| 0 <= j < i && #[trigger] s.take(i)[j] == x;
            assert(s.take(i + 1)[j] == x);
        }
        if x == s[i] {
            assert(s.take(i + 1)[i] == x);
        }
    }
    assert(s.take(i + 1).to_set() =~= s.take(i).to_set().insert(s[i]));
}

/// The files done, skipped and failed together are no more than the files with a status.
proof fn lemma_three_statuses_fit(m: Map<u64, ItemStatus>)
    requires
        m.dom().finite(),
    ensures
        with_status(m, ItemStatus::Done).len() + with_status(m, ItemStatus::Skipped).len()
            + with_status(m, ItemStatus::Failed).len() <= m.dom().len(),
{
    let d = with_status(m, ItemStatus::Done);
    let s = with_status(m, ItemStatus::Skipped);
    let f = with_status(m, ItemStatus::Failed);
    vstd::set_lib::lemma_len_subset(d, m.dom());
    vstd::set_lib::lemma_len_subset(s, m.dom());
    vstd::set_lib::lemma_len_subset(f, m.dom());
    assert(d.disjoint(s));
    vstd::set_lib::lemma_set_disjoint_lens(d, s);
    assert((d + s).disjoint(f));
    vstd::set_lib::lemma_set_disjoint_lens(d + s, f);
    vstd::set_lib::lemma_len_subset(d + s + f, m.dom());
}

} // verus!
