//! The mathematical model of the tracker: what an entry, a task and a task
//! collection are, and what each operation makes of a collection.
//!
//! Instants are integers (nanoseconds from the Unix epoch), names are
//! sequences of characters. The executable types of this crate have these
//! values as their views, and the contracts of their methods are stated here.

use vstd::prelude::*;

verus! {

/// Whether `needle` occurs in `hay` as a contiguous run of characters.
pub open spec fn is_infix(needle: Seq<char>, hay: Seq<char>) -> bool {
    exists|at: int| occurs_at(needle, hay, at)
}

/// Whether `needle` occurs in `hay` starting at position `at`.
pub open spec fn occurs_at(needle: Seq<char>, hay: Seq<char>, at: int) -> bool {
    &&& 0 <= at
    &&& at + needle.len() <= hay.len()
    &&& hay.subrange(at, at + needle.len()) == needle
}

/// Whether `t` is an instant that a 64-bit count of nanoseconds can hold.
pub open spec fn is_instant(t: int) -> bool {
    i64::MIN <= t <= i64::MAX
}

/// A closed stretch of work: it began at `start` and ended at `end`.
pub struct Span {
    pub start: int,
    pub end: int,
}

impl Span {
    /// Start and end are instants, and the span does not end before it starts.
    pub open spec fn wf(self) -> bool {
        &&& is_instant(self.start)
        &&& is_instant(self.end)
        &&& self.start <= self.end
    }

    /// The time between start and end.
    pub open spec fn duration(self) -> nat {
        (self.end - self.start) as nat
    }
}

/// The sum of the durations of `spans`.
pub open spec fn total_duration(spans: Seq<Span>) -> nat
    decreases spans.len(),
{
    if spans.len() == 0 {
        0
    } else {
        total_duration(spans.drop_last()) + spans.last().duration()
    }
}

/// Each span of `spans` ends no later than the next one starts.
pub open spec fn in_order(spans: Seq<Span>) -> bool {
    forall|i: int, j: int|
        0 <= i && j == i + 1 && j < spans.len() ==> (#[trigger] spans[i]).end <= (
        #[trigger] spans[j]).start
}

/// A history of closed spans followed by a tail that starts at `tail_start`:
/// every span is well formed, the spans are in order, and the tail starts
/// no earlier than the last span ends.
pub open spec fn history_wf(history: Seq<Span>, tail_start: int) -> bool {
    &&& forall|i: int| 0 <= i < history.len() ==> (#[trigger] history[i]).wf()
    &&& in_order(history)
    &&& history.len() > 0 ==> history.last().end <= tail_start
}

/// A task that is not being worked on: its most recent entry is closed.
pub struct StoppedView {
    pub name: Seq<char>,
    pub history: Seq<Span>,
    pub last: Span,
}

/// A task that is being worked on since the instant `since`.
pub struct RunningView {
    pub name: Seq<char>,
    pub history: Seq<Span>,
    pub since: int,
}

impl StoppedView {
    /// The last entry is a span, the history is well formed, and the last
    /// entry starts no earlier than the history ends.
    pub open spec fn wf(self) -> bool {
        &&& self.last.wf()
        &&& history_wf(self.history, self.last.start)
    }

    /// The instant at which work on the task last ended.
    pub open spec fn stop_time(self) -> int {
        self.last.end
    }

    /// A stopped task can be taken up again at its stop time or later.
    pub open spec fn can_start(self, now: int) -> bool {
        self.stop_time() <= now
    }

    /// The task taken up again at `now`: the last entry joins the history.
    pub open spec fn start(self, now: int) -> RunningView {
        RunningView { name: self.name, history: self.history.push(self.last), since: now }
    }

    /// The time spent on the task over all of its entries.
    pub open spec fn time_spent(self) -> nat {
        total_duration(self.history) + self.last.duration()
    }

    /// The task under the name `name`.
    pub open spec fn renamed(self, name: Seq<char>) -> StoppedView {
        StoppedView { name, ..self }
    }
}

impl RunningView {
    /// The history is well formed, and the open entry starts at an instant
    /// no earlier than the history ends.
    pub open spec fn wf(self) -> bool {
        &&& is_instant(self.since)
        &&& history_wf(self.history, self.since)
    }

    /// A task with no history, taken up at `now`.
    pub open spec fn fresh(name: Seq<char>, now: int) -> RunningView {
        RunningView { name, history: Seq::empty(), since: now }
    }

    /// A running task can be stopped at the start of its open entry or later.
    pub open spec fn can_stop(self, end: int) -> bool {
        self.since <= end
    }

    /// The task stopped at `end`: the open entry is closed there.
    pub open spec fn stop(self, end: int) -> StoppedView {
        StoppedView {
            name: self.name,
            history: self.history,
            last: Span { start: self.since, end },
        }
    }

    /// The time spent on the task up to `now`.
    pub open spec fn time_spent(self, now: int) -> nat {
        total_duration(self.history) + (now - self.since) as nat
    }

    /// The task under the name `name`.
    pub open spec fn renamed(self, name: Seq<char>) -> RunningView {
        RunningView { name, ..self }
    }
}

/// Why an operation on a task collection did nothing.
pub enum Failure {
    TaskAlreadyRunning(Seq<char>),
    TaskNotRunning,
    NoTasksFound,
    TaskNotFound(Seq<char>),
    TaskAlreadyExists(Seq<char>),
    MultipleTasksFound,
    InvalidStopTime,
    InvalidStartTime,
}

impl Failure {
    /// The failure in words, on one line.
    pub open spec fn message_text(self) -> Seq<char> {
        match self {
            Failure::TaskAlreadyRunning(name) => "Task '"@ + name + "' is already running"@,
            Failure::TaskNotRunning => "No task is currently running"@,
            Failure::NoTasksFound => "No tasks found"@,
            Failure::TaskNotFound(name) => "Task '"@ + name + "' not found"@,
            Failure::TaskAlreadyExists(name) => "Task '"@ + name + "' already exists"@,
            Failure::MultipleTasksFound => "Task name is ambiguous"@,
            Failure::InvalidStopTime =>
                "Invalid stop time. Must not be in the future or before the task's last start time"@,
            Failure::InvalidStartTime =>
                "Invalid start time. Must not be after the task's stop time"@,
        }
    }
}

/// What a query for one stopped task finds.
pub enum Lookup {
    /// No stopped task matches.
    Missing,
    /// Exactly one stopped task matches: the one at this index.
    Found(int),
    /// Two or more stopped tasks match.
    Ambiguous,
}

/// A collection's next state together with the name that the operation reports.
pub struct Step {
    pub next: ManagerView,
    pub name: Seq<char>,
}

/// The tasks of one day: the stopped ones in a list to whose end a task
/// goes when it is stopped, and the one that is running, if any.
pub struct ManagerView {
    pub stopped: Seq<StoppedView>,
    pub running: Option<RunningView>,
}

impl ManagerView {
    /// Every task of the collection is well formed.
    pub open spec fn wf(self) -> bool {
        &&& forall|i: int| 0 <= i < self.stopped.len() ==> (#[trigger] self.stopped[i]).wf()
        &&& self.running matches Some(task) ==> task.wf()
    }

    /// The collection without tasks.
    pub open spec fn empty() -> ManagerView {
        ManagerView { stopped: Seq::empty(), running: None }
    }

    /// Whether some stopped task is called exactly `name`.
    pub open spec fn has_stopped(self, name: Seq<char>) -> bool {
        exists|i: int| 0 <= i < self.stopped.len() && (#[trigger] self.stopped[i]).name == name
    }

    /// Whether the stopped task at `i` has `query` in its name.
    pub open spec fn matches_at(self, query: Seq<char>, i: int) -> bool {
        0 <= i < self.stopped.len() && is_infix(query, self.stopped[i].name)
    }

    /// The stopped task that has `query` in its name, if there is exactly one.
    pub open spec fn lookup(self, query: Seq<char>) -> Lookup {
        if exists|i: int, j: int|
            i != j && #[trigger] self.matches_at(query, i) && #[trigger] self.matches_at(query, j) {
            Lookup::Ambiguous
        } else if exists|i: int| self.matches_at(query, i) {
            Lookup::Found(choose|i: int| self.matches_at(query, i))
        } else {
            Lookup::Missing
        }
    }

    /// Whether the running task has `query` in its name.
    pub open spec fn running_matches(self, query: Seq<char>) -> bool {
        self.running matches Some(task) && is_infix(query, task.name)
    }

    /// A new task `name` is taken up at `now`.
    pub open spec fn start_new_task(self, name: Seq<char>, now: int) -> Result<Step, Failure> {
        if let Some(task) = self.running {
            Err(Failure::TaskAlreadyRunning(task.name))
        } else if self.has_stopped(name) {
            Err(Failure::TaskAlreadyExists(name))
        } else {
            Ok(self.with_new(name, now))
        }
    }

    /// The collection with a fresh task `name` as its running task.
    pub open spec fn with_new(self, name: Seq<char>, now: int) -> Step {
        Step {
            next: ManagerView { running: Some(RunningView::fresh(name, now)), ..self },
            name,
        }
    }

    /// The running task is stopped at `end`.
    pub open spec fn stop_running_task_with_time(self, end: int) -> Result<Step, Failure> {
        match self.running {
            None => Err(Failure::TaskNotRunning),
            Some(task) => if task.can_stop(end) {
                Ok(
                    Step {
                        next: ManagerView {
                            stopped: self.stopped.push(task.stop(end)),
                            running: None,
                        },
                        name: task.name,
                    },
                )
            } else {
                Err(Failure::InvalidStopTime)
            },
        }
    }

    /// The running task is stopped `duration` after it was taken up, which
    /// must not be later than `now`.
    pub open spec fn stop_running_task_with_duration(self, duration: nat, now: int) -> Result<
        Step,
        Failure,
    > {
        match self.running {
            None => Err(Failure::TaskNotRunning),
            Some(task) => if task.since + duration <= now {
                self.stop_running_task_with_time(task.since + duration)
            } else {
                Err(Failure::InvalidStopTime)
            },
        }
    }

    /// The stopped task at `index` leaves the list and runs from `now`.
    pub open spec fn with_resumed(self, index: int, now: int) -> Step {
        Step {
            next: ManagerView {
                stopped: self.stopped.remove(index),
                running: Some(self.stopped[index].start(now)),
            },
            name: self.stopped[index].name,
        }
    }

    /// The stopped task at `index` is taken up at `now`, if it had stopped by then.
    pub open spec fn resume_at(self, index: int, now: int) -> Result<Step, Failure> {
        if self.stopped[index].can_start(now) {
            Ok(self.with_resumed(index, now))
        } else {
            Err(Failure::InvalidStartTime)
        }
    }

    /// The task that was stopped last is taken up again at `now`.
    pub open spec fn resume_last_task(self, now: int) -> Result<Step, Failure> {
        if let Some(task) = self.running {
            Err(Failure::TaskAlreadyRunning(task.name))
        } else if self.stopped.len() == 0 {
            Err(Failure::NoTasksFound)
        } else {
            self.resume_at(self.stopped.len() - 1, now)
        }
    }

    /// The one stopped task with `query` in its name is taken up again at `now`.
    pub open spec fn resume_task(self, query: Seq<char>, now: int) -> Result<Step, Failure> {
        if let Some(task) = self.running {
            Err(Failure::TaskAlreadyRunning(task.name))
        } else {
            match self.lookup(query) {
                Lookup::Ambiguous => Err(Failure::MultipleTasksFound),
                Lookup::Missing => Err(Failure::TaskNotFound(query)),
                Lookup::Found(index) => self.resume_at(index, now),
            }
        }
    }

    /// The running task is stopped at `now` and a new task `name` taken up.
    pub open spec fn switch_new_task(self, name: Seq<char>, now: int) -> Result<Step, Failure> {
        if self.has_stopped(name) {
            Err(Failure::TaskAlreadyExists(name))
        } else {
            match self.stop_running_task_with_time(now) {
                Err(failure) => Err(failure),
                Ok(step) => Ok(step.next.with_new(name, now)),
            }
        }
    }

    /// The running task is stopped at `now` and the stopped task at `index`,
    /// which must have stopped by then, is taken up in its place.
    pub open spec fn switch_to(self, index: int, now: int) -> Result<Step, Failure> {
        if !self.stopped[index].can_start(now) {
            Err(Failure::InvalidStartTime)
        } else {
            match self.stop_running_task_with_time(now) {
                Err(failure) => Err(failure),
                Ok(step) => Ok(step.next.with_resumed(index, now)),
            }
        }
    }

    /// The running task is stopped at `now` and the task that was stopped
    /// last before that is taken up again.
    pub open spec fn switch_last_task(self, now: int) -> Result<Step, Failure> {
        if self.stopped.len() == 0 {
            Err(Failure::NoTasksFound)
        } else {
            self.switch_to(self.stopped.len() - 1, now)
        }
    }

    /// The running task is stopped at `now` and the one stopped task with
    /// `query` in its name is taken up again.
    pub open spec fn switch_task(self, query: Seq<char>, now: int) -> Result<Step, Failure> {
        match self.lookup(query) {
            Lookup::Ambiguous => Err(Failure::MultipleTasksFound),
            Lookup::Missing => Err(Failure::TaskNotFound(query)),
            Lookup::Found(index) => self.switch_to(index, now),
        }
    }

    /// The one task with `query` in its name, stopped or running, is removed.
    pub open spec fn delete_task(self, query: Seq<char>) -> Result<Step, Failure> {
        match self.lookup(query) {
            Lookup::Ambiguous => Err(Failure::MultipleTasksFound),
            Lookup::Missing => match self.running {
                Some(task) if is_infix(query, task.name) => Ok(
                    Step { next: ManagerView { running: None, ..self }, name: task.name },
                ),
                _ => Err(Failure::TaskNotFound(query)),
            },
            Lookup::Found(index) => if self.running_matches(query) {
                Err(Failure::MultipleTasksFound)
            } else {
                Ok(
                    Step {
                        next: ManagerView { stopped: self.stopped.remove(index), ..self },
                        name: self.stopped[index].name,
                    },
                )
            },
        }
    }

    /// The one task with `query` in its name, stopped or running, is given
    /// the name `new_name`. The step reports the name it had before.
    pub open spec fn rename_task(self, query: Seq<char>, new_name: Seq<char>) -> Result<
        Step,
        Failure,
    > {
        match self.lookup(query) {
            Lookup::Ambiguous => Err(Failure::MultipleTasksFound),
            Lookup::Missing => match self.running {
                Some(task) if is_infix(query, task.name) => Ok(
                    Step {
                        next: ManagerView { running: Some(task.renamed(new_name)), ..self },
                        name: task.name,
                    },
                ),
                _ => Err(Failure::TaskNotFound(query)),
            },
            Lookup::Found(index) => if self.running_matches(query) {
                Err(Failure::MultipleTasksFound)
            } else {
                Ok(
                    Step {
                        next: ManagerView {
                            stopped: self.stopped.update(
                                index,
                                self.stopped[index].renamed(new_name),
                            ),
                            ..self
                        },
                        name: self.stopped[index].name,
                    },
                )
            },
        }
    }

    /// The names of the stopped tasks in list order, then that of the running task.
    pub open spec fn list_tasks(self) -> Seq<Seq<char>> {
        let stopped = Seq::new(self.stopped.len(), |i: int| self.stopped[i].name);
        match self.running {
            Some(task) => stopped.push(task.name),
            None => stopped,
        }
    }
}


/// In a well-formed history the durations of the first `k` spans add up to
/// no more than the time from the start of the first to the end of the
/// `k`-th, so the sum fits in 64 bits.
pub proof fn lemma_prefix_duration_bound(history: Seq<Span>, k: int)
    requires
        forall|i: int| 0 <= i < history.len() ==> (#[trigger] history[i]).wf(),
        in_order(history),
        0 <= k <= history.len(),
    ensures
        total_duration(history.take(k)) <= u64::MAX,
        k > 0 ==> total_duration(history.take(k)) <= history[k - 1].end - history[0].start,
        k == 0 ==> total_duration(history.take(k)) == 0,
    decreases k,
{
    if k > 0 {
        lemma_prefix_duration_bound(history, k - 1);
        assert(history.take(k).drop_last() =~= history.take(k - 1));
    }
}

/// The time spent on a well-formed stopped task fits in 64 bits.
pub proof fn lemma_stopped_time_bound(task: StoppedView)
    requires
        task.wf(),
    ensures
        task.time_spent() <= u64::MAX,
{
    let n = task.history.len() as int;
    lemma_prefix_duration_bound(task.history, n);
    assert(task.history.take(n) =~= task.history);
}

/// The time spent on a well-formed running task up to an instant at which
/// it can be stopped fits in 64 bits.
pub proof fn lemma_running_time_bound(task: RunningView, now: int)
    requires
        task.wf(),
        task.can_stop(now),
        is_instant(now),
    ensures
        task.time_spent(now) <= u64::MAX,
{
    let n = task.history.len() as int;
    lemma_prefix_duration_bound(task.history, n);
    assert(task.history.take(n) =~= task.history);
}

} // verus!
