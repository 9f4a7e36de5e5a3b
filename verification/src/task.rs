//! Tasks: a named piece of work with its history of entries. A task is
//! either running (its last entry is open) or stopped (all entries closed);
//! stopping and starting turn the one into the other.

use vstd::prelude::*;
use crate::entry::{CompletedTimeEntry, InvalidData, OngoingTimeEntry};
use crate::model::{
    in_order, is_infix, lemma_prefix_duration_bound, total_duration, RunningView, Span,
    StoppedView,
};
use crate::text::contains;
use crate::time::{Duration, Timestamp};

verus! {

/// The spans that a list of closed entries stands for.
pub open spec fn spans_of(entries: Seq<CompletedTimeEntry>) -> Seq<Span> {
    Seq::new(entries.len(), |i: int| entries[i]@)
}

/// What is wrong with a history of `history` followed by a last entry that
/// starts at `tail_start`, if anything: the order of the history is looked
/// at first.
pub open spec fn history_fault(history: Seq<Span>, tail_start: int) -> Option<InvalidData> {
    if !in_order(history) {
        Some(InvalidData::EntriesOutOfOrder)
    } else if history.len() > 0 && tail_start < history.last().end {
        Some(InvalidData::LastEntryTooEarly)
    } else {
        None
    }
}

/// Checks that `entries` are in order and followed by a last entry that
/// starts at `tail_start`.
fn check_history(entries: &Vec<CompletedTimeEntry>, tail_start: Timestamp) -> (r: Result<
    (),
    InvalidData,
>)
    ensures
        match history_fault(spans_of(entries@), tail_start@) {
            Some(fault) => r == Err::<(), InvalidData>(fault),
            None => r is Ok,
        },
{
    let ghost history = spans_of(entries@);
    let mut i: usize = 1;
    while i < entries.len()
        invariant
            1 <= i,
            history == spans_of(entries@),
            forall|a: int, b: int|
                0 <= a && b == a + 1 && b < i ==> (#[trigger] history[a]).end <= (
                #[trigger] history[b]).start,
        decreases entries.len() - i,
    {
        if !entries[i - 1].end().not_after(entries[i].start()) {
            assert(history[i - 1].end > history[i as int].start);
            return Err(InvalidData::EntriesOutOfOrder);
        }
        i += 1;
    }
    let n = entries.len();
    if n > 0 && !entries[n - 1].end().not_after(tail_start) {
        return Err(InvalidData::LastEntryTooEarly);
    }
    Ok(())
}

/// The sum of the durations of `entries`.
fn sum_durations(entries: &Vec<CompletedTimeEntry>) -> (sum: u128)
    requires
        forall|i: int| 0 <= i < entries.len() ==> (#[trigger] entries[i])@.wf(),
        in_order(spans_of(entries@)),
    ensures
        sum == total_duration(spans_of(entries@)),
{
    let ghost history = spans_of(entries@);
    let mut sum: u128 = 0;
    let mut i: usize = 0;
    while i < entries.len()
        invariant
            i <= entries.len(),
            history == spans_of(entries@),
            forall|k: int| 0 <= k < entries.len() ==> (#[trigger] entries[k])@.wf(),
            in_order(history),
            sum == total_duration(history.take(i as int)),
        decreases entries.len() - i,
    {
        proof {
            lemma_prefix_duration_bound(history, i as int);
            lemma_prefix_duration_bound(history, i + 1);
            assert(history.take(i + 1).drop_last() =~= history.take(i as int));
        }
        let d = entries[i].duration();
        sum = sum + d.nanos;
        i += 1;
    }
    proof {
        assert(history.take(i as int) =~= history);
    }
    sum
}

/// A task that is being worked on.
#[derive(Clone, Debug, PartialEq, Eq)]
pub struct RunningTask {
    name: String,
    entries: Vec<CompletedTimeEntry>,
    last_entry: OngoingTimeEntry,
}

/// A task that is not being worked on.
#[derive(Clone, Debug, PartialEq, Eq)]
pub struct StoppedTask {
    name: String,
    entries: Vec<CompletedTimeEntry>,
    last_entry: CompletedTimeEntry,
}

impl View for RunningTask {
    type V = RunningView;

    closed spec fn view(&self) -> RunningView {
        RunningView {
            name: self.name@,
            history: spans_of(self.entries@),
            since: self.last_entry@,
        }
    }
}

impl View for StoppedTask {
    type V = StoppedView;

    closed spec fn view(&self) -> StoppedView {
        StoppedView {
            name: self.name@,
            history: spans_of(self.entries@),
            last: self.last_entry@,
        }
    }
}

impl RunningTask {
    /// A new task called `name`, taken up at `now`.
    pub fn new(name: String, now: Timestamp) -> (task: RunningTask)
        ensures
            task@ == RunningView::fresh(name@, now@),
            task@.wf(),
    {
        let task = RunningTask { name, entries: Vec::new(), last_entry: OngoingTimeEntry::new(now) };
        assert(task@.history =~= Seq::empty());
        task
    }

    /// The running task with the given name, history and open entry, if
    /// the history is in order and the open entry starts after it.
    pub fn try_new(name: String, entries: Vec<CompletedTimeEntry>, last_entry: OngoingTimeEntry) -> (r:
        Result<RunningTask, InvalidData>)
        requires
            forall|i: int| 0 <= i < entries.len() ==> (#[trigger] entries[i])@.wf(),
        ensures
            match history_fault(spans_of(entries@), last_entry@) {
                Some(fault) => r == Err::<RunningTask, InvalidData>(fault),
                None => r is Ok && r->Ok_0@ == (RunningView {
                    name: name@,
                    history: spans_of(entries@),
                    since: last_entry@,
                }) && r->Ok_0@.wf(),
            },
    {
        match check_history(&entries, last_entry.start()) {
            Err(fault) => Err(fault),
            Ok(()) => {
                let task = RunningTask { name, entries, last_entry };
                Ok(task)
            },
        }
    }

    /// The task's name.
    pub fn name(&self) -> (name: &str)
        ensures
            name@ == self@.name,
    {
        self.name.as_str()
    }

    /// A copy of the task's name.
    pub fn name_owned(&self) -> (name: String)
        ensures
            name@ == self@.name,
    {
        self.name.clone()
    }

    /// The task's name, giving up the task.
    pub fn into_name(self) -> (name: String)
        ensures
            name@ == self@.name,
    {
        self.name
    }

    /// Whether the task is called exactly `name`.
    pub fn is_named(&self, name: &String) -> (b: bool)
        ensures
            b == (self@.name == name@),
    {
        self.name == *name
    }

    /// Whether the task has `query` somewhere in its name.
    pub fn name_contains(&self, query: &str) -> (b: bool)
        ensures
            b == is_infix(query@, self@.name),
    {
        contains(self.name.as_str(), query)
    }

    /// The closed entries of the task, oldest first.
    pub fn entries(&self) -> (entries: &Vec<CompletedTimeEntry>)
        ensures
            spans_of(entries@) == self@.history,
            self@.wf() ==> forall|i: int| 0 <= i < entries.len() ==> (#[trigger] entries[i])@.wf(),
    {
        proof {
            if self@.wf() {
                assert forall|i: int| 0 <= i < self.entries.len() implies (
                #[trigger] self.entries[i])@.wf() by {
                    assert(self@.history[i].wf());
                }
            }
        }
        &self.entries
    }

    /// The open entry of the task.
    pub fn last_entry(&self) -> (entry: OngoingTimeEntry)
        ensures
            entry@ == self@.since,
    {
        self.last_entry
    }

    /// When the task was last taken up.
    pub fn last_start_time(&self) -> (t: Timestamp)
        ensures
            t@ == self@.since,
    {
        self.last_entry.start()
    }

    /// Whether the task can be stopped at `now`.
    pub fn can_stop(&self, now: Timestamp) -> (b: bool)
        ensures
            b == self@.can_stop(now@),
    {
        self.last_start_time().not_after(now)
    }

    /// The task stopped at `now`.
    pub fn stop(self, now: Timestamp) -> (task: StoppedTask)
        requires
            self@.wf(),
            self@.can_stop(now@),
        ensures
            task@ == self@.stop(now@),
            task@.wf(),
    {
        StoppedTask {
            name: self.name,
            entries: self.entries,
            last_entry: self.last_entry.complete(now),
        }
    }

    /// The time spent on the task up to `now`.
    pub fn time_spent(&self, now: Timestamp) -> (d: Duration)
        requires
            self@.wf(),
            self@.can_stop(now@),
        ensures
            d@ == self@.time_spent(now@),
    {
        proof {
            assert forall|i: int| 0 <= i < self.entries.len() implies (
            #[trigger] self.entries[i])@.wf() by {
                assert(self@.history[i].wf());
            }
            lemma_prefix_duration_bound(self@.history, self@.history.len() as int);
            assert(self@.history.take(self@.history.len() as int) =~= self@.history);
        }
        let past = sum_durations(&self.entries);
        let open = self.last_entry.duration(now);
        Duration::from_nanos(past + open.nanos)
    }

    /// Gives the task the name `name` and returns the name it had.
    pub fn rename(&mut self, name: String) -> (old_name: String)
        ensures
            final(self)@ == old(self)@.renamed(name@),
            old_name@ == old(self)@.name,
    {
        let mut name = name;
        std::mem::swap(&mut self.name, &mut name);
        name
    }
}

impl StoppedTask {
    /// The stopped task with the given name, history and last entry, if
    /// the history is in order and the last entry starts after it.
    pub fn try_new(name: String, entries: Vec<CompletedTimeEntry>, last_entry: CompletedTimeEntry) -> (r:
        Result<StoppedTask, InvalidData>)
        requires
            forall|i: int| 0 <= i < entries.len() ==> (#[trigger] entries[i])@.wf(),
            last_entry@.wf(),
        ensures
            match history_fault(spans_of(entries@), last_entry@.start) {
                Some(fault) => r == Err::<StoppedTask, InvalidData>(fault),
                None => r is Ok && r->Ok_0@ == (StoppedView {
                    name: name@,
                    history: spans_of(entries@),
                    last: last_entry@,
                }) && r->Ok_0@.wf(),
            },
    {
        match check_history(&entries, last_entry.start()) {
            Err(fault) => Err(fault),
            Ok(()) => {
                let task = StoppedTask { name, entries, last_entry };
                Ok(task)
            },
        }
    }

    /// The task's name.
    pub fn name(&self) -> (name: &str)
        ensures
            name@ == self@.name,
    {
        self.name.as_str()
    }

    /// A copy of the task's name.
    pub fn name_owned(&self) -> (name: String)
        ensures
            name@ == self@.name,
    {
        self.name.clone()
    }

    /// The task's name, giving up the task.
    pub fn into_name(self) -> (name: String)
        ensures
            name@ == self@.name,
    {
        self.name
    }

    /// Whether the task is called exactly `name`.
    pub fn is_named(&self, name: &String) -> (b: bool)
        ensures
            b == (self@.name == name@),
    {
        self.name == *name
    }

    /// Whether the task has `query` somewhere in its name.
    pub fn name_contains(&self, query: &str) -> (b: bool)
        ensures
            b == is_infix(query@, self@.name),
    {
        contains(self.name.as_str(), query)
    }

    /// The closed entries of the task before its last one, oldest first.
    pub fn entries(&self) -> (entries: &Vec<CompletedTimeEntry>)
        ensures
            spans_of(entries@) == self@.history,
            self@.wf() ==> forall|i: int| 0 <= i < entries.len() ==> (#[trigger] entries[i])@.wf(),
    {
        proof {
            if self@.wf() {
                assert forall|i: int| 0 <= i < self.entries.len() implies (
                #[trigger] self.entries[i])@.wf() by {
                    assert(self@.history[i].wf());
                }
            }
        }
        &self.entries
    }

    /// The last entry of the task.
    pub fn last_entry(&self) -> (entry: CompletedTimeEntry)
        ensures
            entry@ == self@.last,
    {
        self.last_entry
    }

    /// When work on the task last ended.
    pub fn stop_time(&self) -> (t: Timestamp)
        ensures
            t@ == self@.stop_time(),
    {
        self.last_entry.end()
    }

    /// Whether the task can be taken up again at `now`.
    pub fn can_start(&self, now: Timestamp) -> (b: bool)
        ensures
            b == self@.can_start(now@),
    {
        self.stop_time().not_after(now)
    }

    /// The task taken up again at `now`.
    pub fn start(self, now: Timestamp) -> (task: RunningTask)
        requires
            self@.wf(),
            self@.can_start(now@),
        ensures
            task@ == self@.start(now@),
            task@.wf(),
    {
        let ghost before = self@;
        let mut entries = self.entries;
        entries.push(self.last_entry);
        let task = RunningTask { name: self.name, entries, last_entry: OngoingTimeEntry::new(now) };
        proof {
            assert(task@.history =~= before.history.push(before.last));
        }
        task
    }

    /// The time spent on the task.
    pub fn time_spent(&self) -> (d: Duration)
        requires
            self@.wf(),
        ensures
            d@ == self@.time_spent(),
    {
        proof {
            assert forall|i: int| 0 <= i < self.entries.len() implies (
            #[trigger] self.entries[i])@.wf() by {
                assert(self@.history[i].wf());
            }
            lemma_prefix_duration_bound(self@.history, self@.history.len() as int);
            assert(self@.history.take(self@.history.len() as int) =~= self@.history);
        }
        let past = sum_durations(&self.entries);
        let last = self.last_entry.duration();
        Duration::from_nanos(past + last.nanos)
    }

    /// Gives the task the name `name` and returns the name it had.
    pub fn rename(&mut self, name: String) -> (old_name: String)
        ensures
            final(self)@ == old(self)@.renamed(name@),
            old_name@ == old(self)@.name,
    {
        let mut name = name;
        std::mem::swap(&mut self.name, &mut name);
        name
    }
}

} // verus!
