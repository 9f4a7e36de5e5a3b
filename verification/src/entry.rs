//! Time entries: one contiguous stretch of work on a task, closed or still open.

use vstd::prelude::*;
use crate::model::Span;
use crate::time::{Duration, Timestamp};

verus! {

/// Why stored data is not a valid entry or task.
#[derive(Clone, Copy, Debug, PartialEq, Eq)]
pub enum InvalidData {
    /// An entry ends before it starts.
    EndBeforeStart,
    /// An entry of the history starts before the one in front of it ends.
    EntriesOutOfOrder,
    /// The last entry starts before the history ends.
    LastEntryTooEarly,
}

impl InvalidData {
    /// The text of `message` for each kind.
    pub open spec fn message_text(self) -> Seq<char> {
        match self {
            InvalidData::EndBeforeStart => "Start time must be before end time"@,
            InvalidData::EntriesOutOfOrder => "entries must be in chronological order"@,
            InvalidData::LastEntryTooEarly =>
                "last_entry must be after the end of the last segment"@,
        }
    }

    /// A one-line description of what is wrong.
    pub fn message(&self) -> (text: &'static str)
        ensures
            text@ == self.message_text(),
    {
        match self {
            InvalidData::EndBeforeStart => "Start time must be before end time",
            InvalidData::EntriesOutOfOrder => "entries must be in chronological order",
            InvalidData::LastEntryTooEarly =>
                "last_entry must be after the end of the last segment",
        }
    }
}

/// An entry for work that has ended. It never ends before it starts.
#[derive(Clone, Copy, Debug, PartialEq, Eq)]
pub struct CompletedTimeEntry {
    start: Timestamp,
    end: Timestamp,
}

impl View for CompletedTimeEntry {
    type V = Span;

    closed spec fn view(&self) -> Span {
        Span { start: self.start@, end: self.end@ }
    }
}

impl CompletedTimeEntry {
    /// The entry from `start` to `end`.
    pub fn new(start: Timestamp, end: Timestamp) -> (entry: CompletedTimeEntry)
        requires
            start@ <= end@,
        ensures
            entry@ == (Span { start: start@, end: end@ }),
            entry@.wf(),
    {
        CompletedTimeEntry { start, end }
    }

    /// The entry from `start` to `end`, unless `end` lies before `start`.
    pub fn try_new(start: Timestamp, end: Timestamp) -> (r: Result<CompletedTimeEntry, InvalidData>)
        ensures
            start@ <= end@ ==> r is Ok && r->Ok_0@ == (Span { start: start@, end: end@ })
                && r->Ok_0@.wf(),
            start@ > end@ ==> r == Err::<CompletedTimeEntry, InvalidData>(
                InvalidData::EndBeforeStart,
            ),
    {
        if start.not_after(end) {
            Ok(CompletedTimeEntry { start, end })
        } else {
            Err(InvalidData::EndBeforeStart)
        }
    }

    /// When the work began.
    pub fn start(&self) -> (t: Timestamp)
        ensures
            t@ == self@.start,
    {
        self.start
    }

    /// When the work ended.
    pub fn end(&self) -> (t: Timestamp)
        ensures
            t@ == self@.end,
    {
        self.end
    }

    /// How long the work took.
    pub fn duration(&self) -> (d: Duration)
        requires
            self@.wf(),
        ensures
            d@ == self@.duration(),
    {
        self.end.duration_since(self.start)
    }
}

/// An entry for work that is still going on. Its view is the instant at
/// which the work began.
#[derive(Clone, Copy, Debug, PartialEq, Eq)]
pub struct OngoingTimeEntry {
    start: Timestamp,
}

impl View for OngoingTimeEntry {
    type V = int;

    closed spec fn view(&self) -> int {
        self.start@
    }
}

impl OngoingTimeEntry {
    /// An entry for work that begins at `start`.
    pub fn new(start: Timestamp) -> (entry: OngoingTimeEntry)
        ensures
            entry@ == start@,
    {
        OngoingTimeEntry { start }
    }

    /// When the work began.
    pub fn start(&self) -> (t: Timestamp)
        ensures
            t@ == self@,
    {
        self.start
    }

    /// The entry closed at `end`.
    pub fn complete(self, end: Timestamp) -> (entry: CompletedTimeEntry)
        requires
            self@ <= end@,
        ensures
            entry@ == (Span { start: self@, end: end@ }),
            entry@.wf(),
    {
        CompletedTimeEntry::new(self.start, end)
    }

    /// How long the work has taken up to `now`.
    pub fn duration(&self, now: Timestamp) -> (d: Duration)
        requires
            self@ <= now@,
        ensures
            d@ == now@ - self@,
    {
        now.duration_since(self.start)
    }
}

} // verus!
