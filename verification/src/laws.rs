//! What holds of every entry, task and task collection, proved over the model.

use vstd::prelude::*;
use crate::entry::InvalidData;
use crate::model::{
    in_order, is_instant, total_duration, Failure, Lookup, ManagerView, RunningView, Span, Step,
    StoppedView,
};
use crate::report::{
    clock_text, header_text, name_width, percent_tenths, percent_text, report_text, row_text,
    separator_text, stopped_time, total_row_text, total_time, utf8_len,
};
use crate::task::history_fault;
use crate::task_manager::names_of;
use crate::text::{decimal_text, pad_right, zero_padded};
use crate::time::{Date, NANOS_PER_HOUR, NANOS_PER_MINUTE};

verus! {

/// In a well-formed history the entries do not overlap and stand in the
/// order of time: each one ends no later than any later one starts.
pub proof fn law_history_is_chronological(history: Seq<Span>, i: int, j: int)
    requires
        forall|k: int| 0 <= k < history.len() ==> (#[trigger] history[k]).wf(),
        in_order(history),
        0 <= i < j < history.len(),
    ensures
        history[i].start <= history[i].end <= history[j].start <= history[j].end,
    decreases j - i,
{
    if j > i + 1 {
        law_history_is_chronological(history, i, j - 1);
    }
}

/// Every entry of a well-formed stopped task, the last one too, ends no
/// later than the task's stop time, and the entries of the history end no
/// later than the last entry starts.
pub proof fn law_stopped_task_is_chronological(task: StoppedView, i: int)
    requires
        task.wf(),
        0 <= i < task.history.len(),
    ensures
        task.history[i].start <= task.history[i].end <= task.last.start <= task.last.end,
{
    let n = task.history.len() as int;
    if i < n - 1 {
        law_history_is_chronological(task.history, i, n - 1);
    }
}

/// Every entry of a well-formed running task ends no later than the open
/// entry starts.
pub proof fn law_running_task_is_chronological(task: RunningView, i: int)
    requires
        task.wf(),
        0 <= i < task.history.len(),
    ensures
        task.history[i].start <= task.history[i].end <= task.since,
{
    let n = task.history.len() as int;
    if i < n - 1 {
        law_history_is_chronological(task.history, i, n - 1);
    }
}

/// The parts of a well-formed task pass validation: a task that is taken
/// apart and put together again is the same task.
pub proof fn law_valid_parts_are_accepted(stopped: StoppedView, running: RunningView)
    requires
        stopped.wf(),
        running.wf(),
    ensures
        history_fault(stopped.history, stopped.last.start) is None,
        history_fault(running.history, running.since) is None,
{
}

/// A history is refused exactly if two neighbours are out of order or the
/// last entry starts before the history ends.
pub proof fn law_validation_is_exact(history: Seq<Span>, tail_start: int)
    ensures
        history_fault(history, tail_start) is Some <==> (exists|i: int|
            0 <= i < history.len() - 1 && #[trigger] history[i].end > history[i + 1].start) || (
        history.len() > 0 && history.last().end > tail_start),
        history_fault(history, tail_start) == Some(InvalidData::EntriesOutOfOrder) <==> (exists|
            i: int,
        | 0 <= i < history.len() - 1 && #[trigger] history[i].end > history[i + 1].start),
{
    if !in_order(history) {
        let (i, j) = choose|i: int, j: int|
            0 <= i && j == i + 1 && j < history.len() && !((#[trigger] history[i]).end <= (
            #[trigger] history[j]).start);
        assert(history[i].end > history[i + 1].start);
    }
}

/// Starting is refused before the stop time and allowed from the stop
/// time on: with no task running, the task stopped last is taken up at
/// `now` exactly if `now` is not before its stop time, and the attempt
/// fails with `InvalidStartTime` otherwise.
pub proof fn law_start_boundary(tasks: ManagerView, now: int)
    requires
        tasks.running is None,
        tasks.stopped.len() > 0,
    ensures
        now < tasks.stopped.last().stop_time() ==> tasks.resume_last_task(now) == Err::<
            Step,
            Failure,
        >(Failure::InvalidStartTime),
        now >= tasks.stopped.last().stop_time() ==> tasks.resume_last_task(now) is Ok,
        tasks.resume_last_task(tasks.stopped.last().stop_time()) is Ok,
{
}

/// Stopping is refused before the start of the open entry and allowed
/// from that instant on, where it leaves an entry of no duration.
pub proof fn law_stop_boundary(tasks: ManagerView, end: int)
    requires
        tasks.running is Some,
    ensures
        end < tasks.running->0.since ==> tasks.stop_running_task_with_time(end) == Err::<
            Step,
            Failure,
        >(Failure::InvalidStopTime),
        end >= tasks.running->0.since ==> tasks.stop_running_task_with_time(end) is Ok,
        tasks.stop_running_task_with_time(tasks.running->0.since) matches Ok(step)
            && step.next.stopped.last().last.duration() == 0,
{
}

/// A name that was just started cannot be started again: while the task
/// runs the attempt fails with `TaskAlreadyRunning`, and once it has been
/// stopped, with `TaskAlreadyExists`.
pub proof fn law_start_same_name_again(
    tasks: ManagerView,
    name: Seq<char>,
    first: int,
    second: int,
    end: int,
    third: int,
)
    requires
        tasks.start_new_task(name, first) is Ok,
    ensures
        ({
            let started = tasks.start_new_task(name, first)->Ok_0.next;
            &&& started.start_new_task(name, second) == Err::<Step, Failure>(
                Failure::TaskAlreadyRunning(name),
            )
            &&& started.stop_running_task_with_time(end) matches Ok(stopped)
                ==> stopped.next.start_new_task(name, third) == Err::<Step, Failure>(
                Failure::TaskAlreadyExists(name),
            )
        }),
{
    let started = tasks.start_new_task(name, first)->Ok_0.next;
    if let Ok(stopped) = started.stop_running_task_with_time(end) {
        let last = stopped.next.stopped.len() - 1;
        assert(stopped.next.stopped[last].name == name);
    }
}

/// A query that two stopped tasks match finds neither.
pub proof fn law_two_matches_are_ambiguous(tasks: ManagerView, query: Seq<char>, i: int, j: int)
    requires
        i != j,
        tasks.matches_at(query, i),
        tasks.matches_at(query, j),
    ensures
        tasks.lookup(query) == Lookup::Ambiguous,
        forall|now: int|
            tasks.running is None ==> #[trigger] tasks.resume_task(query, now) == Err::<
                Step,
                Failure,
            >(Failure::MultipleTasksFound),
        forall|now: int| #[trigger]
            tasks.switch_task(query, now) == Err::<Step, Failure>(Failure::MultipleTasksFound),
        tasks.delete_task(query) == Err::<Step, Failure>(Failure::MultipleTasksFound),
        forall|new_name: Seq<char>| #[trigger]
            tasks.rename_task(query, new_name) == Err::<Step, Failure>(
                Failure::MultipleTasksFound,
            ),
{
}

/// A query that both a stopped task and the running task match deletes
/// and renames neither.
pub proof fn law_match_in_both_is_ambiguous(tasks: ManagerView, query: Seq<char>, i: int)
    requires
        tasks.matches_at(query, i),
        tasks.running_matches(query),
    ensures
        tasks.delete_task(query) == Err::<Step, Failure>(Failure::MultipleTasksFound),
        forall|new_name: Seq<char>| #[trigger]
            tasks.rename_task(query, new_name) == Err::<Step, Failure>(
                Failure::MultipleTasksFound,
            ),
{
}

/// A query that exactly one stopped task matches finds that task.
pub proof fn law_single_match_is_found(tasks: ManagerView, query: Seq<char>, i: int)
    requires
        tasks.matches_at(query, i),
        forall|j: int| j != i ==> !tasks.matches_at(query, j),
    ensures
        tasks.lookup(query) == Lookup::Found(i),
{
    let chosen = choose|k: int| tasks.matches_at(query, k);
    assert(tasks.matches_at(query, chosen));
}

/// Every operation leaves a well-formed collection well formed, given
/// that the instants handed to it are instants.
pub proof fn law_operations_keep_tasks_well_formed(
    tasks: ManagerView,
    name: Seq<char>,
    new_name: Seq<char>,
    duration: nat,
    now: int,
)
    requires
        tasks.wf(),
        is_instant(now),
    ensures
        tasks.start_new_task(name, now) matches Ok(step) ==> step.next.wf(),
        tasks.stop_running_task_with_time(now) matches Ok(step) ==> step.next.wf(),
        tasks.stop_running_task_with_duration(duration, now) matches Ok(step) ==> step.next.wf(),
        tasks.resume_last_task(now) matches Ok(step) ==> step.next.wf(),
        tasks.resume_task(name, now) matches Ok(step) ==> step.next.wf(),
        tasks.switch_new_task(name, now) matches Ok(step) ==> step.next.wf(),
        tasks.switch_last_task(now) matches Ok(step) ==> step.next.wf(),
        tasks.switch_task(name, now) matches Ok(step) ==> step.next.wf(),
        tasks.delete_task(name) matches Ok(step) ==> step.next.wf(),
        tasks.rename_task(name, new_name) matches Ok(step) ==> step.next.wf(),
{
}

/// Listing depends on nothing but the tasks: two listings of one
/// collection give the same names in the same order.
pub proof fn law_listing_again_gives_the_same(
    tasks: ManagerView,
    first: Seq<&str>,
    second: Seq<&str>,
)
    requires
        names_of(first) == tasks.list_tasks(),
        names_of(second) == tasks.list_tasks(),
    ensures
        first.len() == second.len(),
        forall|i: int| 0 <= i < first.len() ==> (#[trigger] first[i])@ == second[i]@,
{
    assert(names_of(first).len() == first.len());
    assert(names_of(second).len() == second.len());
    assert forall|i: int| 0 <= i < first.len() implies (#[trigger] first[i])@ == second[i]@ by {
        assert(names_of(first)[i] == names_of(second)[i]);
    }
}

/// What a lookup answers is exact: it finds a task if that task matches
/// and no other does, it misses if no task matches, and it is ambiguous
/// if two tasks match.
pub proof fn law_lookup_is_exact(tasks: ManagerView, query: Seq<char>)
    ensures
        match tasks.lookup(query) {
            Lookup::Found(index) => tasks.matches_at(query, index) && forall|j: int|
                j != index ==> !tasks.matches_at(query, j),
            Lookup::Missing => forall|j: int| !tasks.matches_at(query, j),
            Lookup::Ambiguous => exists|i: int, j: int|
                i != j && #[trigger] tasks.matches_at(query, i) && #[trigger] tasks.matches_at(
                    query,
                    j,
                ),
        },
{
    if let Lookup::Found(index) = tasks.lookup(query) {
        let chosen = choose|k: int| tasks.matches_at(query, k);
        assert(tasks.matches_at(query, chosen));
    }
}

/// The durations of a history with one more span add up to those of the
/// history and that of the span.
proof fn lemma_total_duration_push(history: Seq<Span>, span: Span)
    ensures
        total_duration(history.push(span)) == total_duration(history) + span.duration(),
{
    assert(history.push(span).drop_last() =~= history);
}

/// Stopping and starting keep the account of time: a task stopped at
/// `end` has had the time spent on it that it had as a running task up to
/// `end`, and a task taken up again has had, at that instant, the time
/// that it had when it was stopped.
pub proof fn law_time_is_kept_over_stop_and_start(
    running: RunningView,
    end: int,
    stopped: StoppedView,
    now: int,
)
    ensures
        running.stop(end).time_spent() == running.time_spent(end),
        stopped.start(now).time_spent(now) == stopped.time_spent(),
{
    lemma_total_duration_push(stopped.history, stopped.last);
}

/// The time spent on one stopped task is part of the time spent on all.
proof fn lemma_stopped_time_holds_each(tasks: Seq<StoppedView>, i: int)
    requires
        0 <= i < tasks.len(),
    ensures
        tasks[i].time_spent() <= stopped_time(tasks),
    decreases tasks.len(),
{
    if i < tasks.len() - 1 {
        lemma_stopped_time_holds_each(tasks.drop_last(), i);
    }
}

/// No task has a share of more than 100 percent: the time spent on any
/// one task, stopped or running, is part of the total, and so are its
/// whole milliseconds of the total's.
pub proof fn law_no_share_exceeds_the_total(tasks: ManagerView, now: int, i: int)
    requires
        0 <= i < tasks.stopped.len(),
    ensures
        tasks.stopped[i].time_spent() <= total_time(tasks, now),
        tasks.running matches Some(task) ==> task.time_spent(now) <= total_time(tasks, now),
        total_time(tasks, now) / 1_000_000 > 0 ==> percent_tenths(
            tasks.stopped[i].time_spent() / 1_000_000,
            total_time(tasks, now) / 1_000_000,
        ) <= 1000,
{
    lemma_stopped_time_holds_each(tasks.stopped, i);
    let part = tasks.stopped[i].time_spent();
    let whole = total_time(tasks, now);
    if whole / 1_000_000 > 0 {
        lemma_share_is_at_most_all(part / 1_000_000, whole / 1_000_000);
    }
}

/// The name column is at least as wide as `Total` and as every name is
/// long in bytes.
pub proof fn law_name_column_fits_every_name(names: Seq<Seq<char>>, i: int)
    requires
        0 <= i < names.len(),
    ensures
        5 <= name_width(names),
        utf8_len(names[i]) <= name_width(names),
    decreases names.len(),
{
    lemma_name_column_fits_total(names.drop_last());
    if i < names.len() - 1 {
        law_name_column_fits_every_name(names.drop_last(), i);
    }
}

/// The name column is at least as wide as `Total`.
proof fn lemma_name_column_fits_total(names: Seq<Seq<char>>)
    ensures
        5 <= name_width(names),
    decreases names.len(),
{
    if names.len() > 0 {
        lemma_name_column_fits_total(names.drop_last());
    }
}

/// A number below 100 takes two characters when padded to two digits, and
/// a number below 1000 at most three digits.
proof fn lemma_digit_counts(n: nat)
    ensures
        1 <= decimal_text(n).len(),
        n < 10 ==> decimal_text(n).len() == 1,
        n < 100 ==> decimal_text(n).len() <= 2 && zero_padded(n, 2).len() == 2,
        n < 1000 ==> decimal_text(n).len() <= 3,
    decreases n,
{
    if n >= 10 {
        lemma_digit_counts(n / 10);
    }
}

/// A part of a whole is at most 100 percent of it.
proof fn lemma_share_is_at_most_all(part: nat, whole: nat)
    requires
        part <= whole,
        whole > 0,
    ensures
        percent_tenths(part, whole) <= 1000,
{
    let scaled = part * 1000;
    let quotient = scaled / whole;
    let rest = scaled % whole;
    assert(quotient <= 1000 && (quotient == 1000 ==> rest == 0)) by (nonlinear_arith)
        requires
            scaled == part * 1000,
            part <= whole,
            whole > 0,
            quotient == scaled / whole,
            rest == scaled % whole,
    ;
}

/// The text of a share of a whole is five characters long.
proof fn lemma_percent_text_width(part: nat, whole: nat)
    requires
        part <= whole,
    ensures
        percent_text(part, whole).len() == 5,
{
    reveal_strlit("  NaN");
    reveal_strlit(".");
    if whole > 0 {
        lemma_share_is_at_most_all(part, whole);
        let tenths = percent_tenths(part, whole);
        lemma_digit_counts(tenths / 10);
        lemma_digit_counts(tenths % 10);
    }
}

/// The rows of a report line up: the row of a task whose name fits the name
/// column, whose time is part of the total and shows two digits of hours,
/// is as long as the line of `=` under the rows, and so is the row of a
/// total that shows two digits of hours.
pub proof fn law_rows_are_as_wide_as_the_separator(
    name: Seq<char>,
    time: nat,
    total: nat,
    width: nat,
)
    requires
        name.len() <= width,
        5 <= width,
        time <= total,
        total < 100 * NANOS_PER_HOUR,
    ensures
        row_text(name, time, total, width).len() == separator_text(width).len(),
        total_row_text(total, width).len() == separator_text(width).len(),
        separator_text(width).len() == width + 22,
{
    reveal_strlit("    ");
    reveal_strlit(" | ");
    reveal_strlit("%\n");
    reveal_strlit("\n");
    reveal_strlit(":");
    reveal_strlit("Total");
    reveal_strlit(" | 100.0%\n");
    lemma_digit_counts(time / NANOS_PER_HOUR as nat);
    lemma_digit_counts((time / NANOS_PER_MINUTE as nat) % 60);
    lemma_digit_counts(total / NANOS_PER_HOUR as nat);
    lemma_digit_counts((total / NANOS_PER_MINUTE as nat) % 60);
    lemma_percent_text_width(time / 1_000_000, total / 1_000_000);
}

/// The report on a day without tasks has three lines: the date, the line
/// of `=` and a total of no time.
pub proof fn law_report_without_tasks(date: Date, now: int)
    ensures
        report_text(ManagerView::empty(), date, now, Seq::empty()) == "  "@ + date.iso_text()
            + " \n"@ + "    ======================\n"@ + "    Total | 00:00 | 100.0%\n"@,
{
    reveal_strlit("    ");
    reveal_strlit(" | ");
    reveal_strlit("\n");
    reveal_strlit(":");
    reveal_strlit("Total");
    reveal_strlit(" | 100.0%\n");
    reveal_strlit("    ======================\n");
    reveal_strlit("    Total | 00:00 | 100.0%\n");
}

} // verus!
