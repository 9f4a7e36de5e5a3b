//! The report of a day: a table with one row for each task, giving the time
//! spent on it and its share of the day's total.

use vstd::prelude::*;
use vstd::string::StringExecFns;
use vstd::utf8::encode_utf8;
use colored::Colorize;
use crate::model::{
    is_infix, lemma_running_time_bound, lemma_stopped_time_bound, ManagerView, StoppedView,
};
use crate::task_manager::{views_of, TaskManager};
use crate::text::{
    decimal_text, pad_left, pad_right, push_decimal, push_padded, push_repeated,
    push_right_aligned, push_zero_padded, repeat, zero_padded,
};
use crate::time::{
    Date, Duration, Timestamp, NANOS_PER_HOUR, NANOS_PER_MILLI, NANOS_PER_MINUTE,
};

verus! {

/// The time spent on all of `tasks`.
pub open spec fn stopped_time(tasks: Seq<StoppedView>) -> nat
    decreases tasks.len(),
{
    if tasks.len() == 0 {
        0
    } else {
        stopped_time(tasks.drop_last()) + tasks.last().time_spent()
    }
}

/// The time spent on all tasks of `tasks` up to `now`.
pub open spec fn total_time(tasks: ManagerView, now: int) -> nat {
    stopped_time(tasks.stopped) + match tasks.running {
        Some(task) => task.time_spent(now),
        None => 0,
    }
}

/// The length of `text` in bytes of UTF-8, as `str::len` gives it.
pub open spec fn utf8_len(text: Seq<char>) -> usize {
    encode_utf8(text).len() as usize
}

/// The width of the name column for tasks called `names`: the length in
/// bytes of the longest name, and at least 5, the length of `Total`.
pub open spec fn name_width(names: Seq<Seq<char>>) -> usize
    decreases names.len(),
{
    if names.len() == 0 {
        5
    } else {
        let rest = name_width(names.drop_last());
        let own = utf8_len(names.last());
        if own > rest {
            own
        } else {
            rest
        }
    }
}

/// A length of time as hours and minutes: the whole hours in at least two
/// digits, a colon, and the minutes beyond them in two digits.
pub open spec fn clock_text(nanos: nat) -> Seq<char> {
    zero_padded(nanos / NANOS_PER_HOUR as nat, 2) + ":"@ + zero_padded(
        (nanos / NANOS_PER_MINUTE as nat) % 60,
        2,
    )
}

/// `part` as a share of `whole` in tenths of a percent, rounded to the
/// nearest tenth, and to the even one where two are equally near.
pub open spec fn percent_tenths(part: nat, whole: nat) -> nat
    recommends
        whole > 0,
{
    let scaled = part * 1000;
    let quotient = scaled / whole;
    let rest = scaled % whole;
    if 2 * rest > whole || (2 * rest == whole && quotient % 2 == 1) {
        quotient + 1
    } else {
        quotient
    }
}

/// `part` as a percentage of `whole` with one decimal, right-aligned in
/// five characters. Of a `whole` of zero nothing is a share: the text is
/// then `NaN`.
pub open spec fn percent_text(part: nat, whole: nat) -> Seq<char> {
    if whole == 0 {
        "  NaN"@
    } else {
        let tenths = percent_tenths(part, whole);
        pad_left(decimal_text(tenths / 10) + "."@ + decimal_text(tenths % 10), 5, ' ')
    }
}

/// The row of a task called `name` on which `time` of the day's `total` was
/// spent, both in nanoseconds. Shares are taken of whole milliseconds.
pub open spec fn row_text(name: Seq<char>, time: nat, total: nat, width: nat) -> Seq<char> {
    "    "@ + pad_right(name, width) + " | "@ + clock_text(time) + " | "@ + percent_text(
        time / NANOS_PER_MILLI as nat,
        total / NANOS_PER_MILLI as nat,
    ) + "%\n"@
}

/// The rows of the stopped tasks `tasks`, in list order.
pub open spec fn rows_text(tasks: Seq<StoppedView>, total: nat, width: nat) -> Seq<char>
    decreases tasks.len(),
{
    if tasks.len() == 0 {
        Seq::empty()
    } else {
        rows_text(tasks.drop_last(), total, width) + row_text(
            tasks.last().name,
            tasks.last().time_spent(),
            total,
            width,
        )
    }
}

/// The line between the rows of the tasks and the row of the total: as
/// wide as a row whose time shows two digits of hours.
pub open spec fn separator_text(width: nat) -> Seq<char> {
    "    "@ + repeat('=', width + 17) + "\n"@
}

/// The row of the total.
pub open spec fn total_row_text(total: nat, width: nat) -> Seq<char> {
    "    "@ + pad_right("Total"@, width) + " | "@ + clock_text(total) + " | 100.0%\n"@
}

/// The first line of the report: the date.
pub open spec fn header_text(date: Date) -> Seq<char> {
    "  "@ + date.iso_text() + " \n"@
}

/// The row of the running task of `tasks`; nothing if no task is running.
pub open spec fn running_row_text(tasks: ManagerView, now: int) -> Seq<char> {
    match tasks.running {
        Some(task) => row_text(
            task.name,
            task.time_spent(now),
            total_time(tasks, now),
            name_width(tasks.list_tasks()) as nat,
        ),
        None => Seq::empty(),
    }
}

/// The report on `tasks` for `date` as of `now`, with `running_row` where
/// the row of the running task belongs.
pub open spec fn report_text(tasks: ManagerView, date: Date, now: int, running_row: Seq<char>) -> Seq<
    char,
> {
    let total = total_time(tasks, now);
    let width = name_width(tasks.list_tasks()) as nat;
    header_text(date) + rows_text(tasks.stopped, total, width) + running_row + separator_text(
        width,
    ) + total_row_text(total, width)
}

/// The sequence that ends terminal styling.
pub open spec fn style_reset() -> Seq<char> {
    seq!['\u{1b}', '[', '0', 'm']
}

/// Whether `styled` may be what emphasising `plain` gave: it holds `plain`
/// as it stands, unless `plain` itself holds a sequence that ends styling.
pub open spec fn shows(styled: Seq<char>, plain: Seq<char>) -> bool {
    is_infix(plain, styled) || is_infix(style_reset(), plain)
}

/// `row` in bold green for the terminal: calls `Colorize::green` and
/// `Colorize::bold` of the crate colored on `row` and writes the
/// `ColoredString` that they give into a `String`.
///
/// Not proved, but taken from colored: with colours switched off, which
/// the environment decides, the result is `row`; with colours on, it is
/// `row` between a sequence that sets the style and the one that resets it,
/// and colored writes the style again behind every reset sequence that `row`
/// itself holds. So the result holds `row` as it stands unless `row` holds
/// a reset sequence.
#[verifier::external_body]
fn emphasized(row: &str) -> (styled: String)
    ensures
        shows(styled@, row@),
{
    row.green().bold().to_string()
}

/// A length of time as hours and minutes, `HH:MM`.
pub fn format_duration(duration: Duration) -> (text: String)
    ensures
        text@ == clock_text(duration@),
{
    let minutes = duration.num_minutes() % 60;
    let hours = duration.num_hours();
    let mut text = String::new();
    push_zero_padded(&mut text, hours, 2);
    text.append(":");
    push_zero_padded(&mut text, minutes, 2);
    text
}

/// `part` as a share of `whole` in tenths of a percent; `None` if `whole`
/// is zero.
pub fn percent(part: u64, whole: u128) -> (tenths: Option<u128>)
    ensures
        whole == 0 ==> tenths is None,
        whole > 0 ==> tenths == Some(percent_tenths(part as nat, whole as nat) as u128),
        whole > 0 ==> percent_tenths(part as nat, whole as nat) <= u128::MAX,
{
    if whole == 0 {
        return None;
    }
    let scaled: u128 = part as u128 * 1000;
    let quotient: u128 = scaled / whole;
    let rest: u128 = scaled % whole;
    let other: u128 = whole - rest;
    if rest > other || (rest == other && quotient % 2 == 1) {
        Some(quotient + 1)
    } else {
        Some(quotient)
    }
}

/// Appends to `out` the share of `part` in `whole` as a percentage.
fn push_percent(out: &mut String, part: u64, whole: u128)
    ensures
        final(out)@ == old(out)@ + percent_text(part as nat, whole as nat),
{
    match percent(part, whole) {
        None => {
            out.append("  NaN");
        },
        Some(tenths) => {
            let mut number = String::new();
            push_decimal(&mut number, tenths / 10);
            number.append(".");
            push_decimal(&mut number, tenths % 10);
            proof {
                reveal_strlit(" ");
            }
            push_right_aligned(out, number.as_str(), 5, " ");
        },
    }
}

/// Appends to `out` the row of a task.
fn push_row(out: &mut String, name: &str, time: Duration, total: Duration, width: usize)
    requires
        time@ <= u64::MAX,
    ensures
        final(out)@ == old(out)@ + row_text(name@, time@, total@, width as nat),
{
    out.append("    ");
    push_padded(out, name, width);
    out.append(" | ");
    let clock = format_duration(time);
    out.append(clock.as_str());
    out.append(" | ");
    push_percent(out, time.num_milliseconds() as u64, total.num_milliseconds());
    out.append("%\n");
}

impl TaskManager {
    /// The time spent on all tasks up to `now`.
    fn total_time(&self, now: Timestamp) -> (total: Duration)
        requires
            self@.wf(),
            self@.running matches Some(task) ==> task.can_stop(now@),
        ensures
            total@ == total_time(self@, now@),
    {
        let stopped = self.stopped();
        let mut sum: u128 = 0;
        let mut i: usize = 0;
        while i < stopped.len()
            invariant
                i <= stopped.len(),
                views_of(stopped@) == self@.stopped,
                self@.wf(),
                sum == stopped_time(self@.stopped.take(i as int)),
                sum <= i * u64::MAX,
            decreases stopped.len() - i,
        {
            proof {
                assert(self@.stopped[i as int] == stopped[i as int]@);
                lemma_stopped_time_bound(stopped[i as int]@);
                assert(self@.stopped.take(i + 1).drop_last() =~= self@.stopped.take(i as int));
            }
            let time = stopped[i].time_spent();
            sum = sum + time.nanos;
            i += 1;
        }
        proof {
            assert(self@.stopped.take(i as int) =~= self@.stopped);
        }
        match self.running() {
            Some(task) => {
                proof {
                    lemma_running_time_bound(task@, now@);
                }
                let time = task.time_spent(now);
                Duration::from_nanos(sum + time.nanos)
            },
            None => Duration::from_nanos(sum),
        }
    }

    /// The width of the name column.
    fn name_width(&self) -> (width: usize)
        ensures
            width == name_width(self@.list_tasks()),
    {
        let stopped = self.stopped();
        let ghost names = Seq::new(self@.stopped.len(), |i: int| self@.stopped[i].name);
        let mut width: usize = 5;
        let mut i: usize = 0;
        while i < stopped.len()
            invariant
                i <= stopped.len(),
                views_of(stopped@) == self@.stopped,
                names == Seq::new(self@.stopped.len(), |i: int| self@.stopped[i].name),
                width == name_width(names.take(i as int)),
            decreases stopped.len() - i,
        {
            proof {
                assert(names.take(i + 1).drop_last() =~= names.take(i as int));
            }
            let len = stopped[i].name().len();
            if len > width {
                width = len;
            }
            i += 1;
        }
        proof {
            assert(names.take(i as int) =~= names);
        }
        match self.running() {
            Some(task) => {
                proof {
                    assert(names.push(task@.name).drop_last() =~= names);
                }
                let len = task.name().len();
                if len > width {
                    width = len;
                }
                width
            },
            None => width,
        }
    }

    /// The row of the running task as of `now`, without emphasis; `None`
    /// if no task is running.
    pub fn running_row(&self, now: Timestamp) -> (row: Option<String>)
        requires
            self@.wf(),
            self@.running matches Some(task) ==> task.can_stop(now@),
        ensures
            match self@.running {
                Some(task) => row is Some && row->0@ == running_row_text(self@, now@),
                None => row is None,
            },
    {
        match self.running() {
            None => None,
            Some(task) => {
                let total = self.total_time(now);
                let width = self.name_width();
                proof {
                    lemma_running_time_bound(task@, now@);
                }
                let mut row = String::new();
                push_row(&mut row, task.name(), task.time_spent(now), total, width);
                Some(row)
            },
        }
    }

    /// The report for `date` as of `now`, with `running_row` in the place of
    /// the running task's row: the date, a row for each stopped task, then
    /// `running_row`, a line of `=` and the total.
    pub fn compose_report(&self, date: Date, now: Timestamp, running_row: &str) -> (report: String)
        requires
            self@.wf(),
            self@.running matches Some(task) ==> task.can_stop(now@),
        ensures
            report@ == report_text(self@, date, now@, running_row@),
    {
        let total = self.total_time(now);
        let width = self.name_width();
        let mut report = String::new();
        report.append("  ");
        let iso = date.to_iso();
        report.append(iso.as_str());
        report.append(" \n");
        let stopped = self.stopped();
        let mut i: usize = 0;
        while i < stopped.len()
            invariant
                i <= stopped.len(),
                views_of(stopped@) == self@.stopped,
                self@.wf(),
                report@ == header_text(date) + rows_text(
                    self@.stopped.take(i as int),
                    total@,
                    width as nat,
                ),
            decreases stopped.len() - i,
        {
            proof {
                assert(self@.stopped[i as int] == stopped[i as int]@);
                lemma_stopped_time_bound(stopped[i as int]@);
                assert(self@.stopped.take(i + 1).drop_last() =~= self@.stopped.take(i as int));
            }
            push_row(&mut report, stopped[i].name(), stopped[i].time_spent(), total, width);
            i += 1;
        }
        proof {
            assert(self@.stopped.take(i as int) =~= self@.stopped);
        }
        report.append(running_row);
        report.append("    ");
        proof {
            reveal_strlit("=");
        }
        push_repeated(&mut report, "=", width as u128 + 17);
        report.append("\n");
        report.append("    ");
        push_padded(&mut report, "Total", width);
        report.append(" | ");
        let clock = format_duration(total);
        report.append(clock.as_str());
        report.append(" | 100.0%\n");
        report
    }

    /// The report for `date` as of `now`: a line with the date, a row for
    /// each task with the time spent on it and its share of the total, a
    /// line of `=`, and the row of the total. The row of the running task
    /// comes last among the tasks and is emphasised for the terminal.
    pub fn generate_report(&self, date: Date, time: Timestamp) -> (report: String)
        requires
            self@.wf(),
            self@.running matches Some(task) ==> task.can_stop(time@),
        ensures
            self@.running is None ==> report@ == report_text(self@, date, time@, Seq::empty()),
            self@.running is Some ==> exists|styled: Seq<char>|
                report@ == report_text(self@, date, time@, styled) && shows(
                    styled,
                    running_row_text(self@, time@),
                ),
    {
        match self.running_row(time) {
            None => {
                proof {
                    reveal_strlit("");
                }
                self.compose_report(date, time, "")
            },
            Some(row) => {
                let styled = emphasized(row.as_str());
                self.compose_report(date, time, styled.as_str())
            },
        }
    }
}

} // verus!
