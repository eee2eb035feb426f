//! Counting what was sent and what failed, and reporting it at intervals.

use vstd::prelude::*;
use vstd::string::*;
use crate::clock::{expired, Timer};

verus! {

/// Packets sent and sends that failed: since the start, and since the last report.
#[derive(Clone, Copy, Debug, PartialEq, Eq, Structural)]
pub struct Counters {
    pub total_sent: u64,
    pub total_errors: u64,
    pub window_sent: u64,
    pub window_errors: u64,
}

/// `count` one higher where `by` holds; a counter at its maximum stays there.
pub open spec fn bump(count: u64, by: bool) -> u64 {
    if by && count < u64::MAX {
        (count + 1) as u64
    } else {
        count
    }
}

impl Counters {
    /// The counters after one send: `sent` counts a packet, `is_error` a failure.
    pub open spec fn recorded(self, sent: bool, is_error: bool) -> Counters {
        Counters {
            total_sent: bump(self.total_sent, sent),
            total_errors: bump(self.total_errors, is_error),
            window_sent: bump(self.window_sent, sent),
            window_errors: bump(self.window_errors, is_error),
        }
    }

    /// The counters after a report: the window starts again at zero.
    pub open spec fn cleared(self) -> Counters {
        Counters { window_sent: 0, window_errors: 0, ..self }
    }

    /// What a report says of these counters.
    pub open spec fn snapshot(self) -> Report {
        Report {
            window_sent: self.window_sent,
            window_errors: self.window_errors,
            total_sent: self.total_sent,
            total_errors: self.total_errors,
        }
    }
}

/// The share of errors among `sent` packets in tenths of a percent, rounded to
/// the nearest tenth, a half upwards. With nothing sent the share is 0.
pub open spec fn error_tenths(sent: u64, errors: u64) -> nat {
    if sent == 0 {
        0
    } else {
        ((2000 * errors + sent) / (2 * sent)) as nat
    }
}

/// The decimal digit `d` as a character.
pub open spec fn digit(d: nat) -> char {
    ((48 + d) as u8) as char
}

/// `n` in decimal, without leading zeros.
pub open spec fn decimal(n: nat) -> Seq<char>
    decreases n,
{
    if n < 10 {
        seq![digit(n)]
    } else {
        decimal(n / 10).push(digit(n % 10))
    }
}

/// One report: the window that ends with it, and the totals since the start.
#[derive(Clone, Copy, Debug, PartialEq, Eq, Structural)]
pub struct Report {
    pub window_sent: u64,
    pub window_errors: u64,
    pub total_sent: u64,
    pub total_errors: u64,
}

/// The line that a report prints:
/// `{window_sent}pks {window_errors}eps ({percent}%) {total_sent} packets {total_errors} errors`,
/// the percentage with one decimal.
pub open spec fn report_line(report: Report) -> Seq<char> {
    let tenths = error_tenths(report.window_sent, report.window_errors);
    decimal(report.window_sent as nat) + "pks "@ + decimal(report.window_errors as nat) + "eps ("@
        + decimal(tenths / 10) + "."@ + decimal(tenths % 10) + "%) "@ + decimal(
        report.total_sent as nat,
    ) + " packets "@ + decimal(report.total_errors as nat) + " errors"@
}

/// `String::push`: appends one character to the text.
#[verifier::external_body]
fn push_char(text: &mut String, c: char)
    ensures
        final(text)@ == old(text)@.push(c),
{
    text.push(c);
}

/// Appends `n` in decimal to `text`.
fn push_decimal(text: &mut String, n: u128)
    ensures
        final(text)@ == old(text)@ + decimal(n as nat),
    decreases n,
{
    if n >= 10 {
        push_decimal(text, n / 10);
    }
    let d: u8 = (n % 10) as u8;
    push_char(text, (48 + d) as char);
}

impl Report {
    /// The share of errors in the window, in tenths of a percent.
    pub fn error_tenths(&self) -> (tenths: u128)
        ensures
            tenths == error_tenths(self.window_sent, self.window_errors),
    {
        if self.window_sent == 0 {
            0
        } else {
            (2000 * (self.window_errors as u128) + self.window_sent as u128) / (2 * (
            self.window_sent as u128))
        }
    }

    /// The line to print for this report.
    pub fn line(&self) -> (line: String)
        ensures
            line@ == report_line(*self),
    {
        let tenths: u128 = self.error_tenths();
        let mut line = String::new();
        push_decimal(&mut line, self.window_sent as u128);
        line.append("pks ");
        push_decimal(&mut line, self.window_errors as u128);
        line.append("eps (");
        push_decimal(&mut line, tenths / 10);
        line.append(".");
        push_decimal(&mut line, tenths % 10);
        line.append("%) ");
        push_decimal(&mut line, self.total_sent as u128);
        line.append(" packets ");
        push_decimal(&mut line, self.total_errors as u128);
        line.append(" errors");
        line
    }
}

/// The counters together with when and whether to report them.
#[derive(Clone, Copy, Debug, PartialEq, Eq, Structural)]
pub struct Stats {
    pub counters: Counters,
    /// Seconds that must have passed since the last report.
    pub interval: u64,
    /// Whether reports are suppressed.
    pub quiet: bool,
    /// Runs since the last report.
    pub timer: Timer,
}

impl Stats {
    /// Whether a report is due at `now`: never when quiet, else once more than
    /// the interval has passed since the last one.
    pub open spec fn due(self, now: u128) -> bool {
        !self.quiet && expired(self.timer.since, now, self.interval)
    }

    /// The statistics after one send has been counted.
    pub open spec fn counted(self, sent: bool, is_error: bool) -> Stats {
        Stats { counters: self.counters.recorded(sent, is_error), ..self }
    }

    /// What is reported at `now`: the counters, where a report is due.
    pub open spec fn report_at(self, now: u128) -> Option<Report> {
        if self.due(now) {
            Some(self.counters.snapshot())
        } else {
            None
        }
    }

    /// The statistics after the report at `now`: where one was due, a new
    /// window and a new interval begin.
    pub open spec fn reported(self, now: u128) -> Stats {
        if self.due(now) {
            Stats { counters: self.counters.cleared(), timer: Timer { since: now }, ..self }
        } else {
            self
        }
    }

    /// Counters at zero, the interval running from `now`.
    pub open spec fn at_zero(interval: u64, quiet: bool, now: u128) -> Stats {
        Stats {
            counters: Counters { total_sent: 0, total_errors: 0, window_sent: 0, window_errors: 0 },
            interval,
            quiet,
            timer: Timer { since: now },
        }
    }

    /// Counters at zero, the interval running from `now`.
    pub fn new(interval: u64, quiet: bool, now: u128) -> (stats: Stats)
        ensures
            stats == Stats::at_zero(interval, quiet, now),
    {
        Stats {
            counters: Counters { total_sent: 0, total_errors: 0, window_sent: 0, window_errors: 0 },
            interval,
            quiet,
            timer: Timer::start(now),
        }
    }

    /// Counts one send: a packet where `sent` holds, a failure where `is_error` holds.
    pub fn record(&mut self, sent: bool, is_error: bool)
        ensures
            *final(self) == old(self).counted(sent, is_error),
    {
        if sent {
            self.counters.total_sent = self.counters.total_sent.saturating_add(1);
            self.counters.window_sent = self.counters.window_sent.saturating_add(1);
        }
        if is_error {
            self.counters.total_errors = self.counters.total_errors.saturating_add(1);
            self.counters.window_errors = self.counters.window_errors.saturating_add(1);
        }
    }

    /// Reports where a report is due at `now`, and then starts a new window
    /// and a new interval; else changes nothing.
    pub fn maybe_report(&mut self, now: u128) -> (report: Option<Report>)
        ensures
            report == old(self).report_at(now),
            *final(self) == old(self).reported(now),
    {
        if !self.quiet && self.timer.is_expired(now, self.interval) {
            let report = Report {
                window_sent: self.counters.window_sent,
                window_errors: self.counters.window_errors,
                total_sent: self.counters.total_sent,
                total_errors: self.counters.total_errors,
            };
            self.counters.window_sent = 0;
            self.counters.window_errors = 0;
            self.timer.reset(now);
            Some(report)
        } else {
            None
        }
    }
}

/// The totals only grow: counting never lowers a counter, and a report
/// leaves the totals as they are and empties nothing but the window.
pub proof fn lemma_totals_never_fall(stats: Stats, sent: bool, is_error: bool, now: u128)
    ensures
        stats.counted(sent, is_error).counters.total_sent >= stats.counters.total_sent,
        stats.counted(sent, is_error).counters.total_errors >= stats.counters.total_errors,
        stats.counted(sent, is_error).counters.window_sent >= stats.counters.window_sent,
        stats.counted(sent, is_error).counters.window_errors >= stats.counters.window_errors,
        stats.reported(now).counters.total_sent == stats.counters.total_sent,
        stats.reported(now).counters.total_errors == stats.counters.total_errors,
        stats.report_at(now) is None ==> stats.reported(now) == stats,
        stats.report_at(now) is Some ==> stats.reported(now).counters.window_sent == 0
            && stats.reported(now).counters.window_errors == 0,
{
}

} // verus!
