//! The shared progress counter.

use crate::render::CountFormatterKind;
use crate::settings::{
    default_settings, emits_on_flush, emits_on_record, emitted, next_count, Settings, DEFAULT_LEVEL,
    DEFAULT_NAME, DEFAULT_NOUN, DEFAULT_UNIT, DEFAULT_VERB,
};
use std::sync::atomic::{AtomicU64, Ordering};
use std::sync::Arc;
use vstd::prelude::*;
use vstd::string::*;

verus! {

/// A thread-safe progress counter.
///
/// Every call of [`ProgLog::record`] adds one to a shared atomic count. The
/// call that brings the count to a multiple of `unit` hands back the line
/// `[{name}] {verb} {count} {noun}` for the caller to emit at `level`;
/// [`ProgLog::record_with`] appends `: {extra}`, and asks its supplier for
/// the extra value only then. [`ProgLog::flush`] hands back a line for
/// progress that no line has reported yet.
///
/// The count is the only mutable state and is touched only by relaxed atomic
/// operations, so the lines of concurrent callers may come in any order.
/// There is no closed state: counting simply goes on after a flush.
pub struct ProgLog {
    counter: Arc<AtomicU64>,
    reported: Arc<AtomicU64>,
    name: String,
    noun: String,
    verb: String,
    unit: u64,
    level: log::Level,
    count_formatter: CountFormatterKind,
}

impl View for ProgLog {
    type V = Settings;

    closed spec fn view(&self) -> Settings {
        Settings {
            name: self.name@,
            noun: self.noun@,
            verb: self.verb@,
            unit: self.unit,
            level: self.level,
            formatter: self.count_formatter,
        }
    }
}

impl Default for ProgLog {
    /// A counter at zero with the default configuration.
    fn default() -> (r: Self)
        ensures
            r@ == default_settings(),
    {
        ProgLog::new(
            String::from_str(DEFAULT_NAME),
            String::from_str(DEFAULT_NOUN),
            String::from_str(DEFAULT_VERB),
            DEFAULT_UNIT,
            DEFAULT_LEVEL,
            CountFormatterKind::Nothing,
        )
    }
}

impl ProgLog {
    #[verifier::type_invariant]
    spec fn unit_positive(&self) -> bool {
        self.unit > 0
    }

    /// Creates a counter at zero. A unit of zero is a configuration error and
    /// is not accepted; [`crate::ProgLogBuilder::build`] reports it.
    pub fn new(
        name: String,
        noun: String,
        verb: String,
        unit: u64,
        level: log::Level,
        count_formatter: CountFormatterKind,
    ) -> (r: Self)
        requires
            unit > 0,
        ensures
            r@ == (Settings {
                name: name@,
                noun: noun@,
                verb: verb@,
                unit,
                level,
                formatter: count_formatter,
            }),
    {
        ProgLog {
            counter: Arc::new(AtomicU64::new(0)),
            reported: Arc::new(AtomicU64::new(0)),
            name,
            noun,
            verb,
            unit,
            level,
            count_formatter,
        }
    }

    /// The severity at which this counter's lines are to be emitted.
    pub fn level(&self) -> (r: log::Level)
        ensures
            r == self@.level,
    {
        self.level
    }

    /// The number of items counted so far, read with relaxed ordering: it may
    /// lag behind increments made concurrently, and is meant for display only.
    pub fn seen(&self) -> u64 {
        self.counter.load(Ordering::Relaxed)
    }

    /// The line for `total`.
    pub fn log_it(&self, total: u64) -> (r: String)
        ensures
            r@ == self@.line(total, None),
    {
        let count = self.count_formatter.fmt(total);
        let mut line = String::from_str("[");
        line.append(self.name.as_str());
        line.append("] ");
        line.append(self.verb.as_str());
        line.append(" ");
        line.append(count.as_str());
        line.append(" ");
        line.append(self.noun.as_str());
        line
    }

    /// The line for `total`, with `extra` appended.
    pub fn log_it_with(&self, extra: &str, total: u64) -> (r: String)
        ensures
            r@ == self@.line(total, Some(extra@)),
    {
        let mut line = self.log_it(total);
        line.append(": ");
        line.append(extra);
        line
    }

    /// Whether the call of `record` that brought the count to `total` emits.
    pub fn record_due(&self, total: u64) -> (r: bool)
        ensures
            r == emits_on_record(total as int, self@.unit as int),
    {
        proof {
            use_type_invariant(self);
        }
        total % self.unit == 0
    }

    /// Whether a flush that read `total` emits, where `reported` is the
    /// largest count that an earlier flush read.
    pub fn flush_due(&self, total: u64, reported: u64) -> (r: bool)
        ensures
            r == emits_on_flush(total as int, reported as int, self@.unit as int),
    {
        proof {
            use_type_invariant(self);
        }
        total % self.unit != 0 && reported < total
    }

    /// What `record` returns once the atomic add has handed back `prev`, the
    /// count before this call.
    pub fn record_at(&self, prev: u64) -> (r: Option<String>)
        ensures
            emitted(r) == self@.record_outcome(next_count(prev), None),
    {
        let total = prev.wrapping_add(1);
        if self.record_due(total) {
            Some(self.log_it(total))
        } else {
            None
        }
    }

    /// What `record_with` returns once the atomic add has handed back
    /// `prev`; `supplier` is called only where a line is due.
    pub fn record_with_at<F: Fn() -> String>(&self, prev: u64, supplier: F) -> (r: Option<String>)
        requires
            supplier.requires(()),
        ensures
            self@.supplied_outcome(
                next_count(prev),
                emits_on_record(next_count(prev) as int, self@.unit as int),
                supplier,
                r,
            ),
    {
        let total = prev.wrapping_add(1);
        if self.record_due(total) {
            let extra = supplier();
            let line = self.log_it_with(extra.as_str(), total);
            assert(supplier.ensures((), extra) && line@ == self@.line(total, Some(extra@)));
            Some(line)
        } else {
            None
        }
    }

    /// What `flush` returns once it has read `total` from the count and the
    /// marker has handed back `reported`, the largest count an earlier flush
    /// read.
    pub fn flush_at(&self, total: u64, reported: u64) -> (r: Option<String>)
        ensures
            emitted(r) == self@.flush_outcome(total, reported, None),
    {
        if self.flush_due(total, reported) {
            Some(self.log_it(total))
        } else {
            None
        }
    }

    /// What `flush_with` returns once it has read `total` and `reported`;
    /// `supplier` is called only where a line is due.
    pub fn flush_with_at<F: Fn() -> String>(&self, total: u64, reported: u64, supplier: F) -> (r:
        Option<String>)
        requires
            supplier.requires(()),
        ensures
            self@.supplied_outcome(
                total,
                emits_on_flush(total as int, reported as int, self@.unit as int),
                supplier,
                r,
            ),
    {
        if self.flush_due(total, reported) {
            let extra = supplier();
            let line = self.log_it_with(extra.as_str(), total);
            assert(supplier.ensures((), extra) && line@ == self@.line(total, Some(extra@)));
            Some(line)
        } else {
            None
        }
    }

    /// Adds one to the count. Where the new count is a multiple of `unit`,
    /// returns the line for it.
    pub fn record(&self) -> (r: Option<String>)
        ensures
            exists|prev: u64| emitted(r) == #[trigger] self@.record_outcome(next_count(prev), None),
    {
        let prev = self.counter.fetch_add(1, Ordering::Relaxed);
        self.record_at(prev)
    }

    /// Adds one to the count. Where the new count is a multiple of `unit`,
    /// calls `supplier` once and returns the line for the count with its
    /// value appended; otherwise `supplier` is not called.
    pub fn record_with<F: Fn() -> String>(&self, supplier: F) -> (r: Option<String>)
        requires
            supplier.requires(()),
        ensures
            exists|prev: u64| #[trigger]
                self@.supplied_outcome(
                    next_count(prev),
                    emits_on_record(next_count(prev) as int, self@.unit as int),
                    supplier,
                    r,
                ),
    {
        let prev = self.counter.fetch_add(1, Ordering::Relaxed);
        self.record_with_at(prev, supplier)
    }

    /// Where the count is not a multiple of `unit` and no flush has reported
    /// it yet, returns the line for it. Leaves the count as it is.
    pub fn flush(&self) -> (r: Option<String>)
        ensures
            exists|total: u64, reported: u64| emitted(r) == #[trigger]
                self@.flush_outcome(total, reported, None),
    {
        let total = self.counter.load(Ordering::Relaxed);
        let reported = self.reported.fetch_max(total, Ordering::Relaxed);
        self.flush_at(total, reported)
    }

    /// As [`ProgLog::flush`], with the value of `supplier` appended to the
    /// line; `supplier` is called only where there is a line.
    pub fn flush_with<F: Fn() -> String>(&self, supplier: F) -> (r: Option<String>)
        requires
            supplier.requires(()),
        ensures
            exists|total: u64, reported: u64| #[trigger]
                self@.supplied_outcome(
                    total,
                    emits_on_flush(total as int, reported as int, self@.unit as int),
                    supplier,
                    r,
                ),
    {
        let total = self.counter.load(Ordering::Relaxed);
        let reported = self.reported.fetch_max(total, Ordering::Relaxed);
        self.flush_with_at(total, reported, supplier)
    }
}

} // verus!
