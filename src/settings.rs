//! The configuration of a progress counter and the lines it produces.

use crate::render::CountFormatterKind;
use vstd::prelude::*;

verus! {

/// Name used unless another one is configured.
pub const DEFAULT_NAME: &'static str = "proglog";

/// Noun used unless another one is configured.
pub const DEFAULT_NOUN: &'static str = "records";

/// Verb used unless another one is configured.
pub const DEFAULT_VERB: &'static str = "Processed";

/// Sampling period used unless another one is configured.
pub const DEFAULT_UNIT: u64 = 100_000;

/// Severity used unless another one is configured.
pub const DEFAULT_LEVEL: log::Level = log::Level::Info;

/// The abstract configuration of a counter: what its lines say, how often
/// they come, and at which severity.
pub ghost struct Settings {
    /// Tells concurrent counters apart in the output.
    pub name: Seq<char>,
    /// What is counted, ideally lower case and plural.
    pub noun: Seq<char>,
    /// What is done to each item, ideally capitalised.
    pub verb: Seq<char>,
    /// How many items are counted between two lines.
    pub unit: u64,
    /// The severity handed to the sink.
    pub level: log::Level,
    /// How counts are written out.
    pub formatter: CountFormatterKind,
}

/// The configuration that holds where nothing else is set.
pub open spec fn default_settings() -> Settings {
    Settings {
        name: DEFAULT_NAME@,
        noun: DEFAULT_NOUN@,
        verb: DEFAULT_VERB@,
        unit: DEFAULT_UNIT,
        level: DEFAULT_LEVEL,
        formatter: CountFormatterKind::Nothing,
    }
}

/// `[{name}] {verb} {count} {noun}`, followed by `: {extra}` when there is an
/// extra value.
pub open spec fn status_line(
    name: Seq<char>,
    verb: Seq<char>,
    count: Seq<char>,
    noun: Seq<char>,
    extra: Option<Seq<char>>,
) -> Seq<char> {
    let base = "["@ + name + "] "@ + verb + " "@ + count + " "@ + noun;
    match extra {
        Some(e) => base + ": "@ + e,
        None => base,
    }
}

/// The text of a line that may or may not have been produced.
pub open spec fn emitted(r: Option<String>) -> Option<Seq<char>> {
    match r {
        Some(line) => Some(line@),
        None => None,
    }
}

/// The count after an atomic add of one to `prev`, which wraps at the top of
/// the range.
pub open spec fn next_count(prev: u64) -> u64 {
    if prev == u64::MAX {
        0
    } else {
        (prev + 1) as u64
    }
}

/// Whether the call of `record` that produced `total` emits a line.
pub open spec fn emits_on_record(total: int, unit: int) -> bool {
    total % unit == 0
}

/// Whether a flush that reads `total`, when `reported` is the largest count
/// an earlier flush read, emits a line: there is progress since the last
/// unit boundary, and no flush has reported it yet.
pub open spec fn emits_on_flush(total: int, reported: int, unit: int) -> bool {
    total % unit != 0 && reported < total
}

/// The largest count read by a flush, once a flush that read `total` has
/// recorded it over the earlier value `reported`.
pub open spec fn reported_after(reported: u64, total: u64) -> u64 {
    if reported < total {
        total
    } else {
        reported
    }
}

impl Settings {
    /// A unit of zero is a configuration error.
    pub open spec fn valid(self) -> bool {
        self.unit > 0
    }

    /// The line for `total`, with an optional extra value.
    pub open spec fn line(self, total: u64, extra: Option<Seq<char>>) -> Seq<char> {
        status_line(self.name, self.verb, self.formatter.rendered(total), self.noun, extra)
    }

    /// What a call of `record` that produced `total` emits.
    pub open spec fn record_outcome(self, total: u64, extra: Option<Seq<char>>) -> Option<Seq<char>> {
        if emits_on_record(total as int, self.unit as int) {
            Some(self.line(total, extra))
        } else {
            None
        }
    }

    /// What a call given `supplier` returns for the count `total`, where
    /// `due` says whether a line is due: without one nothing; with one, the
    /// line for `total` carrying a value that `supplier` returned.
    pub open spec fn supplied_outcome<F: Fn() -> String>(
        self,
        total: u64,
        due: bool,
        supplier: F,
        r: Option<String>,
    ) -> bool {
        match r {
            Some(line) => due && exists|extra: String|
                supplier.ensures((), extra) && line@ == #[trigger] self.line(total, Some(extra@)),
            None => !due,
        }
    }

    /// What a flush emits that reads `total` when `reported` was the largest
    /// count read by an earlier flush.
    pub open spec fn flush_outcome(self, total: u64, reported: u64, extra: Option<Seq<char>>) -> Option<Seq<char>> {
        if emits_on_flush(total as int, reported as int, self.unit as int) {
            Some(self.line(total, extra))
        } else {
            None
        }
    }
}

} // verus!
