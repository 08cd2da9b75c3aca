//! Construction of a [`ProgLog`] from options with defaults.

use crate::counter::ProgLog;
use crate::render::CountFormatterKind;
use crate::settings::{
    default_settings, Settings, DEFAULT_LEVEL, DEFAULT_NAME, DEFAULT_NOUN, DEFAULT_UNIT, DEFAULT_VERB,
};
use vstd::prelude::*;
use vstd::string::*;

verus! {

/// Why a configuration could not be turned into a counter.
#[derive(Debug, Clone, Copy, PartialEq, Eq, Structural)]
pub enum BuildError {
    /// The sampling unit is zero.
    ZeroUnit,
}

/// Collects the options of a [`ProgLog`]; each one not set keeps its default.
pub struct ProgLogBuilder {
    name: String,
    noun: String,
    verb: String,
    unit: u64,
    level: log::Level,
    count_formatter: CountFormatterKind,
}

impl View for ProgLogBuilder {
    type V = Settings;

    closed spec fn view(&self) -> Settings {
        Settings {
            name: self.name@,
            noun: self.noun@,
            verb: self.verb@,
            unit: self.unit,
            level: self.level,
            formatter: self.count_formatter,
        }
    }
}

impl Default for ProgLogBuilder {
    /// The same as [`ProgLogBuilder::new`].
    fn default() -> (r: Self)
        ensures
            r@ == default_settings(),
    {
        ProgLogBuilder::new()
    }
}

impl ProgLogBuilder {
    /// A builder holding the defaults: name `proglog`, noun `records`, verb
    /// `Processed`, a unit of 100000, the info level and plain decimal counts.
    pub fn new() -> (r: Self)
        ensures
            r@ == default_settings(),
    {
        ProgLogBuilder {
            name: String::from_str(DEFAULT_NAME),
            noun: String::from_str(DEFAULT_NOUN),
            verb: String::from_str(DEFAULT_VERB),
            unit: DEFAULT_UNIT,
            level: DEFAULT_LEVEL,
            count_formatter: CountFormatterKind::Nothing,
        }
    }

    /// Sets the name, which tells concurrent counters apart in the output.
    pub fn name(self, name: &str) -> (r: Self)
        ensures
            r@ == (Settings { name: name@, ..self@ }),
    {
        ProgLogBuilder { name: String::from_str(name), ..self }
    }

    /// Sets the noun of the lines, ideally lower case and plural.
    pub fn noun(self, noun: &str) -> (r: Self)
        ensures
            r@ == (Settings { noun: noun@, ..self@ }),
    {
        ProgLogBuilder { noun: String::from_str(noun), ..self }
    }

    /// Sets the verb of the lines, ideally capitalised.
    pub fn verb(self, verb: &str) -> (r: Self)
        ensures
            r@ == (Settings { verb: verb@, ..self@ }),
    {
        ProgLogBuilder { verb: String::from_str(verb), ..self }
    }

    /// Sets how many items are counted between two lines.
    pub fn unit(self, unit: u64) -> (r: Self)
        ensures
            r@ == (Settings { unit, ..self@ }),
    {
        ProgLogBuilder { unit, ..self }
    }

    /// Sets the severity at which lines are emitted.
    pub fn level(self, level: log::Level) -> (r: Self)
        ensures
            r@ == (Settings { level, ..self@ }),
    {
        ProgLogBuilder { level, ..self }
    }

    /// Sets how counts are written out.
    pub fn count_formatter(self, formatter: CountFormatterKind) -> (r: Self)
        ensures
            r@ == (Settings { formatter, ..self@ }),
    {
        ProgLogBuilder { count_formatter: formatter, ..self }
    }

    /// A counter at zero with these options, or an error where the unit is
    /// zero.
    pub fn build(self) -> (r: Result<ProgLog, BuildError>)
        ensures
            match r {
                Ok(log) => self@.valid() && log@ == self@,
                Err(e) => !self@.valid() && e == BuildError::ZeroUnit,
            },
    {
        if self.unit == 0 {
            return Err(BuildError::ZeroUnit);
        }
        Ok(ProgLog::new(self.name, self.noun, self.verb, self.unit, self.level, self.count_formatter))
    }
}

} // verus!
