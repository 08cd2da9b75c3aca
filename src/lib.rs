//! A low-overhead, thread-safe progress counter.
//!
//! Each call of `record` bumps a shared atomic count; whenever the count it
//! produced is a multiple of the configured unit, the call hands back the
//! status line to emit. `flush` hands back a trailing line for progress that
//! has not been reported yet.

mod builder;
mod counter;
mod laws;
mod level;
mod render;
mod settings;

pub use builder::{BuildError, ProgLogBuilder};
pub use counter::ProgLog;
pub use laws::{
    emissions_up_to, lemma_emission_count, lemma_flush_reports_once, lemma_flush_silent_on_boundary,
};
pub use render::{decimal_of, digit_char, grouped, to_decimal, CountFormatterKind};
pub use settings::{
    default_settings, emits_on_flush, emits_on_record, emitted, next_count, reported_after, status_line, Settings,
    DEFAULT_LEVEL, DEFAULT_NAME, DEFAULT_NOUN, DEFAULT_UNIT, DEFAULT_VERB,
};
