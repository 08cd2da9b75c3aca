//! Properties of the emission rules over whole runs.

use crate::settings::{emits_on_record, reported_after, Settings};
use vstd::arithmetic::div_mod::{lemma_fundamental_div_mod, lemma_fundamental_div_mod_converse};
use vstd::prelude::*;

verus! {

/// How many of the counts `1..=n` make `record` emit.
pub open spec fn emissions_up_to(n: nat, unit: int) -> nat
    decreases n,
{
    if n == 0 {
        0
    } else {
        emissions_up_to((n - 1) as nat, unit) + if emits_on_record(n as int, unit) {
            1nat
        } else {
            0nat
        }
    }
}

/// `n` calls of `record` on a fresh counter, from any number of threads,
/// produce each of the counts `1..=n` exactly once, so exactly `n / unit` of
/// them emit a line, whatever the order of the calls.
pub proof fn lemma_emission_count(n: nat, unit: int)
    requires
        unit > 0,
    ensures
        emissions_up_to(n, unit) == n as int / unit,
    decreases n,
{
    if n > 0 {
        let m = n - 1;
        lemma_emission_count(m as nat, unit);
        lemma_fundamental_div_mod(m, unit);
        let q = m / unit;
        let r = m % unit;
        if r == unit - 1 {
            assert(n == (q + 1) * unit + 0) by (nonlinear_arith)
                requires
                    m == unit * q + r,
                    r == unit - 1,
                    n == m + 1,
            ;
            lemma_fundamental_div_mod_converse(n as int, unit, q + 1, 0);
        } else {
            assert(n == q * unit + (r + 1)) by (nonlinear_arith)
                requires
                    m == unit * q + r,
                    n == m + 1,
            ;
            lemma_fundamental_div_mod_converse(n as int, unit, q, r + 1);
        }
    }
}

/// After `c` calls of `record` on a fresh counter, where `c` is not a
/// multiple of the unit, a flush emits the line for `c`, and a second flush
/// with no `record` in between emits nothing.
pub proof fn lemma_flush_reports_once(s: Settings, c: u64)
    requires
        s.valid(),
        c as int % s.unit as int != 0,
    ensures
        s.flush_outcome(c, 0, None) == Some(s.line(c, None)),
        s.flush_outcome(c, reported_after(0, c), None) is None,
{
    if c == 0 {
        assert(0int % (s.unit as int) == 0);
    }
}

/// A flush that reads a multiple of the unit emits nothing: the call of
/// `record` that produced it has already emitted the line.
pub proof fn lemma_flush_silent_on_boundary(s: Settings, c: u64, reported: u64)
    requires
        s.valid(),
        c as int % s.unit as int == 0,
    ensures
        s.flush_outcome(c, reported, None) is None,
{
}

} // verus!
