//! The derived-percentage projection: percentages truncated to three
//! decimal places, represented exactly as thousandths of a percent.

use vstd::prelude::*;

use crate::accum::FQCount;
use crate::model::perc_milli;

verus! {

/// The four derived percentages of an accumulator, each in thousandths of a
/// percent (so `25000` stands for `25.000%`).  Kept as integers: the
/// truncation to three decimal places is exact here, and dividing by one
/// thousand is left to the caller's formatting.
#[derive(Clone, Copy, Debug, PartialEq, Eq, Structural)]
pub struct FQPercs {
    pub n_milli: u64,
    pub gc_milli: u64,
    pub q20_milli: u64,
    pub q30_milli: u64,
}

/// `metric * 100000 / bases`, truncated; zero when `bases` is zero.
fn milli_of(metric: u64, bases: u64) -> (r: u64)
    requires
        metric * 100000 <= u64::MAX,
    ensures
        r == perc_milli(metric as nat, bases as nat),
{
    if bases == 0 {
        0
    } else {
        (metric * 100000) / bases
    }
}

impl FQCount {
    /// Project the derived percentages from the raw counters.  The
    /// projection reads the accumulator without changing it, so projecting
    /// twice yields identical results; with no bases every percentage is
    /// zero and no division happens.
    pub fn percs(&self) -> (r: FQPercs)
        requires
            self@.n * 100000 <= u64::MAX,
            self@.gc * 100000 <= u64::MAX,
            self@.q20 * 100000 <= u64::MAX,
            self@.q30 * 100000 <= u64::MAX,
        ensures
            r.n_milli == perc_milli(self@.n, self@.bases),
            r.gc_milli == perc_milli(self@.gc, self@.bases),
            r.q20_milli == perc_milli(self@.q20, self@.bases),
            r.q30_milli == perc_milli(self@.q30, self@.bases),
            self@.bases == 0 ==> r == (FQPercs { n_milli: 0, gc_milli: 0, q20_milli: 0, q30_milli: 0 }),
    {
        FQPercs {
            n_milli: milli_of(self.n, self.bases),
            gc_milli: milli_of(self.gc, self.bases),
            q20_milli: milli_of(self.q20, self.bases),
            q30_milli: milli_of(self.q30, self.bases),
        }
    }
}

} // verus!
