//! The executable accumulator: construction, per-line counting and merging,
//! each pinned to the model in `model`.

use vstd::prelude::*;

use crate::model::{
    add_view, comp_step, empty_acc, fits, gc_count, lemma_count_take_step, n_count, q20_count,
    q30_count, qual_step, AccView,
};

verus! {

/// Aggregate counts over FASTQ records: the quality-encoding offset and six
/// raw 64-bit counters.  Derived percentages are never stored; they are
/// projected on demand (see `percs`).
#[derive(Clone, Copy, Debug)]
pub struct FQCount {
    pub phred: u8,
    pub reads: u64,
    pub bases: u64,
    pub n: u64,
    pub gc: u64,
    pub q20: u64,
    pub q30: u64,
}

impl View for FQCount {
    type V = AccView;

    open spec fn view(&self) -> AccView {
        AccView {
            phred: self.phred,
            reads: self.reads as nat,
            bases: self.bases as nat,
            n: self.n as nat,
            gc: self.gc as nat,
            q20: self.q20 as nat,
            q30: self.q30 as nat,
        }
    }
}

impl FQCount {
    /// A fresh accumulator with every counter zero and the given offset.
    pub fn new(phred: u8) -> (r: FQCount)
        ensures
            r@ == empty_acc(phred),
    {
        FQCount { phred, reads: 0, bases: 0, n: 0, gc: 0, q20: 0, q30: 0 }
    }

    /// Count one sequence line: one more read, one base per byte, and the
    /// line's GC and N tallies, scanned case-insensitively.
    pub fn countb(&mut self, line: &[u8])
        requires
            old(self)@.reads + 1 <= u64::MAX,
            old(self)@.bases + line@.len() <= u64::MAX,
            old(self)@.gc + gc_count(line@) <= u64::MAX,
            old(self)@.n + n_count(line@) <= u64::MAX,
        ensures
            final(self)@ == comp_step(old(self)@, line@),
    {
        let mut gc_cnt: u64 = 0;
        let mut n_cnt: u64 = 0;
        let mut i: usize = 0;
        while i < line.len()
            invariant
                i <= line@.len(),
                gc_cnt == gc_count(line@.take(i as int)),
                n_cnt == n_count(line@.take(i as int)),
                gc_cnt <= i,
                n_cnt <= i,
            decreases line@.len() - i,
        {
            let b = line[i];
            proof {
                lemma_count_take_step(line@, 0, i as int);
            }
            if b == 'G' as u8 || b == 'g' as u8 || b == 'C' as u8 || b == 'c' as u8 {
                gc_cnt = gc_cnt + 1;
            } else if b == 'N' as u8 || b == 'n' as u8 {
                n_cnt = n_cnt + 1;
            }
            i = i + 1;
        }
        proof {
            assert(line@.take(line@.len() as int) =~= line@);
        }
        self.reads = self.reads + 1;
        self.bases = self.bases + line.len() as u64;
        self.gc = self.gc + gc_cnt;
        self.n = self.n + n_cnt;
    }

    /// Count one quality line: each byte at or above the offset scores its
    /// distance from the offset; scores of at least 20 count towards Q20 and
    /// of at least 30 also towards Q30.  Bytes below the offset are guarded
    /// against explicitly and contribute to neither threshold.
    pub fn countq(&mut self, line: &[u8])
        requires
            old(self)@.q20 + q20_count(line@, old(self).phred) <= u64::MAX,
            old(self)@.q30 + q30_count(line@, old(self).phred) <= u64::MAX,
        ensures
            final(self)@ == qual_step(old(self)@, line@),
    {
        let mut q20_cnt: u64 = 0;
        let mut q30_cnt: u64 = 0;
        let mut i: usize = 0;
        while i < line.len()
            invariant
                i <= line@.len(),
                q20_cnt == q20_count(line@.take(i as int), self.phred),
                q30_cnt == q30_count(line@.take(i as int), self.phred),
                q20_cnt <= i,
                q30_cnt <= i,
                self == old(self),
            decreases line@.len() - i,
        {
            let b = line[i];
            proof {
                lemma_count_take_step(line@, self.phred, i as int);
            }
            if b >= self.phred {
                let q = b - self.phred;
                if q >= 20 {
                    q20_cnt = q20_cnt + 1;
                    if q >= 30 {
                        q30_cnt = q30_cnt + 1;
                    }
                }
            }
            i = i + 1;
        }
        proof {
            assert(line@.take(line@.len() as int) =~= line@);
        }
        self.q20 = self.q20 + q20_cnt;
        self.q30 = self.q30 + q30_cnt;
    }

    /// Merge another accumulator into this one: the six raw counters are
    /// summed; this accumulator's offset is kept.  Derived percentages are
    /// never merged — they are recomputed from the merged counters.
    pub fn add(&mut self, inst: FQCount)
        requires
            fits(add_view(old(self)@, inst@)),
        ensures
            final(self)@ == add_view(old(self)@, inst@),
    {
        self.reads = self.reads + inst.reads;
        self.bases = self.bases + inst.bases;
        self.n = self.n + inst.n;
        self.gc = self.gc + inst.gc;
        self.q20 = self.q20 + inst.q20;
        self.q30 = self.q30 + inst.q30;
    }
}

} // verus!
