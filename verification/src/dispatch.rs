//! The record classifier and the dispatcher core: route each line of a
//! stream by its position in the 4-line record cycle to the composition or
//! the quality counter, then merge the two partial accumulators.

use vstd::prelude::*;

use crate::accum::FQCount;
use crate::model::{
    add_view, classify_spec, fits, lemma_prefix_fits, lemma_process_take_step, line_step, process,
};

pub use crate::model::LineKind;

verus! {

/// The role of the line at 0-based position `idx` of its input: header,
/// sequence, separator or quality, cycling with period four.
pub fn classify(idx: usize) -> (r: LineKind)
    ensures
        r == classify_spec(idx as nat),
{
    match idx % 4 {
        0 => LineKind::Header,
        1 => LineKind::Sequence,
        2 => LineKind::Separator,
        _ => LineKind::Quality,
    }
}

impl FQCount {
    /// Count the line at position `idx`: sequence lines feed the composition
    /// counters, quality lines the threshold counters, header and separator
    /// lines are discarded.
    pub fn count_line(&mut self, idx: usize, line: &[u8])
        requires
            fits(line_step(old(self)@, idx as nat, line@)),
        ensures
            final(self)@ == line_step(old(self)@, idx as nat, line@),
    {
        match classify(idx) {
            LineKind::Sequence => self.countb(line),
            LineKind::Quality => self.countq(line),
            _ => {},
        }
    }
}

/// The dispatcher core: fan the classified lines of one input out to two
/// independent accumulators — one counting composition, one counting quality
/// — and merge them into the input's total.  The result depends only on the
/// order of the lines, exactly as if every line had been counted into a
/// single accumulator in stream order.
pub fn read(lines: &Vec<Vec<u8>>, phred: u8) -> (r: FQCount)
    requires
        fits(process(lines.deep_view(), phred)),
    ensures
        r@ == process(lines.deep_view(), phred),
{
    let ghost lv: Seq<Seq<u8>> = lines.deep_view();
    let mut comp = FQCount::new(phred);
    let mut qual = FQCount::new(phred);
    let mut i: usize = 0;
    while i < lines.len()
        invariant
            i <= lines@.len(),
            lv == lines.deep_view(),
            comp@.phred == phred,
            qual@.phred == phred,
            add_view(comp@, qual@) == process(lv.take(i as int), phred),
            fits(process(lv, phred)),
        decreases lines@.len() - i,
    {
        proof {
            assert(lv[i as int] == lines@[i as int].deep_view());
            assert(lines@[i as int].deep_view() =~= lines@[i as int]@);
            lemma_process_take_step(lv, phred, i as int);
            lemma_prefix_fits(lv, phred, i + 1);
        }
        match classify(i) {
            LineKind::Sequence => comp.countb(lines[i].as_slice()),
            LineKind::Quality => qual.countq(lines[i].as_slice()),
            _ => {},
        }
        i = i + 1;
        proof {
            assert(add_view(comp@, qual@) =~= process(lv.take(i as int), phred));
        }
    }
    proof {
        assert(lv.take(lines@.len() as int) =~= lv);
    }
    comp.add(qual);
    comp
}

} // verus!
