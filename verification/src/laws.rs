//! The library's stated laws, proved over the model: merge order does not
//! matter, the percentage projection is pure, and well-formed inputs keep
//! the quality counters within the base count.

use vstd::prelude::*;

use crate::model::{
    add_view, comp_step, counters_eq, empty_acc, lemma_counts_le_len, lemma_process_from_concat,
    line_step, perc_milli, process, process_from, qual_step, wf_input, AccView,
};

verus! {

/// Merging is commutative on the six raw counters (the kept offset is the
/// left operand's, so only the counters are compared).
pub proof fn lemma_add_commutative(a: AccView, b: AccView)
    ensures
        counters_eq(add_view(a, b), add_view(b, a)),
{
}

/// Merging is associative.
pub proof fn lemma_add_associative(a: AccView, b: AccView, c: AccView)
    ensures
        add_view(add_view(a, b), c) == add_view(a, add_view(b, c)),
{
    assert(add_view(add_view(a, b), c) =~= add_view(a, add_view(b, c)));
}

/// Merging three partial accumulators in any grouping and any order yields
/// identical raw counters.
pub proof fn lemma_add_three_any_order(a: AccView, b: AccView, c: AccView)
    ensures
        counters_eq(add_view(add_view(a, b), c), add_view(a, add_view(b, c))),
        counters_eq(add_view(add_view(a, b), c), add_view(add_view(b, a), c)),
        counters_eq(add_view(add_view(a, b), c), add_view(add_view(a, c), b)),
        counters_eq(add_view(add_view(a, b), c), add_view(add_view(b, c), a)),
        counters_eq(add_view(add_view(a, b), c), add_view(add_view(c, b), a)),
        counters_eq(add_view(add_view(a, b), c), add_view(add_view(c, a), b)),
{
}

/// The percentage projection is a pure function of the raw counters: it
/// does not change the accumulator (the executable projection takes it by
/// shared reference), so repeating it — or applying it to any accumulator
/// with the same counters — yields identical results.
pub proof fn lemma_percs_idempotent(a: AccView, b: AccView)
    requires
        a.bases == b.bases,
        a.n == b.n,
        a.gc == b.gc,
        a.q20 == b.q20,
        a.q30 == b.q30,
    ensures
        perc_milli(a.n, a.bases) == perc_milli(b.n, b.bases),
        perc_milli(a.gc, a.bases) == perc_milli(b.gc, b.bases),
        perc_milli(a.q20, a.bases) == perc_milli(b.q20, b.bases),
        perc_milli(a.q30, a.bases) == perc_milli(b.q30, b.bases),
{
}

/// With no bases, every derived percentage is zero and no division occurs.
pub proof fn lemma_percs_empty(v: AccView)
    requires
        v.bases == 0,
    ensures
        perc_milli(v.n, v.bases) == 0,
        perc_milli(v.gc, v.bases) == 0,
        perc_milli(v.q20, v.bases) == 0,
        perc_milli(v.q30, v.bases) == 0,
{
}

/// Over any well-formed 4-line-cycle input, the Q30 tally never exceeds the
/// Q20 tally and both stay within the base count: every Q30 byte is a Q20
/// byte, and each record's quality string is no longer than its sequence
/// line.
pub proof fn lemma_wf_quality_bounds(lines: Seq<Seq<u8>>, phred: u8)
    requires
        wf_input(lines),
    ensures
        process(lines, phred).q30 <= process(lines, phred).q20,
        process(lines, phred).q20 <= process(lines, phred).bases,
        process(lines, phred).q30 <= process(lines, phred).bases,
    decreases lines.len(),
{
    if lines.len() > 0 {
        let n = lines.len() as int;
        let prefix = lines.take(n - 4);
        let tail = lines.skip(n - 4);
        assert(lines =~= prefix + tail);
        assert(prefix.len() % 4 == 0);
        assert forall|i: int| 0 <= i < prefix.len() && i % 4 == 3 implies (#[trigger] prefix[i]).len()
            == prefix[i - 2].len() by {
            assert(prefix[i] == lines[i]);
            assert(prefix[i - 2] == lines[i - 2]);
        }
        lemma_wf_quality_bounds(prefix, phred);
        lemma_process_from_concat(empty_acc(phred), prefix, tail, 0);
        let acc0 = process(prefix, phred);
        let k = (n - 4) as nat;
        let t3 = tail.drop_last();
        let t2 = t3.drop_last();
        let t1 = t2.drop_last();
        let t0 = t1.drop_last();
        assert(t0.len() == 0);
        assert(t1.last() == tail[0] && t2.last() == tail[1] && t3.last() == tail[2]);
        assert(process_from(acc0, t0, k) == acc0);
        assert(process_from(acc0, t1, k) == line_step(acc0, k, tail[0]));
        assert(process_from(acc0, t2, k) == line_step(process_from(acc0, t1, k), k + 1, tail[1]));
        assert(process_from(acc0, t3, k) == line_step(process_from(acc0, t2, k), k + 2, tail[2]));
        assert(process_from(acc0, tail, k) == line_step(process_from(acc0, t3, k), k + 3, tail[3]));
        assert(line_step(acc0, k, tail[0]) == acc0);
        let acc1 = comp_step(acc0, tail[1]);
        assert(process_from(acc0, t2, k) == acc1);
        assert(process_from(acc0, t3, k) == acc1);
        assert(process_from(acc0, tail, k) == qual_step(acc1, tail[3]));
        assert(tail[3] == lines[n - 1] && tail[1] == lines[n - 3]);
        assert(lines[n - 1].len() == lines[n - 3].len());
        lemma_counts_le_len(tail[3], acc1.phred);
    }
}

} // verus!
