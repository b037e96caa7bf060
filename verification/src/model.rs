//! Mathematical model of the counting pipeline: what one line contributes to
//! the counters, how lines are classified by position, and what a whole
//! stream of lines folds to.

use vstd::prelude::*;

verus! {

/// The abstract state of an accumulator: the quality-encoding offset fixed
/// at construction and the six raw counters, unbounded.
#[verifier::ext_equal]
pub struct AccView {
    pub phred: u8,
    pub reads: nat,
    pub bases: nat,
    pub n: nat,
    pub gc: nat,
    pub q20: nat,
    pub q30: nat,
}

/// A freshly constructed accumulator: all counters zero.
pub open spec fn empty_acc(phred: u8) -> AccView {
    AccView { phred, reads: 0, bases: 0, n: 0, gc: 0, q20: 0, q30: 0 }
}

/// Guanine or cytosine, case-insensitively (`G`, `g`, `C`, `c`).
pub open spec fn is_gc(b: u8) -> bool {
    b == 'G' as u8 || b == 'g' as u8 || b == 'C' as u8 || b == 'c' as u8
}

/// An ambiguous base, case-insensitively (`N`, `n`).
pub open spec fn is_n(b: u8) -> bool {
    b == 'N' as u8 || b == 'n' as u8
}

/// A quality byte whose score reaches Q20: at least `phred` (bytes below the
/// offset are treated as score zero, never wrapped) and scoring at least 20.
pub open spec fn is_q20(b: u8, phred: u8) -> bool {
    b >= phred && b - phred >= 20
}

/// A quality byte whose score reaches Q30.
pub open spec fn is_q30(b: u8, phred: u8) -> bool {
    b >= phred && b - phred >= 30
}

/// How many bytes of `s` are GC bases.
pub open spec fn gc_count(s: Seq<u8>) -> nat
    decreases s.len(),
{
    if s.len() == 0 {
        0
    } else {
        gc_count(s.drop_last()) + (if is_gc(s.last()) {
            1nat
        } else {
            0nat
        })
    }
}

/// How many bytes of `s` are ambiguous bases.
pub open spec fn n_count(s: Seq<u8>) -> nat
    decreases s.len(),
{
    if s.len() == 0 {
        0
    } else {
        n_count(s.drop_last()) + (if is_n(s.last()) {
            1nat
        } else {
            0nat
        })
    }
}

/// How many bytes of `s` reach Q20 under offset `phred`.
pub open spec fn q20_count(s: Seq<u8>, phred: u8) -> nat
    decreases s.len(),
{
    if s.len() == 0 {
        0
    } else {
        q20_count(s.drop_last(), phred) + (if is_q20(s.last(), phred) {
            1nat
        } else {
            0nat
        })
    }
}

/// How many bytes of `s` reach Q30 under offset `phred`.
pub open spec fn q30_count(s: Seq<u8>, phred: u8) -> nat
    decreases s.len(),
{
    if s.len() == 0 {
        0
    } else {
        q30_count(s.drop_last(), phred) + (if is_q30(s.last(), phred) {
            1nat
        } else {
            0nat
        })
    }
}

/// What counting a sequence (composition) line does to an accumulator: one
/// more read, one base per byte, and the GC/N tallies of the line.
pub open spec fn comp_step(acc: AccView, line: Seq<u8>) -> AccView {
    AccView {
        reads: acc.reads + 1,
        bases: acc.bases + line.len(),
        gc: acc.gc + gc_count(line),
        n: acc.n + n_count(line),
        ..acc
    }
}

/// What counting a quality line does to an accumulator.
pub open spec fn qual_step(acc: AccView, line: Seq<u8>) -> AccView {
    AccView {
        q20: acc.q20 + q20_count(line, acc.phred),
        q30: acc.q30 + q30_count(line, acc.phred),
        ..acc
    }
}

/// The four roles a line can play in the 4-line record cycle.
#[derive(Clone, Copy, Debug, PartialEq, Eq, Structural)]
pub enum LineKind {
    Header,
    Sequence,
    Separator,
    Quality,
}

/// The role of the line at 0-based position `idx`.
pub open spec fn classify_spec(idx: nat) -> LineKind {
    if idx % 4 == 0 {
        LineKind::Header
    } else if idx % 4 == 1 {
        LineKind::Sequence
    } else if idx % 4 == 2 {
        LineKind::Separator
    } else {
        LineKind::Quality
    }
}

/// What the line at position `idx` contributes: sequence lines feed the
/// composition counters, quality lines the threshold counters, header and
/// separator lines are discarded.
pub open spec fn line_step(acc: AccView, idx: nat, line: Seq<u8>) -> AccView {
    match classify_spec(idx) {
        LineKind::Sequence => comp_step(acc, line),
        LineKind::Quality => qual_step(acc, line),
        _ => acc,
    }
}

/// Folding `line_step` over `lines`, the first of which sits at position
/// `idx` of the stream.
pub open spec fn process_from(acc: AccView, lines: Seq<Seq<u8>>, idx: nat) -> AccView
    decreases lines.len(),
{
    if lines.len() == 0 {
        acc
    } else {
        line_step(
            process_from(acc, lines.drop_last(), idx),
            (idx + lines.len() - 1) as nat,
            lines.last(),
        )
    }
}

/// The accumulator produced by one whole input: every line counted in stream
/// order, starting from an empty accumulator.
pub open spec fn process(lines: Seq<Seq<u8>>, phred: u8) -> AccView {
    process_from(empty_acc(phred), lines, 0)
}

/// Merging two accumulators: counters are summed field by field; the offset
/// of the left operand is kept.
pub open spec fn add_view(a: AccView, b: AccView) -> AccView {
    AccView {
        phred: a.phred,
        reads: a.reads + b.reads,
        bases: a.bases + b.bases,
        n: a.n + b.n,
        gc: a.gc + b.gc,
        q20: a.q20 + b.q20,
        q30: a.q30 + b.q30,
    }
}

/// Every counter fits in a 64-bit machine word.
pub open spec fn fits(v: AccView) -> bool {
    &&& v.reads <= u64::MAX
    &&& v.bases <= u64::MAX
    &&& v.n <= u64::MAX
    &&& v.gc <= u64::MAX
    &&& v.q20 <= u64::MAX
    &&& v.q30 <= u64::MAX
}

/// Field-wise comparison of the six counters.
pub open spec fn counters_le(a: AccView, b: AccView) -> bool {
    &&& a.reads <= b.reads
    &&& a.bases <= b.bases
    &&& a.n <= b.n
    &&& a.gc <= b.gc
    &&& a.q20 <= b.q20
    &&& a.q30 <= b.q30
}

/// A percentage truncated to three decimal places, in thousandths of a
/// percent; defined as zero when there are no bases.
pub open spec fn perc_milli(metric: nat, bases: nat) -> nat {
    if bases == 0 {
        0
    } else {
        (metric * 100000) / bases
    }
}

/// A well-formed 4-line-cycle input: whole records only, and each record's
/// quality string is exactly as long as its sequence line.
pub open spec fn wf_input(lines: Seq<Seq<u8>>) -> bool {
    &&& lines.len() % 4 == 0
    &&& forall|i: int|
        0 <= i < lines.len() && i % 4 == 3 ==> (#[trigger] lines[i]).len() == lines[i - 2].len()
}

/// The six raw counters agree; the offsets may differ.
pub open spec fn counters_eq(a: AccView, b: AccView) -> bool {
    &&& a.reads == b.reads
    &&& a.bases == b.bases
    &&& a.n == b.n
    &&& a.gc == b.gc
    &&& a.q20 == b.q20
    &&& a.q30 == b.q30
}

/// Per-line bounds: no line contributes more GC, N or quality-threshold
/// tallies than it has bytes, each byte is GC or N at most once, and every
/// Q30 byte is a Q20 byte.
pub proof fn lemma_counts_le_len(s: Seq<u8>, phred: u8)
    ensures
        gc_count(s) + n_count(s) <= s.len(),
        q30_count(s, phred) <= q20_count(s, phred),
        q20_count(s, phred) <= s.len(),
    decreases s.len(),
{
    if s.len() > 0 {
        lemma_counts_le_len(s.drop_last(), phred);
    }
}

/// Extending the counted prefix of a line by one byte adds that byte's
/// contribution and nothing else.
pub proof fn lemma_count_take_step(s: Seq<u8>, phred: u8, i: int)
    requires
        0 <= i < s.len(),
    ensures
        gc_count(s.take(i + 1)) == gc_count(s.take(i)) + (if is_gc(s[i]) {
            1nat
        } else {
            0nat
        }),
        n_count(s.take(i + 1)) == n_count(s.take(i)) + (if is_n(s[i]) {
            1nat
        } else {
            0nat
        }),
        q20_count(s.take(i + 1), phred) == q20_count(s.take(i), phred) + (if is_q20(s[i], phred) {
            1nat
        } else {
            0nat
        }),
        q30_count(s.take(i + 1), phred) == q30_count(s.take(i), phred) + (if is_q30(s[i], phred) {
            1nat
        } else {
            0nat
        }),
{
    assert(s.take(i + 1).drop_last() =~= s.take(i));
    assert(s.take(i + 1).last() == s[i]);
}

/// Processing a concatenation is processing the first part, then the second
/// from where the first left off.
pub proof fn lemma_process_from_concat(acc: AccView, s1: Seq<Seq<u8>>, s2: Seq<Seq<u8>>, idx: nat)
    ensures
        process_from(acc, s1 + s2, idx) == process_from(
            process_from(acc, s1, idx),
            s2,
            (idx + s1.len()) as nat,
        ),
    decreases s2.len(),
{
    if s2.len() == 0 {
        assert(s1 + s2 =~= s1);
    } else {
        lemma_process_from_concat(acc, s1, s2.drop_last(), idx);
        assert((s1 + s2).drop_last() =~= s1 + s2.drop_last());
        assert((s1 + s2).last() == s2.last());
    }
}

/// Counting only ever grows the counters and never touches the offset.
pub proof fn lemma_process_from_ge(acc: AccView, lines: Seq<Seq<u8>>, idx: nat)
    ensures
        counters_le(acc, process_from(acc, lines, idx)),
        process_from(acc, lines, idx).phred == acc.phred,
    decreases lines.len(),
{
    if lines.len() > 0 {
        lemma_process_from_ge(acc, lines.drop_last(), idx);
    }
}

/// The counters over a prefix of the input never exceed the counters over
/// the whole input; in particular they fit wherever the whole input's do.
pub proof fn lemma_prefix_fits(lines: Seq<Seq<u8>>, phred: u8, i: int)
    requires
        0 <= i <= lines.len(),
        fits(process(lines, phred)),
    ensures
        counters_le(process(lines.take(i), phred), process(lines, phred)),
        fits(process(lines.take(i), phred)),
{
    assert(lines =~= lines.take(i) + lines.skip(i));
    lemma_process_from_concat(empty_acc(phred), lines.take(i), lines.skip(i), 0);
    lemma_process_from_ge(process(lines.take(i), phred), lines.skip(i), i as nat);
}

/// Processing one more line of the stream applies that line's step.
pub proof fn lemma_process_take_step(lines: Seq<Seq<u8>>, phred: u8, i: int)
    requires
        0 <= i < lines.len(),
    ensures
        process(lines.take(i + 1), phred) == line_step(
            process(lines.take(i), phred),
            i as nat,
            lines[i],
        ),
{
    assert(lines.take(i + 1).drop_last() =~= lines.take(i));
    assert(lines.take(i + 1).last() == lines[i]);
}

} // verus!
