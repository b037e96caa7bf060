use fastq_count::{classify, read, FQCount, LineKind};

fn record(header: &str, seq: &str, qual: &str) -> Vec<Vec<u8>> {
    vec![
        header.as_bytes().to_vec(),
        seq.as_bytes().to_vec(),
        b"+".to_vec(),
        qual.as_bytes().to_vec(),
    ]
}

#[test]
fn single_record_acgt() {
    let lines = record("@r1", "ACGT", "IIII");
    let fqc = read(&lines, 33);
    assert_eq!(fqc.reads, 1);
    assert_eq!(fqc.bases, 4);
    assert_eq!(fqc.gc, 2);
    assert_eq!(fqc.n, 0);
    assert_eq!(fqc.q20, 4);
    assert_eq!(fqc.q30, 4);
}

#[test]
fn sequence_all_n() {
    let mut fqc = FQCount::new(33);
    fqc.countb(b"NNNN");
    assert_eq!(fqc.gc, 0);
    assert_eq!(fqc.n, 4);
    assert_eq!(fqc.bases, 4);
    assert_eq!(fqc.reads, 1);
}

#[test]
fn sequence_case_insensitive() {
    let mut fqc = FQCount::new(33);
    fqc.countb(b"acgtn");
    assert_eq!(fqc.gc, 2);
    assert_eq!(fqc.n, 1);
    assert_eq!(fqc.bases, 5);
}

#[test]
fn merge_two_inputs() {
    let first = read(&record("@r1", "ACGT", "IIII"), 33);
    assert_eq!(
        (first.reads, first.bases, first.gc, first.n, first.q20, first.q30),
        (1, 4, 2, 0, 4, 4)
    );
    let second = read(&record("@r2", "NNNN", "!!!!"), 33);
    assert_eq!(
        (second.reads, second.bases, second.gc, second.n, second.q20, second.q30),
        (1, 4, 0, 4, 0, 0)
    );

    let mut total = FQCount::new(33);
    total.add(first);
    total.add(second);
    assert_eq!(
        (total.reads, total.bases, total.gc, total.n, total.q20, total.q30),
        (2, 8, 2, 4, 4, 4)
    );
    let percs = total.percs();
    assert_eq!(percs.gc_milli, 25000);
    assert_eq!(25000 as f64 / 1e3, 25.0);
}

#[test]
fn merge_any_order() {
    let a = read(&record("@a", "ACGT", "IIII"), 33);
    let b = read(&record("@b", "GGGG", "!!!!"), 33);
    let c = read(&record("@c", "NNTA", "I!I!"), 33);

    let mut left = FQCount::new(33);
    left.add(a);
    left.add(b);
    left.add(c);

    let mut right = FQCount::new(33);
    right.add(c);
    right.add(a);
    right.add(b);

    assert_eq!(
        (left.reads, left.bases, left.gc, left.n, left.q20, left.q30),
        (right.reads, right.bases, right.gc, right.n, right.q20, right.q30)
    );
}

#[test]
fn quality_below_phred_is_ignored() {
    let mut fqc = FQCount::new(64);
    fqc.countq(b"IIII");
    assert_eq!(fqc.q20, 0);
    assert_eq!(fqc.q30, 0);

    let mut low = FQCount::new(33);
    low.countq(&[0u8, 10, 32]);
    assert_eq!(low.q20, 0);
    assert_eq!(low.q30, 0);
}

#[test]
fn quality_thresholds_inclusive() {
    let mut fqc = FQCount::new(33);
    fqc.countq(&[52, 53, 62, 63]);
    assert_eq!(fqc.q20, 3);
    assert_eq!(fqc.q30, 1);
}

#[test]
fn percs_empty_input() {
    let fqc = FQCount::new(33);
    let percs = fqc.percs();
    assert_eq!(percs.n_milli, 0);
    assert_eq!(percs.gc_milli, 0);
    assert_eq!(percs.q20_milli, 0);
    assert_eq!(percs.q30_milli, 0);
    assert_eq!(percs.n_milli as f64 / 1e3, 0.0);
}

#[test]
fn percs_twice_identical() {
    let fqc = read(&record("@r1", "ACGT", "IIII"), 33);
    let once = fqc.percs();
    let again = fqc.percs();
    assert_eq!(once, again);
}

#[test]
fn percs_truncates_three_decimals() {
    let fqc = FQCount {
        phred: 33,
        reads: 1,
        bases: 3,
        n: 1,
        gc: 2,
        q20: 0,
        q30: 0,
    };
    let percs = fqc.percs();
    assert_eq!(percs.n_milli, 33333);
    assert_eq!(percs.gc_milli, 66666);
    assert_eq!(percs.q20_milli, 0);
}

#[test]
fn classify_cycles_mod_four() {
    assert_eq!(classify(0), LineKind::Header);
    assert_eq!(classify(1), LineKind::Sequence);
    assert_eq!(classify(2), LineKind::Separator);
    assert_eq!(classify(3), LineKind::Quality);
    assert_eq!(classify(4), LineKind::Header);
    assert_eq!(classify(7), LineKind::Quality);
}

#[test]
fn count_line_routes_by_position() {
    let mut fqc = FQCount::new(33);
    fqc.count_line(0, b"@header");
    fqc.count_line(1, b"ACGT");
    fqc.count_line(2, b"+");
    fqc.count_line(3, b"IIII");
    assert_eq!(
        (fqc.reads, fqc.bases, fqc.gc, fqc.n, fqc.q20, fqc.q30),
        (1, 4, 2, 0, 4, 4)
    );
}

#[test]
fn header_and_separator_ignored() {
    let lines = record("@GCGCGC", "AT", "II");
    let fqc = read(&lines, 33);
    assert_eq!(fqc.gc, 0);
    assert_eq!(fqc.bases, 2);
}

#[test]
fn read_empty_input() {
    let lines: Vec<Vec<u8>> = Vec::new();
    let fqc = read(&lines, 33);
    assert_eq!(
        (fqc.reads, fqc.bases, fqc.gc, fqc.n, fqc.q20, fqc.q30),
        (0, 0, 0, 0, 0, 0)
    );
}

#[test]
fn read_two_records() {
    let mut lines = record("@r1", "ACGT", "IIII");
    lines.extend(record("@r2", "ggcc", "!!II"));
    let fqc = read(&lines, 33);
    assert_eq!(fqc.reads, 2);
    assert_eq!(fqc.bases, 8);
    assert_eq!(fqc.gc, 6);
    assert_eq!(fqc.q20, 6);
    assert_eq!(fqc.q30, 6);
}

#[test]
fn read_partial_trailing_record() {
    let mut lines = record("@r1", "ACGT", "IIII");
    lines.push(b"@r2".to_vec());
    lines.push(b"GG".to_vec());
    let fqc = read(&lines, 33);
    assert_eq!(fqc.reads, 2);
    assert_eq!(fqc.bases, 6);
    assert_eq!(fqc.gc, 4);
    assert_eq!(fqc.q20, 4);
}

#[test]
fn add_keeps_left_phred() {
    let mut total = FQCount::new(33);
    let other = FQCount::new(64);
    total.add(other);
    assert_eq!(total.phred, 33);
}

#[test]
fn empty_lines_count_nothing_but_reads() {
    let lines = record("@r1", "", "");
    let fqc = read(&lines, 33);
    assert_eq!(fqc.reads, 1);
    assert_eq!(fqc.bases, 0);
    let percs = fqc.percs();
    assert_eq!(percs.q20_milli, 0);
}
