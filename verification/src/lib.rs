//! Aggregate quality and composition statistics over FASTQ records.
//!
//! A FASTQ input is a line-oriented byte stream in which every record spans
//! four lines: header, sequence, separator, quality string.  The library
//! classifies each line by its 0-based position modulo 4, counts reads,
//! bases, `N` bases, GC bases and bases meeting the Q20/Q30 quality
//! thresholds, merges partial counts, and projects truncated percentages.
//! Reading the stream, decompression and output formatting are left to the
//! surrounding program.

pub mod accum;
pub mod dispatch;
pub mod laws;
pub mod model;
pub mod percs;

pub use accum::FQCount;
pub use dispatch::{classify, read, LineKind};
pub use percs::FQPercs;
