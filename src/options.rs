//! Run options: which counter source and which display to use, and how many
//! points each chart window holds.
use vstd::prelude::*;

verus! {

/// The counter sources available.
#[derive(Clone, Copy, Debug, PartialEq, Eq, Structural)]
pub enum ReaderType {
    /// Interface counters from `getifaddrs`.
    Libc,
}

/// The displays available.
#[derive(Clone, Copy, Debug, PartialEq, Eq, Structural)]
pub enum WriterType {
    /// Charts in the terminal.
    Tui,
    /// One line of deltas per sample on standard output.
    Simple,
}

/// The options of one run.
#[derive(Clone, Copy, Debug, PartialEq, Eq, Structural)]
pub struct Opt {
    pub reader: ReaderType,
    pub writer: WriterType,
    /// Number of points in each chart window.
    pub n: usize,
}

/// The chart window length when none is given.
pub const DEFAULT_HISTORY_LEN: usize = 180;

impl Default for Opt {
    fn default() -> (r: Opt)
        ensures
            r.reader == ReaderType::Libc,
            r.writer == WriterType::Tui,
            r.n == DEFAULT_HISTORY_LEN,
    {
        Opt { reader: ReaderType::Libc, writer: WriterType::Tui, n: DEFAULT_HISTORY_LEN }
    }
}

} // verus!
