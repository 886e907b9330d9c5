//! Accounting for the sparse copy step. The copy itself is plain blocking
//! I/O: the caller seeks the output to the layout's data byte offset and
//! streams fixed-size chunks until end of input. This tracker makes the
//! chunk-loop decisions: it accumulates the running total a progress sink
//! is fed with, and says when end of input has been reached.

use vstd::prelude::*;

verus! {

/// Running account of a copy: how many bytes the input was measured at,
/// and how many have been copied so far.
#[derive(Clone, Copy, Debug, PartialEq, Eq, Structural)]
pub struct CopyProgress {
    pub expected: u64,
    pub copied: u64,
}

impl CopyProgress {
    /// Start an account for an input of `expected` bytes.
    pub fn new(expected: u64) -> (s: Self)
        ensures
            s.expected == expected,
            s.copied == 0,
    {
        CopyProgress { expected, copied: 0 }
    }

    /// Account one chunk of `read` bytes handed over from input to output.
    /// Returns whether the input is exhausted: a read of zero bytes is end
    /// of input, and the loop stops on it.
    pub fn record_chunk(&mut self, read: u64) -> (done: bool)
        requires
            old(self).copied + read <= u64::MAX,
        ensures
            final(self).copied == old(self).copied + read,
            final(self).expected == old(self).expected,
            done == (read == 0),
    {
        self.copied = self.copied + read;
        read == 0
    }

    /// Whether the account has seen exactly the measured input length.
    pub fn is_exact(&self) -> (r: bool)
        ensures
            r == (self.copied == self.expected),
    {
        self.copied == self.expected
    }
}

} // verus!
