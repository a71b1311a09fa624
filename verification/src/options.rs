//! Per-call parameters.

use vstd::prelude::*;

verus! {

/// How to read an entry.
#[derive(Clone, Copy, Debug)]
pub struct ReadOptions {
    /// The bytes to read: the first offset, and the offset after the last.
    /// `None` reads the whole entry.
    pub range: Option<(u64, u64)>,
}

/// How to write an entry.
#[derive(Clone, Copy, Debug, PartialEq, Eq, Structural)]
pub struct WriteOptions {
    /// Extend the entry instead of replacing it.
    pub append: bool,
}

/// A range is well formed when it does not end before it starts.
pub open spec fn range_ok(range: Option<(u64, u64)>) -> bool {
    match range {
        Some((start, end)) => start <= end,
        None => true,
    }
}

impl ReadOptions {
    /// Reads the whole entry.
    pub fn new() -> (o: ReadOptions)
        ensures
            o.range is None,
    {
        ReadOptions { range: None }
    }

    /// Reads the bytes from `start` up to, not including, `end`.
    pub fn with_range(self, start: u64, end: u64) -> (o: ReadOptions)
        ensures
            o.range == Some((start, end)),
    {
        ReadOptions { range: Some((start, end)) }
    }

    /// Whether the range, if any, is well formed.
    pub fn is_valid(&self) -> (b: bool)
        ensures
            b == range_ok(self.range),
    {
        match self.range {
            Some((start, end)) => start <= end,
            None => true,
        }
    }
}

impl WriteOptions {
    /// Replaces the entry.
    pub fn new() -> (o: WriteOptions)
        ensures
            !o.append,
    {
        WriteOptions { append: false }
    }

    /// Chooses between extending the entry and replacing it.
    pub fn with_append(self, append: bool) -> (o: WriteOptions)
        ensures
            o.append == append,
    {
        WriteOptions { append }
    }
}

} // verus!
