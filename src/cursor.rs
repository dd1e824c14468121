use crate::error::{denotes, LmdbError, MDB_NOTFOUND, MDB_SUCCESS};
use libc::{c_int, c_uint};
use vstd::prelude::*;

verus! {

/// Position at the first key/data item.
pub const MDB_FIRST: c_uint = 0;

/// Position at the first data item of the current key (sorted duplicates only).
pub const MDB_FIRST_DUP: c_uint = 1;

/// Position at the given key/data pair (sorted duplicates only).
pub const MDB_GET_BOTH: c_uint = 2;

/// Position at the given key and the nearest data item (sorted duplicates only).
pub const MDB_GET_BOTH_RANGE: c_uint = 3;

/// Return the key/data pair at the current position.
pub const MDB_GET_CURRENT: c_uint = 4;

/// Return up to a page of duplicate data items from the current position
/// (fixed-size duplicates only).
pub const MDB_GET_MULTIPLE: c_uint = 5;

/// Position at the last key/data item.
pub const MDB_LAST: c_uint = 6;

/// Position at the last data item of the current key (sorted duplicates only).
pub const MDB_LAST_DUP: c_uint = 7;

/// Position at the next data item.
pub const MDB_NEXT: c_uint = 8;

/// Position at the next data item of the current key (sorted duplicates only).
pub const MDB_NEXT_DUP: c_uint = 9;

/// Return up to a page of duplicate data items from the next position
/// (fixed-size duplicates only).
pub const MDB_NEXT_MULTIPLE: c_uint = 10;

/// Position at the first data item of the next key.
pub const MDB_NEXT_NODUP: c_uint = 11;

/// Position at the previous data item.
pub const MDB_PREV: c_uint = 12;

/// Position at the previous data item of the current key (sorted duplicates only).
pub const MDB_PREV_DUP: c_uint = 13;

/// Position at the last data item of the previous key.
pub const MDB_PREV_NODUP: c_uint = 14;

/// Position at the given key.
pub const MDB_SET: c_uint = 15;

/// Position at the given key, and return the key as well as the data.
pub const MDB_SET_KEY: c_uint = 16;

/// Position at the first key greater than or equal to the given key.
pub const MDB_SET_RANGE: c_uint = 17;

/// What one step of a sequential scan produced.
#[derive(Debug, Clone, Copy, PartialEq, Eq, Structural)]
pub enum ScanStep {
    /// The cursor moved to an item, which the engine handed back.
    Item,
    /// The cursor has passed the last item: the scan is over.
    End,
    /// The engine reported an error that a scan never expects.
    Failed(LmdbError),
}

/// The state of a forward, single-pass scan of a database with a cursor:
/// the first step positions at the first item, every later one at the next,
/// and once the scan has ended no further step is made.
#[derive(Debug, Clone, Copy, PartialEq, Eq, Structural)]
pub struct Scan {
    /// Whether a step has produced an item.
    pub started: bool,
    /// Whether the scan is over, at the end or on an error.
    pub finished: bool,
}

/// The cursor operation of the next step of a scan in state `s`, if any.
pub open spec fn scan_op(s: Scan) -> Option<c_uint> {
    if s.finished {
        None
    } else if s.started {
        Some(MDB_NEXT)
    } else {
        Some(MDB_FIRST)
    }
}

impl Scan {
    /// A scan that has made no step yet.
    pub fn new() -> (r: Scan)
        ensures
            !r.started,
            !r.finished,
    {
        Scan { started: false, finished: false }
    }

    /// The cursor operation with which the engine is to be called next, or
    /// `None` once the scan is over.
    pub fn next_op(&self) -> (r: Option<c_uint>)
        ensures
            r == scan_op(*self),
    {
        if self.finished {
            None
        } else if self.started {
            Some(MDB_NEXT)
        } else {
            Some(MDB_FIRST)
        }
    }

    /// Takes the status code of the engine call made with `next_op`: success
    /// yields an item, "not found" ends the scan, and any other status ends
    /// it with the error that the code denotes.
    pub fn record(&mut self, status: c_int) -> (r: ScanStep)
        requires
            !old(self).finished,
        ensures
            status == MDB_SUCCESS ==> r is Item && *final(self) == (Scan {
                started: true,
                finished: false,
            }),
            status == MDB_NOTFOUND ==> r is End && *final(self) == (Scan {
                started: old(self).started,
                finished: true,
            }),
            status != MDB_SUCCESS && status != MDB_NOTFOUND ==> r is Failed && denotes(
                r->Failed_0,
                status,
            ) && *final(self) == (Scan { started: old(self).started, finished: true }),
    {
        if status == MDB_SUCCESS {
            self.started = true;
            ScanStep::Item
        } else if status == MDB_NOTFOUND {
            self.finished = true;
            ScanStep::End
        } else {
            self.finished = true;
            ScanStep::Failed(LmdbError::from_err_code(status))
        }
    }
}

} // verus!
