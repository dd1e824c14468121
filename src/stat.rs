use libc::{c_uint, size_t};
use vstd::prelude::*;

verus! {

/// The statistics record that the engine fills in, field for field.
#[derive(Debug, Clone, Copy, PartialEq, Eq, Structural)]
pub struct MdbStat {
    /// Size of a database page.
    pub ms_psize: c_uint,
    /// Depth (height) of the B-tree.
    pub ms_depth: c_uint,
    /// Number of internal (non-leaf) pages.
    pub ms_branch_pages: size_t,
    /// Number of leaf pages.
    pub ms_leaf_pages: size_t,
    /// Number of overflow pages.
    pub ms_overflow_pages: size_t,
    /// Number of data items.
    pub ms_entries: size_t,
}

/// Environment statistics.
///
/// Contains information about the size and layout of an LMDB environment.
#[derive(Debug, Clone, Copy, PartialEq, Eq, Structural)]
pub struct Stat(pub MdbStat);

impl Stat {
    /// Creates new zeroed statistics.
    pub fn new() -> (r: Stat)
        ensures
            r.0 == (MdbStat {
                ms_psize: 0,
                ms_depth: 0,
                ms_branch_pages: 0,
                ms_leaf_pages: 0,
                ms_overflow_pages: 0,
                ms_entries: 0,
            }),
    {
        Stat(
            MdbStat {
                ms_psize: 0,
                ms_depth: 0,
                ms_branch_pages: 0,
                ms_leaf_pages: 0,
                ms_overflow_pages: 0,
                ms_entries: 0,
            },
        )
    }

    /// The underlying record, for the engine to fill in.
    pub fn stat(&mut self) -> (r: &mut MdbStat)
        ensures
            *r == old(self).0,
            final(self).0 == *final(r),
    {
        &mut self.0
    }

    /// Size of a database page. This is the same for all databases in the environment.
    pub fn page_size(&self) -> (r: c_uint)
        ensures
            r == self.0.ms_psize,
    {
        self.0.ms_psize
    }

    /// Depth (height) of the B-tree.
    pub fn depth(&self) -> (r: c_uint)
        ensures
            r == self.0.ms_depth,
    {
        self.0.ms_depth
    }

    /// Number of internal (non-leaf) pages.
    pub fn branch_pages(&self) -> (r: size_t)
        ensures
            r == self.0.ms_branch_pages,
    {
        self.0.ms_branch_pages
    }

    /// Number of leaf pages.
    pub fn leaf_pages(&self) -> (r: size_t)
        ensures
            r == self.0.ms_leaf_pages,
    {
        self.0.ms_leaf_pages
    }

    /// Number of overflow pages.
    pub fn overflow_pages(&self) -> (r: size_t)
        ensures
            r == self.0.ms_overflow_pages,
    {
        self.0.ms_overflow_pages
    }

    /// Number of data items.
    pub fn entries(&self) -> (r: size_t)
        ensures
            r == self.0.ms_entries,
    {
        self.0.ms_entries
    }
}

} // verus!
