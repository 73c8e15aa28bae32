use crate::word::{low_word, to_word};
use vstd::prelude::*;

verus! {

/// Environment statistics.
///
/// Contains information about the size and layout of an MDBX environment or database.
#[derive(Clone, Copy, Debug, PartialEq, Eq, Structural)]
pub struct Stat {
    pub ms_psize: u32,
    pub ms_depth: u32,
    pub ms_branch_pages: u64,
    pub ms_leaf_pages: u64,
    pub ms_overflow_pages: u64,
    pub ms_entries: u64,
}

impl Stat {
    /// Create a new Stat with all numbers zero.
    pub fn new() -> (stat: Stat)
        ensures
            stat == (Stat {
                ms_psize: 0,
                ms_depth: 0,
                ms_branch_pages: 0,
                ms_leaf_pages: 0,
                ms_overflow_pages: 0,
                ms_entries: 0,
            }),
    {
        Stat {
            ms_psize: 0,
            ms_depth: 0,
            ms_branch_pages: 0,
            ms_leaf_pages: 0,
            ms_overflow_pages: 0,
            ms_entries: 0,
        }
    }

    /// Size of a database page. This is the same for all databases in the environment.
    pub fn page_size(&self) -> (r: u32)
        ensures
            r == self.ms_psize,
    {
        self.ms_psize
    }

    /// Depth (height) of the B-tree.
    pub fn depth(&self) -> (r: u32)
        ensures
            r == self.ms_depth,
    {
        self.ms_depth
    }

    /// Number of internal (non-leaf) pages.
    pub fn branch_pages(&self) -> (r: usize)
        ensures
            r == low_word(self.ms_branch_pages),
            self.ms_branch_pages <= usize::MAX ==> r == self.ms_branch_pages,
    {
        to_word(self.ms_branch_pages)
    }

    /// Number of leaf pages.
    pub fn leaf_pages(&self) -> (r: usize)
        ensures
            r == low_word(self.ms_leaf_pages),
            self.ms_leaf_pages <= usize::MAX ==> r == self.ms_leaf_pages,
    {
        to_word(self.ms_leaf_pages)
    }

    /// Number of overflow pages.
    pub fn overflow_pages(&self) -> (r: usize)
        ensures
            r == low_word(self.ms_overflow_pages),
            self.ms_overflow_pages <= usize::MAX ==> r == self.ms_overflow_pages,
    {
        to_word(self.ms_overflow_pages)
    }

    /// Number of data items.
    pub fn entries(&self) -> (r: usize)
        ensures
            r == low_word(self.ms_entries),
            self.ms_entries <= usize::MAX ==> r == self.ms_entries,
    {
        to_word(self.ms_entries)
    }
}

/// The sizes that the memory map of an environment may have.
#[derive(Clone, Copy, Debug, PartialEq, Eq, Structural)]
pub struct GeometryInfo {
    pub lower: u64,
}

impl GeometryInfo {
    /// The smallest size.
    pub fn min(&self) -> (r: u64)
        ensures
            r == self.lower,
    {
        self.lower
    }
}

/// Environment information.
///
/// Contains environment information about the map size, readers, last txn id etc.
#[derive(Clone, Copy, Debug, PartialEq, Eq, Structural)]
pub struct Info {
    pub mi_geo: GeometryInfo,
    pub mi_mapsize: u64,
    pub mi_last_pgno: u64,
    pub mi_recent_txnid: u64,
    pub mi_maxreaders: u32,
    pub mi_numreaders: u32,
}

impl Info {
    /// Create a new Info with all numbers zero.
    pub fn new() -> (info: Info)
        ensures
            info == (Info {
                mi_geo: GeometryInfo { lower: 0 },
                mi_mapsize: 0,
                mi_last_pgno: 0,
                mi_recent_txnid: 0,
                mi_maxreaders: 0,
                mi_numreaders: 0,
            }),
    {
        Info {
            mi_geo: GeometryInfo { lower: 0 },
            mi_mapsize: 0,
            mi_last_pgno: 0,
            mi_recent_txnid: 0,
            mi_maxreaders: 0,
            mi_numreaders: 0,
        }
    }

    /// The sizes that the memory map may have.
    pub fn geometry(&self) -> (r: GeometryInfo)
        ensures
            r == self.mi_geo,
    {
        self.mi_geo
    }

    /// Size of memory map.
    pub fn map_size(&self) -> (r: usize)
        ensures
            r == low_word(self.mi_mapsize),
            self.mi_mapsize <= usize::MAX ==> r == self.mi_mapsize,
    {
        to_word(self.mi_mapsize)
    }

    /// Last used page number
    pub fn last_pgno(&self) -> (r: usize)
        ensures
            r == low_word(self.mi_last_pgno),
            self.mi_last_pgno <= usize::MAX ==> r == self.mi_last_pgno,
    {
        to_word(self.mi_last_pgno)
    }

    /// Last transaction ID
    pub fn last_txnid(&self) -> (r: usize)
        ensures
            r == low_word(self.mi_recent_txnid),
            self.mi_recent_txnid <= usize::MAX ==> r == self.mi_recent_txnid,
    {
        to_word(self.mi_recent_txnid)
    }

    /// Max reader slots in the environment
    pub fn max_readers(&self) -> (r: usize)
        ensures
            r == self.mi_maxreaders,
    {
        self.mi_maxreaders as usize
    }

    /// Max reader slots used in the environment
    pub fn num_readers(&self) -> (r: usize)
        ensures
            r == self.mi_numreaders,
    {
        self.mi_numreaders as usize
    }
}

} // verus!
