//! A page table together with its level, as the code that walks the levels takes it.

use vstd::prelude::*;

use crate::managed_l4_page_table::ManagedL4PageTable;

verus! {

/// The level of a page table in four-level paging. Level 4 is the top.
#[derive(Clone, Copy, Debug, PartialEq, Eq, Structural)]
pub enum PageTableLevel {
    L4,
    L3,
    L2,
    L1,
}

/// A page table to walk, with its level and the level 4 table that it belongs to.
#[derive(Debug)]
pub struct PageTableWithLevelMut<'t, 'f> {
    /// The level of the table.
    pub level: PageTableLevel,
    /// The level 4 table that the table belongs to.
    pub l4: &'t mut ManagedL4PageTable<'f>,
}

} // verus!
