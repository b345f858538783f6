//! Management of the top level of x86_64 four-level paging.
//!
//! A [`ManagedL4PageTable`] owns the frame that holds one level 4 page table, knows whether the
//! table belongs to the kernel or to a process, and with that which half of the 512 entries it
//! manages. Process tables are forked from the kernel's table. [`ManagedPat`] answers which page
//! table flags select a memory type, given what is programmed into the page attribute table.

pub mod frame;
pub mod managed_l4_page_table;
pub mod managed_pat;
pub mod page_table_with_level;
pub mod table_memory;

pub use frame::{FrameAddress, Owned4KibFrame, PagingConfig};
pub use managed_l4_page_table::{Cr3Load, KernelL4Data, L4Type, ManagedL4PageTable};
pub use managed_pat::{ManagedPat, PageSize, PatFlags, PatMemoryType};
pub use page_table_with_level::{PageTableLevel, PageTableWithLevelMut};
