//! The contents of a page table, as the contracts of this crate see them.
//!
//! [`PageTable`] comes from the `x86_64` crate and keeps its entries private. The functions here
//! are the only ones that touch a table; what they promise is taken from that crate's source and
//! is not proved.

use vstd::prelude::*;
use x86_64::structures::paging::{PageTable, PageTableIndex};

verus! {

/// `PageTable` of the `x86_64` crate: 512 entries of 64 bits each, which the crate keeps
/// private.
#[verifier::external_type_specification]
#[verifier::external_body]
pub struct ExPageTable(PageTable);

/// The raw 64-bit values of a table's entries, in index order. An entry is unused exactly when
/// its value is zero.
pub uninterp spec fn table_entries(table: PageTable) -> Seq<u64>;

/// The entries of a table in which every entry is unused.
pub open spec fn zeroed_entries() -> Seq<u64> {
    Seq::new(512, |i: int| 0u64)
}

/// Calls `PageTable::zero`, which visits each of the 512 entries and sets it unused. Trusted:
/// afterwards the table holds 512 entries and each is zero.
#[verifier::external_body]
pub(crate) fn zero_table(table: &mut PageTable)
    ensures
        table_entries(*final(table)) == zeroed_entries(),
{
    table.zero();
}

/// Indexes both tables with `PageTableIndex::new(index)` and calls `PageTableEntry::clone_from`
/// on the target's entry. Trusted: the target's entry at `index` takes the value of the source's
/// entry at `index`, and no other entry of the target changes. `PageTableIndex::new` panics from
/// 512 on, which `requires` leaves out.
#[verifier::external_body]
pub(crate) fn copy_entry(target: &mut PageTable, source: &PageTable, index: u16)
    requires
        index < 512,
    ensures
        table_entries(*final(target)) == table_entries(*old(target)).update(
            index as int,
            table_entries(*source)[index as int],
        ),
{
    let slot = PageTableIndex::new(index);
    target[slot].clone_from(&source[slot]);
}

} // verus!
