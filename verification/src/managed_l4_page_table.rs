//! The level 4 page table of an address space, and the forking of process tables from the
//! kernel's table.

use core::ops::RangeInclusive;

use vstd::pervasive::unreached;
use vstd::prelude::*;
use x86_64::registers::control::Cr3Flags;
use x86_64::structures::paging::PageTable;

use crate::frame::{is_frame_start, Owned4KibFrame, PagingConfig};
use crate::page_table_with_level::{PageTableLevel, PageTableWithLevelMut};
use crate::table_memory::{copy_entry, table_entries, zero_table, zeroed_entries};

verus! {

/// `Cr3Flags` of the `x86_64` crate, taken as it is given and handed on unread.
#[verifier::external_type_specification]
#[verifier::external_body]
pub struct ExCr3Flags(Cr3Flags);

/// `RangeInclusive::start` of std. Trusted, as std documents it: the lower bound that the range
/// was made with, as long as the range has not been iterated to its end.
pub assume_specification<Idx>[ RangeInclusive::<Idx>::start ](range: &RangeInclusive<Idx>) -> (start: &Idx)
    ensures
        !range@.exhausted ==> *start == range@.start,
;

/// `RangeInclusive::end` of std. Trusted, as std documents it: the upper bound that the range
/// was made with, as long as the range has not been iterated to its end.
pub assume_specification<Idx>[ RangeInclusive::<Idx>::end ](range: &RangeInclusive<Idx>) -> (end: &Idx)
    ensures
        !range@.exhausted ==> *end == range@.end,
;

/// What a kernel table remembers about its forks.
#[derive(Debug)]
pub struct KernelL4Data {
    is_referenced: bool,
}

impl KernelL4Data {
    /// Whether a process table has been forked from the kernel table.
    pub closed spec fn referenced(&self) -> bool {
        self.is_referenced
    }

    /// Whether a process table has been forked from the kernel table.
    pub fn is_referenced(&self) -> (referenced: bool)
        ensures
            referenced == self.referenced(),
    {
        self.is_referenced
    }
}

/// Whose address space a level 4 table describes.
#[derive(Debug)]
pub enum L4Type {
    /// The table of a process. It manages the lower half of the entries.
    User,
    /// The kernel's table. It manages the upper half of the entries, which every process table
    /// shares.
    Kernel(KernelL4Data),
}

impl L4Type {
    /// The index of the first entry that a table of this type manages.
    pub open spec fn first_managed(&self) -> int {
        match self {
            L4Type::User => 0,
            L4Type::Kernel(_) => 256,
        }
    }

    /// The index of the last entry that a table of this type manages.
    pub open spec fn last_managed(&self) -> int {
        match self {
            L4Type::User => 255,
            L4Type::Kernel(_) => 511,
        }
    }

    /// Whether a table of this type manages the entry at `index`.
    pub open spec fn manages(&self, index: int) -> bool {
        self.first_managed() <= index <= self.last_managed()
    }

    /// Whether a table of this type may be given level 4 entries that it does not have yet.
    /// A process table always may. The kernel's table may until the first process table is
    /// forked from it: an entry added later would be missing in the forks.
    pub open spec fn may_create_entries(&self) -> bool {
        match self {
            L4Type::User => true,
            L4Type::Kernel(data) => !data.referenced(),
        }
    }

    /// The indices of the entries that a table of this type manages.
    pub fn l4_managed_entry_range(&self) -> (range: RangeInclusive<u16>)
        ensures
            range@.start == self.first_managed(),
            range@.end == self.last_managed(),
            !range@.exhausted,
    {
        match self {
            L4Type::User => RangeInclusive::new(0, 255),
            L4Type::Kernel(_) => RangeInclusive::new(256, 511),
        }
    }

    /// Whether a table of this type may be given level 4 entries that it does not have yet.
    pub fn can_create_new_l4_entries(&self) -> (allowed: bool)
        ensures
            allowed == self.may_create_entries(),
            self is User ==> allowed,
    {
        match self {
            L4Type::User => true,
            L4Type::Kernel(data) => !data.is_referenced,
        }
    }
}

/// A process table and the kernel's table never manage the same entry: the one has the entries
/// 0 to 255, the other the entries 256 to 511, whether or not it has been forked.
pub proof fn lemma_managed_ranges_disjoint(user: L4Type, kernel: L4Type, index: int)
    requires
        user is User,
        kernel is Kernel,
    ensures
        user.manages(index) <==> 0 <= index <= 255,
        kernel.manages(index) <==> 256 <= index <= 511,
        !(user.manages(index) && kernel.manages(index)),
{
}

/// The entries of a process table when it is forked from a kernel table with the entries
/// `kernel`: the lower half is unused, the upper half is the kernel's.
pub open spec fn forked_entries(kernel: Seq<u64>) -> Seq<u64> {
    Seq::new(512, |i: int| if i < 256 { 0u64 } else { kernel[i] })
}

/// A process table that is forked from a kernel table without entries has no entries either.
pub proof fn lemma_fork_of_zeroed_is_zeroed()
    ensures
        forked_entries(zeroed_entries()) == zeroed_entries(),
{
    assert(forked_entries(zeroed_entries()) =~= zeroed_entries());
}

/// Writing `value` into the entry at `index` of the lower half of a forked table changes that
/// entry and no other: the upper half stays what the kernel's was at the fork, and every other
/// entry of the lower half stays unused.
pub proof fn lemma_lower_half_write_is_local(kernel: Seq<u64>, index: int, value: u64)
    requires
        0 <= index < 256,
    ensures
        forked_entries(kernel).update(index, value).len() == 512,
        forked_entries(kernel).update(index, value)[index] == value,
        forall|i: int|
            256 <= i < 512 ==> #[trigger] forked_entries(kernel).update(index, value)[i]
                == kernel[i],
        forall|i: int|
            0 <= i < 256 && i != index ==> #[trigger] forked_entries(kernel).update(
                index,
                value,
            )[i] == 0,
{
}

/// A level 4 page table together with the frame that holds it.
#[derive(Debug)]
pub struct ManagedL4PageTable<'a> {
    frame: Owned4KibFrame<'a>,
    _type: L4Type,
    config: PagingConfig,
}

/// What has to be written to the CR3 register to make a table the active one.
#[derive(Debug)]
pub struct Cr3Load {
    /// The physical address at which the frame of the level 4 table starts.
    pub frame_start: u64,
    /// The flags to write along with the address.
    pub flags: Cr3Flags,
}

/// Makes every entry of the table in `frame` unused.
fn init_page_table(frame: &mut Owned4KibFrame<'_>)
    ensures
        final(frame).entries() == zeroed_entries(),
        final(frame).start() == old(frame).start(),
{
    zero_table(frame.table_mut());
}

impl PagingConfig {
    /// Creates the kernel's level 4 table in `frame`. The table manages the upper half of the
    /// entries, and no process table has been forked from it yet.
    ///
    /// Every entry of the new table is unused, whatever the frame held before.
    pub fn new_kernel<'a>(self, frame: Owned4KibFrame<'a>) -> (table: ManagedL4PageTable<'a>)
        ensures
            table.entries() == zeroed_entries(),
            table.kind() is Kernel,
            table.kind().may_create_entries(),
            table.start() == frame.start(),
            table.paging_config() == self,
    {
        let mut frame = frame;
        init_page_table(&mut frame);
        ManagedL4PageTable {
            frame,
            _type: L4Type::Kernel(KernelL4Data { is_referenced: false }),
            config: self,
        }
    }
}

impl<'a> ManagedL4PageTable<'a> {
    /// The entries of the table.
    pub closed spec fn entries(&self) -> Seq<u64> {
        self.frame.entries()
    }

    /// The physical address at which the table's frame starts.
    pub closed spec fn start(&self) -> u64 {
        self.frame.start()
    }

    /// Whose table this is.
    pub closed spec fn kind(&self) -> L4Type {
        self._type
    }

    /// How running code reaches physical memory.
    pub closed spec fn paging_config(&self) -> PagingConfig {
        self.config
    }

    /// Forks a process table from the kernel's table, in `frame`.
    ///
    /// The new table manages the lower half of the entries, all of which are unused. Its upper
    /// half holds the values that the kernel's entries have now; what the kernel's table is
    /// given later does not reach it. The kernel's table keeps its entries and remembers that
    /// it has been forked, so it may no longer be given new entries.
    ///
    /// Only the kernel's table can be forked. Code that Verus has not seen and that calls this
    /// on the table of a process is stopped before anything has changed.
    pub fn new_user<'b>(&mut self, frame: Owned4KibFrame<'b>) -> (table: ManagedL4PageTable<'b>)
        requires
            old(self).kind() is Kernel,
        ensures
            table.entries() == forked_entries(old(self).entries()),
            table.kind() is User,
            table.start() == frame.start(),
            table.paging_config() == old(self).paging_config(),
            final(self).kind() is Kernel,
            !final(self).kind().may_create_entries(),
            final(self).entries() == old(self).entries(),
            final(self).start() == old(self).start(),
            final(self).paging_config() == old(self).paging_config(),
    {
        match &mut self._type {
            L4Type::User => {
                unreached::<()>();
            },
            L4Type::Kernel(KernelL4Data { is_referenced }) => {
                *is_referenced = true;
            },
        }
        let mut frame = frame;
        init_page_table(&mut frame);
        let mut lower_half = ManagedL4PageTable { frame, _type: L4Type::User, config: self.config };
        let range_to_copy = self._type.l4_managed_entry_range();
        let last: u16 = *range_to_copy.end();
        let mut index: u16 = *range_to_copy.start();
        while index <= last
            invariant
                last == 511,
                256 <= index <= 512,
                self.entries() == old(self).entries(),
                self.start() == old(self).start(),
                self.paging_config() == old(self).paging_config(),
                self.kind() is Kernel,
                !self.kind().may_create_entries(),
                lower_half.kind() is User,
                lower_half.start() == frame.start(),
                lower_half.paging_config() == old(self).paging_config(),
                lower_half.entries().len() == 512,
                forall|i: int| 0 <= i < 256 ==> lower_half.entries()[i] == 0,
                forall|i: int| 256 <= i < index ==> lower_half.entries()[i] == self.entries()[i],
            decreases 512 - index,
        {
            copy_entry(lower_half.frame.table_mut(), self.frame.table(), index);
            index = index + 1;
        }
        lower_half
    }

    /// The table itself, to read and to change entry by entry.
    ///
    /// Nothing holds the caller to the half that this table manages, nor to
    /// [`L4Type::can_create_new_l4_entries`]: whoever writes through the reference answers for
    /// both. Whatever the caller leaves in the table is what the table's entries are afterwards.
    pub fn page_table(&mut self) -> (table: &mut PageTable)
        ensures
            table_entries(*table) == old(self).entries(),
            final(self).entries() == table_entries(*final(table)),
            final(self).kind() == old(self).kind(),
            final(self).start() == old(self).start(),
            final(self).paging_config() == old(self).paging_config(),
    {
        self.frame.table_mut()
    }

    /// The table as the root from which the lower levels are walked.
    pub fn table_mut<'t>(&'t mut self) -> (view: PageTableWithLevelMut<'t, 'a>)
        ensures
            view.level == PageTableLevel::L4,
            *view.l4 == *old(self),
            *final(view.l4) == *final(self),
    {
        PageTableWithLevelMut { level: PageTableLevel::L4, l4: self }
    }

    /// What the caller has to write to CR3 to make this table the active one: the address of
    /// the table's frame, along with `flags` as they were given. Nothing is written here.
    pub fn switch_to(&self, flags: Cr3Flags) -> (load: Cr3Load)
        ensures
            load.frame_start == self.start(),
            is_frame_start(load.frame_start),
            load.flags == flags,
    {
        Cr3Load { frame_start: self.frame.start_address(), flags }
    }

    /// The frame that holds the table.
    pub fn frame(&self) -> (frame: &Owned4KibFrame<'a>)
        ensures
            frame.start() == self.start(),
            frame.entries() == self.entries(),
    {
        &self.frame
    }

    /// Whose table this is.
    pub fn l4_type(&self) -> (l4_type: &L4Type)
        ensures
            *l4_type == self.kind(),
    {
        &self._type
    }

    /// How running code reaches physical memory.
    pub fn config(&self) -> (config: PagingConfig)
        ensures
            config == self.paging_config(),
    {
        self.config
    }
}

} // verus!
