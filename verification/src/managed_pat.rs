//! Which page table flags select a memory type, given what the page attribute table holds.

use vstd::prelude::*;

verus! {

/// The number of entries in the page attribute table.
pub const PAT_ENTRY_COUNT: usize = 8;

/// A memory type that an entry of the page attribute table can hold.
#[derive(Clone, Copy, Debug, PartialEq, Eq, Structural)]
pub enum PatMemoryType {
    /// Uncacheable (UC).
    StrongUncacheable,
    /// Write combining (WC).
    WriteCombining,
    /// Write through (WT).
    WriteThrough,
    /// Write protected (WP).
    WriteProtected,
    /// Write back (WB).
    WriteBack,
    /// Uncacheable, unless the memory type range registers say write combining (UC-).
    Uncacheable,
}

impl PatMemoryType {
    /// The number that stands for the memory type in an entry of the page attribute table.
    pub open spec fn encoding(self) -> u8 {
        match self {
            PatMemoryType::StrongUncacheable => 0,
            PatMemoryType::WriteCombining => 1,
            PatMemoryType::WriteThrough => 4,
            PatMemoryType::WriteProtected => 5,
            PatMemoryType::WriteBack => 6,
            PatMemoryType::Uncacheable => 7,
        }
    }

    /// The memory type that `bits` stands for in an entry of the page attribute table, if it
    /// stands for one: 2, 3 and everything from 8 on are reserved.
    pub fn from_bits(bits: u8) -> (memory_type: Option<Self>)
        ensures
            memory_type is None <==> bits == 2 || bits == 3 || bits >= 8,
            memory_type matches Some(found) ==> found.encoding() == bits,
    {
        match bits {
            0 => Some(PatMemoryType::StrongUncacheable),
            1 => Some(PatMemoryType::WriteCombining),
            4 => Some(PatMemoryType::WriteThrough),
            5 => Some(PatMemoryType::WriteProtected),
            6 => Some(PatMemoryType::WriteBack),
            7 => Some(PatMemoryType::Uncacheable),
            _ => None,
        }
    }
}

/// The size of the page that an entry maps.
#[allow(non_camel_case_types)]
#[derive(Clone, Copy, Debug, PartialEq, Eq, Structural)]
pub enum PageSize {
    _1GiB,
    _2MiB,
    _4KiB,
}

/// The three bits of a page table entry that together select an entry of the page attribute
/// table.
#[derive(Clone, Copy, Debug, PartialEq, Eq, Structural)]
pub struct PatFlags {
    /// Bit 0 of the selected index: the write-through flag.
    pub write_through: bool,
    /// Bit 1 of the selected index: the no-cache flag.
    pub no_cache: bool,
    /// Bit 2 of the selected index. It goes into the bit that also marks a huge page, for
    /// every page size.
    pub huge_page: bool,
}

impl PatFlags {
    /// The flags that select the entry at `index` of the page attribute table for a page of
    /// size `page_size`. Each flag is one bit of the index.
    pub open spec fn selecting(index: int, page_size: PageSize) -> PatFlags {
        PatFlags {
            write_through: index % 2 == 1,
            no_cache: (index / 2) % 2 == 1,
            huge_page: (index / 4) % 2 == 1,
        }
    }
}

/// Whether `index` is the first place at which `programmed` holds `memory_type`.
pub open spec fn is_first_match(
    programmed: Seq<PatMemoryType>,
    memory_type: PatMemoryType,
    index: int,
) -> bool {
    &&& 0 <= index < programmed.len()
    &&& programmed[index] == memory_type
    &&& forall|earlier: int| 0 <= earlier < index ==> programmed[earlier] != memory_type
}

/// A memory type has at most one first place in the page attribute table.
pub proof fn lemma_first_match_unique(
    programmed: Seq<PatMemoryType>,
    memory_type: PatMemoryType,
    first: int,
    second: int,
)
    requires
        is_first_match(programmed, memory_type, first),
        is_first_match(programmed, memory_type, second),
    ensures
        first == second,
{
}

/// The flags that select an entry of the page attribute table do not depend on the page size.
/// Where bit 2 of the index is set, the bit that also marks a huge page is set for 4 KiB,
/// 2 MiB and 1 GiB pages alike.
pub proof fn lemma_flags_same_for_every_page_size(index: int, one: PageSize, other: PageSize)
    ensures
        PatFlags::selecting(index, one) == PatFlags::selecting(index, other),
        (index / 4) % 2 == 1 ==> PatFlags::selecting(index, one).huge_page,
{
}

/// The first place at which `programmed` holds `memory_type`.
fn first_position(programmed: &[PatMemoryType], memory_type: PatMemoryType) -> (position: Option<usize>)
    ensures
        position is None <==> !programmed@.contains(memory_type),
        position matches Some(index) ==> is_first_match(programmed@, memory_type, index as int),
{
    let mut index: usize = 0;
    while index < programmed.len()
        invariant
            index <= programmed.len(),
            forall|earlier: int| 0 <= earlier < index ==> programmed@[earlier] != memory_type,
        decreases programmed.len() - index,
    {
        if programmed[index] == memory_type {
            return Some(index);
        }
        index = index + 1;
    }
    None
}

/// The promise that the page attribute table is not written for as long as the value is used.
#[derive(Clone, Copy, Debug)]
#[non_exhaustive]
pub struct ManagedPat;

impl ManagedPat {
    /// Whoever makes the value promises not to write to the page attribute table afterwards.
    pub fn new() -> Self {
        Self {  }
    }

    /// The page table flags that give a page of size `page_size` the memory type `memory_type`,
    /// where `programmed` is what the page attribute table holds, in the order of its entries.
    ///
    /// The flags select the first entry that holds `memory_type`. If no entry holds it, there
    /// are no such flags and the result is `None`.
    pub fn get_page_table_flags(
        &self,
        programmed: &[PatMemoryType],
        memory_type: PatMemoryType,
        page_size: PageSize,
    ) -> (flags: Option<PatFlags>)
        requires
            programmed@.len() <= PAT_ENTRY_COUNT,
        ensures
            flags is None <==> !programmed@.contains(memory_type),
            flags matches Some(found) ==> exists|index: int|
                #[trigger] is_first_match(programmed@, memory_type, index) && found
                    == PatFlags::selecting(index, page_size),
    {
        let pat_msr_index = match first_position(programmed, memory_type) {
            Some(index) => index,
            None => { return None; },
        };
        assert(pat_msr_index < 8);
        assert((pat_msr_index & 0b001 != 0) == (pat_msr_index % 2 == 1)) by (bit_vector)
            requires
                pat_msr_index < 8,
        ;
        assert((pat_msr_index & 0b010 != 0) == ((pat_msr_index / 2) % 2 == 1)) by (bit_vector)
            requires
                pat_msr_index < 8,
        ;
        assert((pat_msr_index & 0b100 != 0) == ((pat_msr_index / 4) % 2 == 1)) by (bit_vector)
            requires
                pat_msr_index < 8,
        ;
        let mut flags = PatFlags { write_through: false, no_cache: false, huge_page: false };
        if pat_msr_index & 0b001 != 0 {
            flags.write_through = true;
        }
        if pat_msr_index & 0b010 != 0 {
            flags.no_cache = true;
        }
        if pat_msr_index & 0b100 != 0 {
            match page_size {
                PageSize::_1GiB | PageSize::_2MiB => { flags.huge_page = true; },
                PageSize::_4KiB => { flags.huge_page = true; },
            }
        }
        Some(flags)
    }
}

} // verus!
