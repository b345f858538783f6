//! Frames of physical memory and how running code reaches them.

use vstd::prelude::*;
use x86_64::structures::paging::PageTable;

use crate::table_memory::table_entries;

verus! {

/// The size of a frame in bytes.
pub const FRAME_SIZE: u64 = 4096;

/// The first address that is too large to be a physical address: x86_64 has 52 address bits.
pub const PHYSICAL_ADDRESS_LIMIT: u64 = 0x10_0000_0000_0000;

/// Whether `address` is where a 4 KiB frame of physical memory starts.
pub open spec fn is_frame_start(address: u64) -> bool {
    address % FRAME_SIZE == 0 && address < PHYSICAL_ADDRESS_LIMIT
}

/// The physical address at which a 4 KiB frame starts.
#[derive(Clone, Copy, Debug)]
pub struct FrameAddress {
    address: u64,
}

impl FrameAddress {
    #[verifier::type_invariant]
    spec fn aligned_and_in_range(self) -> bool {
        is_frame_start(self.address)
    }

    /// The address as a number.
    pub closed spec fn value(self) -> u64 {
        self.address
    }

    /// Accepts `address` if a frame can start there: it is a multiple of 4096 and fits in 52
    /// bits.
    pub fn new(address: u64) -> (result: Option<Self>)
        ensures
            result is Some <==> is_frame_start(address),
            result matches Some(frame) ==> frame.value() == address,
    {
        if address % FRAME_SIZE == 0 && address < PHYSICAL_ADDRESS_LIMIT {
            Some(FrameAddress { address })
        } else {
            None
        }
    }

    /// The address as a number.
    pub fn as_u64(self) -> (address: u64)
        ensures
            address == self.value(),
            is_frame_start(address),
    {
        proof {
            use_type_invariant(self);
        }
        self.address
    }
}

/// Exclusive ownership of one 4 KiB frame that holds, or is about to hold, a page table.
///
/// The token carries the frame's physical address and the only reference through which running
/// code reaches the frame's memory. Moving the token moves the ownership of the frame.
#[derive(Debug)]
pub struct Owned4KibFrame<'a> {
    address: FrameAddress,
    table: &'a mut PageTable,
}

impl<'a> Owned4KibFrame<'a> {
    /// The physical address at which the frame starts.
    pub closed spec fn start(&self) -> u64 {
        self.address.value()
    }

    /// What the frame holds, read as the entries of a page table.
    pub closed spec fn entries(&self) -> Seq<u64> {
        table_entries(*self.table)
    }

    /// Takes ownership of the frame at `address`, whose memory running code reaches through
    /// `table`.
    pub fn new(address: FrameAddress, table: &'a mut PageTable) -> (frame: Self)
        ensures
            frame.start() == address.value(),
            frame.entries() == table_entries(*old(table)),
    {
        Owned4KibFrame { address, table }
    }

    /// The physical address at which the frame starts.
    pub fn start_address(&self) -> (address: u64)
        ensures
            address == self.start(),
            is_frame_start(address),
    {
        self.address.as_u64()
    }

    /// The frame's memory, to read.
    pub fn table(&self) -> (table: &PageTable)
        ensures
            table_entries(*table) == self.entries(),
    {
        &*self.table
    }

    /// The frame's memory, to change. Whatever the caller leaves there is what the frame holds
    /// afterwards; the address stays.
    pub fn table_mut(&mut self) -> (table: &mut PageTable)
        ensures
            table_entries(*table) == old(self).entries(),
            final(self).entries() == table_entries(*final(table)),
            final(self).start() == old(self).start(),
    {
        &mut *self.table
    }
}

/// How running code reaches physical memory: all of it is mapped at a fixed offset.
///
/// The value is made once per system and handed on to every table that is forked.
#[derive(Clone, Copy, Debug, PartialEq, Eq, Structural)]
pub struct PagingConfig {
    /// The virtual address at which physical address 0 is mapped.
    pub physical_memory_offset: u64,
}

} // verus!
