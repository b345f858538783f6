use managed_paging::{
    FrameAddress, L4Type, ManagedL4PageTable, Owned4KibFrame, PageTableLevel, PagingConfig,
};
use x86_64::registers::control::Cr3Flags;
use x86_64::structures::paging::{PageTable, PageTableFlags};
use x86_64::PhysAddr;

const CONFIG: PagingConfig = PagingConfig { physical_memory_offset: 0xffff_8000_0000_0000 };

fn frame_at(address: u64, table: &mut PageTable) -> Owned4KibFrame<'_> {
    Owned4KibFrame::new(FrameAddress::new(address).unwrap(), table)
}

fn fill(table: &mut PageTable, address: u64) {
    for index in 0..512usize {
        table[index].set_addr(PhysAddr::new(address), PageTableFlags::PRESENT);
    }
}

fn raw(table: &PageTable, index: usize) -> u64 {
    table[index].addr().as_u64() | table[index].flags().bits()
}

fn all_raw(table: &mut ManagedL4PageTable<'_>) -> Vec<u64> {
    let entries = table.page_table();
    (0..512usize).map(|index| raw(entries, index)).collect()
}

#[test]
fn frame_address_accepts_frame_starts() {
    assert_eq!(FrameAddress::new(0).unwrap().as_u64(), 0);
    assert_eq!(FrameAddress::new(0x1000).unwrap().as_u64(), 0x1000);
    assert_eq!(FrameAddress::new(0x7fff_f000).unwrap().as_u64(), 0x7fff_f000);
}

#[test]
fn frame_address_rejects_unaligned_addresses() {
    assert!(FrameAddress::new(1).is_none());
    assert!(FrameAddress::new(0x1001).is_none());
    assert!(FrameAddress::new(0xfff).is_none());
    assert!(FrameAddress::new(0x1800).is_none());
}

#[test]
fn frame_address_stops_at_52_bits() {
    let last = (1u64 << 52) - 4096;
    assert_eq!(FrameAddress::new(last).unwrap().as_u64(), last);
    assert!(FrameAddress::new(1u64 << 52).is_none());
    assert!(FrameAddress::new(u64::MAX - 4095).is_none());
}

#[test]
fn frame_keeps_its_address_and_memory() {
    let mut memory = PageTable::new();
    memory[7].set_addr(PhysAddr::new(0x9000), PageTableFlags::PRESENT);
    let mut frame = frame_at(0x4000, &mut memory);
    assert_eq!(frame.start_address(), 0x4000);
    assert_eq!(raw(frame.table(), 7), 0x9001);
    frame.table_mut()[8].set_addr(PhysAddr::new(0xa000), PageTableFlags::WRITABLE);
    assert_eq!(raw(frame.table(), 8), 0xa002);
    assert_eq!(frame.start_address(), 0x4000);
}

#[test]
fn fresh_kernel_table_is_zero() {
    let mut memory = PageTable::new();
    let mut kernel = CONFIG.new_kernel(frame_at(0x1000, &mut memory));
    assert_eq!(all_raw(&mut kernel), vec![0u64; 512]);
    assert!(kernel.page_table().is_empty());
}

#[test]
fn new_kernel_clears_what_the_frame_held() {
    let mut memory = PageTable::new();
    fill(&mut memory, 0x5000);
    assert_eq!(raw(&memory, 0), 0x5001);
    let mut kernel = CONFIG.new_kernel(frame_at(0x1000, &mut memory));
    assert_eq!(all_raw(&mut kernel), vec![0u64; 512]);
    drop(kernel);
    assert!(memory.is_empty());
}

#[test]
fn new_kernel_keeps_frame_and_config() {
    let mut memory = PageTable::new();
    let kernel = CONFIG.new_kernel(frame_at(0x3000, &mut memory));
    assert_eq!(kernel.frame().start_address(), 0x3000);
    assert_eq!(kernel.config(), CONFIG);
    assert!(matches!(kernel.l4_type(), L4Type::Kernel(data) if !data.is_referenced()));
}

#[test]
fn managed_ranges_are_the_two_halves() {
    let mut kernel_memory = PageTable::new();
    let mut user_memory = PageTable::new();
    let mut kernel = CONFIG.new_kernel(frame_at(0x1000, &mut kernel_memory));
    let fresh = kernel.l4_type().l4_managed_entry_range();
    assert_eq!((*fresh.start(), *fresh.end()), (256, 511));
    let user = kernel.new_user(frame_at(0x2000, &mut user_memory));
    let forked = kernel.l4_type().l4_managed_entry_range();
    assert_eq!((*forked.start(), *forked.end()), (256, 511));
    let lower = user.l4_type().l4_managed_entry_range();
    assert_eq!((*lower.start(), *lower.end()), (0, 255));
    assert_eq!(lower.clone().count(), 256);
    assert_eq!(forked.clone().count(), 256);
    for index in 0..512u16 {
        assert_ne!(lower.contains(&index), forked.contains(&index));
    }
}

#[test]
fn new_entries_are_allowed_until_the_first_fork() {
    let mut kernel_memory = PageTable::new();
    let mut first_memory = PageTable::new();
    let mut second_memory = PageTable::new();
    let mut kernel = CONFIG.new_kernel(frame_at(0x1000, &mut kernel_memory));
    assert!(kernel.l4_type().can_create_new_l4_entries());
    let first = kernel.new_user(frame_at(0x2000, &mut first_memory));
    assert!(!kernel.l4_type().can_create_new_l4_entries());
    assert!(matches!(kernel.l4_type(), L4Type::Kernel(data) if data.is_referenced()));
    assert!(first.l4_type().can_create_new_l4_entries());
    let second = kernel.new_user(frame_at(0x3000, &mut second_memory));
    assert!(!kernel.l4_type().can_create_new_l4_entries());
    assert!(matches!(kernel.l4_type(), L4Type::Kernel(data) if data.is_referenced()));
    assert!(second.l4_type().can_create_new_l4_entries());
    assert!(matches!(first.l4_type(), L4Type::User));
    assert!(matches!(second.l4_type(), L4Type::User));
}

#[test]
fn fork_of_fresh_kernel_is_zero() {
    let mut kernel_memory = PageTable::new();
    let mut user_memory = PageTable::new();
    let mut kernel = CONFIG.new_kernel(frame_at(0x1000, &mut kernel_memory));
    let mut user = kernel.new_user(frame_at(0x2000, &mut user_memory));
    let kernel_entries = all_raw(&mut kernel);
    let user_entries = all_raw(&mut user);
    assert_eq!(user_entries[256..], kernel_entries[256..]);
    assert_eq!(user_entries[..256], vec![0u64; 256][..]);
    assert_eq!(user_entries, vec![0u64; 512]);
}

#[test]
fn fork_copies_the_kernel_half_and_clears_the_rest() {
    let mut kernel_memory = PageTable::new();
    let mut user_memory = PageTable::new();
    fill(&mut user_memory, 0x7000);
    let mut kernel = CONFIG.new_kernel(frame_at(0x1000, &mut kernel_memory));
    {
        let table = kernel.page_table();
        table[5].set_addr(PhysAddr::new(0x5000), PageTableFlags::PRESENT);
        table[255].set_addr(PhysAddr::new(0xf000), PageTableFlags::PRESENT);
        table[256].set_addr(PhysAddr::new(0x10_0000), PageTableFlags::PRESENT);
        table[300].set_addr(
            PhysAddr::new(0x20_0000),
            PageTableFlags::PRESENT | PageTableFlags::WRITABLE | PageTableFlags::NO_EXECUTE,
        );
        table[511].set_addr(PhysAddr::new(0x30_0000), PageTableFlags::GLOBAL);
    }
    let before = all_raw(&mut kernel);
    let mut user = kernel.new_user(frame_at(0x2000, &mut user_memory));
    let user_entries = all_raw(&mut user);
    assert_eq!(user_entries[..256], vec![0u64; 256][..]);
    assert_eq!(user_entries[256], 0x10_0001);
    assert_eq!(user_entries[300], 0x8000_0000_0020_0003);
    assert_eq!(user_entries[511], 0x30_0100);
    assert_eq!(user_entries[256..], before[256..]);
    assert_eq!(user_entries[257], 0);
    assert_eq!(all_raw(&mut kernel), before);
    assert_eq!(user.frame().start_address(), 0x2000);
    assert_eq!(kernel.frame().start_address(), 0x1000);
    assert_eq!(user.config(), CONFIG);
}

#[test]
fn forks_own_independent_frames() {
    let mut kernel_memory = PageTable::new();
    let mut first_memory = PageTable::new();
    let mut second_memory = PageTable::new();
    let mut kernel = CONFIG.new_kernel(frame_at(0x1000, &mut kernel_memory));
    kernel.page_table()[400].set_addr(PhysAddr::new(0x40_0000), PageTableFlags::PRESENT);
    let mut first = kernel.new_user(frame_at(0x2000, &mut first_memory));
    let mut second = kernel.new_user(frame_at(0x3000, &mut second_memory));
    let kernel_before = all_raw(&mut kernel);
    let second_before = all_raw(&mut second);
    first.page_table()[0].set_addr(PhysAddr::new(0x8000), PageTableFlags::PRESENT);
    first.page_table()[255].set_addr(PhysAddr::new(0x9000), PageTableFlags::WRITABLE);
    assert_eq!(raw(first.page_table(), 0), 0x8001);
    assert_eq!(raw(first.page_table(), 255), 0x9002);
    assert_eq!(raw(first.page_table(), 400), 0x40_0001);
    assert_eq!(all_raw(&mut second), second_before);
    assert_eq!(all_raw(&mut kernel), kernel_before);
    assert_eq!(first.frame().start_address(), 0x2000);
    assert_eq!(second.frame().start_address(), 0x3000);
}

#[test]
fn fork_is_a_snapshot_of_the_kernel_half() {
    let mut kernel_memory = PageTable::new();
    let mut user_memory = PageTable::new();
    let mut late_memory = PageTable::new();
    let mut kernel = CONFIG.new_kernel(frame_at(0x1000, &mut kernel_memory));
    kernel.page_table()[300].set_addr(PhysAddr::new(0x20_0000), PageTableFlags::PRESENT);
    let mut user = kernel.new_user(frame_at(0x2000, &mut user_memory));
    // Only new entries are refused after a fork; an entry that exists can still be replaced.
    assert!(!kernel.l4_type().can_create_new_l4_entries());
    kernel.page_table()[300].set_addr(PhysAddr::new(0x50_0000), PageTableFlags::PRESENT);
    assert_eq!(raw(kernel.page_table(), 300), 0x50_0001);
    assert_eq!(raw(user.page_table(), 300), 0x20_0001);
    let mut late = kernel.new_user(frame_at(0x3000, &mut late_memory));
    assert_eq!(raw(late.page_table(), 300), 0x50_0001);
    assert_eq!(raw(user.page_table(), 300), 0x20_0001);
}

#[test]
fn page_table_writes_reach_the_frame() {
    let mut memory = PageTable::new();
    {
        let mut kernel = CONFIG.new_kernel(frame_at(0x1000, &mut memory));
        kernel.page_table()[256].set_addr(PhysAddr::new(0x6000), PageTableFlags::PRESENT);
        assert_eq!(raw(kernel.frame().table(), 256), 0x6001);
    }
    assert_eq!(raw(&memory, 256), 0x6001);
}

#[test]
fn table_mut_is_rooted_at_level_4() {
    let mut memory = PageTable::new();
    let mut kernel = CONFIG.new_kernel(frame_at(0x1000, &mut memory));
    {
        let view = kernel.table_mut();
        assert_eq!(view.level, PageTableLevel::L4);
        assert_eq!(view.l4.frame().start_address(), 0x1000);
        assert!(view.l4.l4_type().can_create_new_l4_entries());
        view.l4.page_table()[511].set_addr(PhysAddr::new(0x7000), PageTableFlags::PRESENT);
    }
    assert_eq!(raw(kernel.page_table(), 511), 0x7001);
}

#[test]
fn switch_to_names_the_frame_and_the_flags() {
    let mut kernel_memory = PageTable::new();
    let mut user_memory = PageTable::new();
    let mut kernel = CONFIG.new_kernel(frame_at(0x1000, &mut kernel_memory));
    let user = kernel.new_user(frame_at(0xabc_d000, &mut user_memory));
    let load = kernel.switch_to(Cr3Flags::empty());
    assert_eq!(load.frame_start, 0x1000);
    assert_eq!(load.flags, Cr3Flags::empty());
    let load = user.switch_to(Cr3Flags::PAGE_LEVEL_WRITETHROUGH | Cr3Flags::PAGE_LEVEL_CACHE_DISABLE);
    assert_eq!(load.frame_start, 0xabc_d000);
    assert_eq!(load.flags.bits(), 0x18);
}
