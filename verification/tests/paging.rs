use kernel::arch::page::{
    MapLayout, MmapPlan, PageAttribute, PageErrorCode, PageErrorKind, PageLevel, PageManager,
    PageTableEntry, TableStep,
};
use kernel::hal::PhysicalAddress;
use kernel::mem::{MProtect, MemoryMapRequest};

#[test]
fn direct_map_roundtrip() {
    let pa = PhysicalAddress::new(0x1234_5000);
    let va = PageManager::direct_map(pa);
    assert_eq!(va, 0xFFFF_A000_1234_5000);
    assert_eq!(PageManager::direct_unmap(va), Some(pa));
}

#[test]
fn direct_unmap_outside_window() {
    assert_eq!(PageManager::direct_unmap(0x1000), None);
    assert_eq!(PageManager::direct_unmap(0xFFFF_A000_4000_0000), None);
    assert_eq!(
        PageManager::direct_unmap(0xFFFF_A000_3FFF_FFFE),
        Some(PhysicalAddress::new(0x3FFF_FFFE))
    );
}

#[test]
fn mmio_request_maps_direct_window() {
    let base = PhysicalAddress::new(0xFEC0_0000);
    let plan = PageManager::mmap_plan(MemoryMapRequest::Mmio(base, 0x1000));
    assert_eq!(
        plan,
        MmapPlan::MapRange {
            va: 0xFFFF_A000_FEC0_0000,
            len: 0x1000,
            template: PageTableEntry(0xFEC0_0000 | 0x8000_0000_0000_001B),
        }
    );
    assert_eq!(PageManager::mmap_result(plan, true), 0xFFFF_A000_FEC0_0000);
    assert_eq!(PageManager::mmap_result(plan, false), 0);
}

#[test]
fn empty_requests_are_refused() {
    let base = PhysicalAddress::new(0x8000_0000);
    assert_eq!(PageManager::mmap_plan(MemoryMapRequest::Mmio(base, 0)), MmapPlan::Refuse);
    assert_eq!(PageManager::mmap_plan(MemoryMapRequest::Framebuffer(base, 0)), MmapPlan::Refuse);
    assert_eq!(
        PageManager::mmap_plan(MemoryMapRequest::User(0x1000, 0, MProtect::Read)),
        MmapPlan::Refuse
    );
    assert_eq!(
        PageManager::mmap_plan(MemoryMapRequest::MProtect(0x1000, 0, MProtect::Read)),
        MmapPlan::Refuse
    );
    assert_eq!(PageManager::mmap_result(MmapPlan::Refuse, true), 0);
}

#[test]
fn user_request_inside_user_half() {
    let plan = PageManager::mmap_plan(MemoryMapRequest::User(0x40_0000, 0x2000, MProtect::ReadWrite));
    // read-write: no-execute, write, present; then user and the reserved mark
    assert_eq!(
        plan,
        MmapPlan::AllocateAndMap {
            va: 0x40_0000,
            len: 0x2000,
            attr: PageAttribute(0x8000_0000_0000_0207),
            must_succeed: true,
        }
    );
    assert_eq!(PageManager::mmap_result(plan, true), 0x40_0000);
}

#[test]
fn user_request_outside_user_half_is_refused() {
    let plan = PageManager::mmap_plan(MemoryMapRequest::User(0x0000_8000_0000_0000, 0x1000, MProtect::Read));
    assert_eq!(plan, MmapPlan::Refuse);
}

#[test]
fn kernel_request_inside_heap() {
    let va = 0xFFFF_FE00_0000_0000u64;
    let plan = PageManager::mmap_plan(MemoryMapRequest::Kernel(va, 0x1000, MProtect::ReadExec));
    assert_eq!(
        plan,
        MmapPlan::AllocateAndMap { va, len: 0x1000, attr: PageAttribute(1), must_succeed: false }
    );
    let refused = PageManager::mmap_plan(MemoryMapRequest::Kernel(0x1000, 0x1000, MProtect::Read));
    assert_eq!(refused, MmapPlan::Refuse);
}

#[test]
fn mprotect_request_is_passed_on() {
    let plan = PageManager::mmap_plan(MemoryMapRequest::MProtect(0x5000, 0x10, MProtect::Read));
    assert_eq!(plan, MmapPlan::Protect { va: 0x5000, len: 0x10, protection: MProtect::Read });
}

#[test]
fn layout_of_small_pages() {
    let template = PageTableEntry(0x3000 | 3);
    let layout = PageManager::map_layout(0x40_0000, 0x2001, template).unwrap();
    assert_eq!(layout, MapLayout { large: false, page_size: 0x1000, count: 3 });
    assert_eq!(PageManager::map_layout(0x40_0010, 0x10, template), Err(0x40_0010));
}

#[test]
fn layout_of_large_pages() {
    let template = PageTableEntry(0x20_0000 | 0x80 | 3);
    let layout = PageManager::map_layout(0x70_0000, 0x20_0000, template);
    assert_eq!(layout, Err(0x70_0000));
    let layout = PageManager::map_layout(0x40_0000, 0x20_0001, template).unwrap();
    assert_eq!(layout, MapLayout { large: true, page_size: 0x20_0000, count: 2 });
}

#[test]
fn next_page_moves_frame_and_address() {
    let layout = MapLayout { large: false, page_size: 0x1000, count: 2 };
    let template = PageTableEntry(0x8000_0000_0000_3003);
    let (va, next) = PageManager::next_page(&layout, 0x7000, template);
    assert_eq!(va, 0x8000);
    assert_eq!(next, PageTableEntry(0x8000_0000_0000_4003));
}

#[test]
fn leaf_conflicts() {
    let small = MapLayout { large: false, page_size: 0x1000, count: 1 };
    let large = MapLayout { large: true, page_size: 0x20_0000, count: 1 };
    assert!(PageManager::leaf_conflict(&small, PageTableEntry(0x81)));
    assert!(!PageManager::leaf_conflict(&small, PageTableEntry(0x01)));
    assert!(PageManager::leaf_conflict(&large, PageTableEntry(0x01)));
    assert!(!PageManager::leaf_conflict(&large, PageTableEntry(0x81)));
    assert!(!PageManager::leaf_conflict(&large, PageTableEntry(0)));
}

#[test]
fn table_steps() {
    assert_eq!(
        PageManager::table_step(PageTableEntry(0), PageTableEntry(3)),
        TableStep::Allocate
    );
    // a present read-only, no-execute table accepts a writable, executable page
    let existing = PageTableEntry(0x8000_0000_0000_5001);
    assert_eq!(
        PageManager::table_step(existing, PageTableEntry(0x3)),
        TableStep::Accept { entry: PageTableEntry(0x5003), changed: true }
    );
    let same = PageTableEntry(0x5003);
    assert_eq!(
        PageManager::table_step(same, PageTableEntry(0x8000_0000_0000_0001)),
        TableStep::Accept { entry: same, changed: false }
    );
}

#[test]
fn accept_widens_once() {
    let mut entry = PageTableEntry(0x8000_0000_0000_1001);
    assert_eq!(entry.accept(PageAttribute(0x2)), Some(()));
    assert_eq!(entry, PageTableEntry(0x1003));
    assert_eq!(entry.accept(PageAttribute(0x2)), None);
    assert_eq!(entry, PageTableEntry(0x1003));
}

#[test]
fn new_table_entry_and_parents() {
    let e = PageManager::new_table_entry(PhysicalAddress::new(0x9000), PageTableEntry(0x8000_0000_0000_0087));
    assert_eq!(e, PageTableEntry(0x8000_0000_0000_9007));
    assert_eq!(PageManager::parent_template(PageTableEntry(0x8000_0000_0000_0004)), PageTableEntry(0x8000_0000_0000_0007));
}

#[test]
fn protect_layout_rounds_up() {
    let layout = PageManager::protect_layout(0x1001, MProtect::ReadWrite);
    assert_eq!(layout.len, 0x2000);
    assert_eq!(layout.count, 2);
    assert_eq!(layout.new_attr, PageAttribute(0x8000_0000_0000_0003));
    assert_eq!(layout.parent_template, PageAttribute(0x8000_0000_0000_0003));
    let none = PageManager::protect_layout(0, MProtect::NoAccess);
    assert_eq!(none.len, 0);
    assert_eq!(none.count, 0);
    assert_eq!(none.parent_template, PageAttribute(0x2));
    assert_eq!(PageManager::round_up(0x1234, 0xFFF), 0x2000);
}

#[test]
fn page_levels() {
    // the offset mask within a page: its size minus one
    assert_eq!(PageLevel::Level1.size_of_page(), 0xFFF);
    assert_eq!(PageLevel::Level2.size_of_page(), 0x1F_FFFF);
    assert_eq!(PageLevel::Level4.component(0xFFFF_A000_0000_0000), 0x140);
    assert_eq!(PageLevel::Level4.addr(0x140), 0xFFFF_A000_0000_0000);
    assert_eq!(PageLevel::Level4.addr(0x1), 0x80_0000_0000);
    assert_eq!(PageLevel::Level1.pte_of(0x2000), 0xFFFF_FF00_0000_0010);
}

#[test]
fn page_fault_kinds() {
    assert_eq!(PageErrorKind::from_err(PageErrorCode(0)), PageErrorKind::NotPresent);
    assert_eq!(PageErrorKind::from_err(PageErrorCode(0x11)), PageErrorKind::CannotExecute);
    assert_eq!(PageErrorKind::from_err(PageErrorCode(0x03)), PageErrorKind::CannotWrite);
    assert_eq!(PageErrorKind::from_err(PageErrorCode(0x01)), PageErrorKind::CannotRead);
}

#[test]
fn user_attributes_of_protections() {
    assert_eq!(PageManager::user_attributes(MProtect::NoAccess), PageAttribute(0x204));
    assert_eq!(PageManager::user_attributes(MProtect::ReadExec), PageAttribute(0x205));
}

#[test]
fn zero_length_device_ranges_are_refused_at_any_base() {
    let high = PhysicalAddress::new(u64::MAX);
    assert_eq!(PageManager::mmap_plan(MemoryMapRequest::Mmio(high, 0)), MmapPlan::Refuse);
    assert_eq!(PageManager::mmap_plan(MemoryMapRequest::Framebuffer(high, 0)), MmapPlan::Refuse);
}
