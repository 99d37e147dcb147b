use kernel::arch::pagetable::PageTables;

#[test]
fn empty_tables_translate_nothing() {
    let pt = PageTables::new();
    assert_eq!(pt.lookup(0), None);
    assert_eq!(pt.lookup(0xFFFF_8000_0000_0000), None);
}

#[test]
fn a_mapped_page_translates_and_others_stay() {
    let mut pt = PageTables::new();
    let va = 0xFFFF_8000_0020_3000u64;
    pt.map_page(va, 0x0012_3000 | 0x03, 0x03);
    assert_eq!(pt.lookup(va), Some(0x0012_3003));
    assert_eq!(pt.lookup(va + 0xFFF), Some(0x0012_3003));
    assert_eq!(pt.lookup(va + 0x1000), None);
    assert_eq!(pt.lookup(0), None);
    assert_eq!(pt.levels.len(), 4);
    // A neighbour shares every table: nothing more is made.
    pt.map_page(va + 0x1000, 0x0045_6000 | 0x03, 0x03);
    assert_eq!(pt.levels.len(), 4);
    assert_eq!(pt.lookup(va), Some(0x0012_3003));
    assert_eq!(pt.lookup(va + 0x1000), Some(0x0045_6003));
    // A page in another part of the space makes its own tables.
    pt.map_page(0x40_0000, 0x0078_9000 | 0x07, 0x07);
    assert_eq!(pt.levels.len(), 7);
    assert_eq!(pt.lookup(0x40_0000), Some(0x0078_9007));
    assert_eq!(pt.lookup(va), Some(0x0012_3003));
    // Unmapping by writing an absent entry.
    pt.map_page(va, 0, 0x03);
    assert_eq!(pt.lookup(va), None);
    assert_eq!(pt.lookup(va + 0x1000), Some(0x0045_6003));
}
