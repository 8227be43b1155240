use x86_bits::structures::paging::bits64::PageMapEntry;
use x86_bits::structures::paging::bits64::PageTable;
use x86_bits::structures::paging::bits64::Pml1e;
use x86_bits::structures::paging::bits64::Pml2e;
use x86_bits::structures::paging::bits64::Pml3e;
use x86_bits::structures::paging::bits64::Pml4e;
use x86_bits::structures::paging::bits64::Pml5e;
use x86_bits::structures::paging::bits64::Unclassified;

#[test]
fn pml5e() {
    let entry = PageMapEntry::<Pml5e, Unclassified>::from_raw(0b0000_0010_1011);
    let entry = entry.present().unwrap();

    assert!(entry.writable());
    assert!(!entry.user());
    assert!(entry.write_through());
    assert!(!entry.cache_disable());
    assert!(entry.accessed());

    let entry = entry.branch();
    assert_eq!(entry.frame(), 0)
}

#[test]
fn page_table() {
    let mut table = PageTable::<Pml5e>::new();
    let entry = table.get(0).unwrap();

    let entry = entry
        .set_present()
        .set_user(false)
        .set_restart(false)
        .set_writable(false)
        .set_accessed(false)
        .set_no_execute(true)
        .set_write_through(false)
        .set_cache_disable(false)
        .set_branch(0xF0_0000);

    table.set(0, entry.unclassified()).unwrap();
}

#[test]
fn classify_absent_entry() {
    let entry = PageMapEntry::<Pml4e, Unclassified>::from_raw(0b0010_1010);
    assert!(entry.present().is_none());
}

#[test]
fn classify_present_roundtrip_keeps_raw() {
    let raw = 0x000A_BCDE_F000_0FE1;
    let entry = PageMapEntry::<Pml2e, Unclassified>::from_raw(raw);
    let present = entry.present().unwrap();
    assert_eq!(present.to_raw(), raw);
    let unclassified = present.unclassified();
    assert_eq!(unclassified.to_raw(), raw);
    let again = unclassified.present().unwrap();
    assert_eq!(again.to_raw(), raw);
}

#[test]
fn leaf_branch_classification_is_exclusive() {
    let leaf_raw = PageMapEntry::<Pml2e, Unclassified>::from_raw(0b1000_0001);
    let leaf_entry = leaf_raw.present().unwrap();
    assert!(leaf_entry.leaf_opt().is_some());
    assert!(leaf_entry.branch_opt().is_none());

    let branch_raw = PageMapEntry::<Pml3e, Unclassified>::from_raw(0b0000_0001);
    let branch_entry = branch_raw.present().unwrap();
    assert!(branch_entry.leaf_opt().is_none());
    assert!(branch_entry.branch_opt().is_some());
}

#[test]
fn leaf_frames_use_the_level_masks() {
    let address = 0x00FF_DEAD_BEEF_FFFF;

    let level1 = PageMapEntry::<Pml1e, Unclassified>::new().set_present().set_leaf(address);
    assert_eq!(level1.frame(), address & 0x000F_FFFF_FFFF_F000);

    let level2 = PageMapEntry::<Pml2e, Unclassified>::new().set_present().set_leaf(address);
    assert_eq!(level2.frame(), address & 0x000F_FFFF_FFE0_0000);

    let level3 = PageMapEntry::<Pml3e, Unclassified>::new().set_present().set_leaf(address);
    assert_eq!(level3.frame(), address & 0x000F_FFFF_C000_0000);
}

#[test]
fn branch_frame_uses_the_shared_mask() {
    let address = 0x00FF_DEAD_BEEF_FFFF;

    let level4 = PageMapEntry::<Pml4e, Unclassified>::new().set_present().set_branch(address);
    assert_eq!(level4.frame(), address & 0x000F_FFFF_FFFF_F000);

    let level5 = PageMapEntry::<Pml5e, Unclassified>::new().set_present().set_branch(address);
    assert_eq!(level5.frame(), address & 0x000F_FFFF_FFFF_F000);
}

#[test]
fn set_leaf_keeps_the_control_bits() {
    let entry = PageMapEntry::<Pml1e, Unclassified>::from_raw(0b0110_0011)
        .present()
        .unwrap()
        .set_leaf(0xABCD_E000);
    assert_eq!(entry.to_raw(), 0xABCD_E000 | 0b0110_0011);
    assert_eq!(entry.frame(), 0xABCD_E000);
}

#[test]
fn pat_bit_position_depends_on_the_level() {
    let level1 = PageMapEntry::<Pml1e, Unclassified>::from_raw(0b1000_0001)
        .present()
        .unwrap()
        .leaf();
    assert!(level1.pat());
    assert!(!level1.set_pat(false).pat());

    let level2 = PageMapEntry::<Pml2e, Unclassified>::from_raw(0x1000 | 0x80 | 0x1)
        .present()
        .unwrap()
        .leaf_opt()
        .unwrap();
    assert!(level2.pat());
    assert_eq!(level2.set_pat(false).to_raw(), 0x80 | 0x1);

    let level3 = PageMapEntry::<Pml3e, Unclassified>::from_raw(0x80 | 0x1)
        .present()
        .unwrap()
        .leaf_opt()
        .unwrap();
    assert!(!level3.pat());
    assert_eq!(level3.set_pat(true).to_raw(), 0x1000 | 0x80 | 0x1);
}

#[test]
fn present_bit_setters_splice_single_bits() {
    let entry = PageMapEntry::<Pml4e, Unclassified>::new().set_present();
    assert_eq!(entry.to_raw(), 0b1);

    let entry = entry.set_writable(true);
    assert_eq!(entry.to_raw(), 0b11);
    assert!(entry.writable());

    let entry = entry.set_user(true);
    assert_eq!(entry.to_raw(), 0b111);
    assert!(entry.user());

    let entry = entry.set_write_through(true);
    assert_eq!(entry.to_raw(), 0b1111);
    assert!(entry.write_through());

    let entry = entry.set_cache_disable(true);
    assert_eq!(entry.to_raw(), 0b1_1111);
    assert!(entry.cache_disable());

    let entry = entry.set_accessed(true);
    assert_eq!(entry.to_raw(), 0b11_1111);
    assert!(entry.accessed());

    let entry = entry.set_restart(true);
    assert_eq!(entry.to_raw(), 0b1000_0011_1111);
    assert!(entry.restart());

    let entry = entry.set_no_execute(true);
    assert_eq!(entry.to_raw(), (1 << 63) | 0b1000_0011_1111);
    assert!(entry.no_execute());

    let entry = entry.set_writable(false);
    assert_eq!(entry.to_raw(), (1 << 63) | 0b1000_0011_1101);
    assert!(!entry.writable());
}

#[test]
fn leaf_dirty_and_global_bits() {
    let entry = PageMapEntry::<Pml1e, Unclassified>::new().set_present().leaf();
    assert!(!entry.dirty());
    assert!(!entry.global());

    let entry = entry.set_dirty(true);
    assert_eq!(entry.to_raw(), 0b100_0001);
    assert!(entry.dirty());

    let entry = entry.set_global(true);
    assert_eq!(entry.to_raw(), 0b1_0100_0001);
    assert!(entry.global());
}

#[test]
fn clear_present_resets_the_classification() {
    let entry = PageMapEntry::<Pml5e, Unclassified>::from_raw(0b1011);
    let present = entry.present().unwrap();
    let cleared = present.clear_present();
    assert_eq!(cleared.to_raw(), 0b1010);
    assert!(cleared.present().is_none());
}

#[test]
fn page_table_bounds() {
    let mut table = PageTable::<Pml1e>::new();

    assert!(table.get(511).is_some());
    assert!(table.get(512).is_none());

    let entry = PageMapEntry::<Pml1e, Unclassified>::from_raw(0xABC);
    assert!(table.set(511, entry).is_ok());
    assert_eq!(table.get(511).unwrap().to_raw(), 0xABC);

    let rejected = table.set(512, entry);
    assert_eq!(rejected.unwrap_err().to_raw(), 0xABC);
    assert_eq!(table.get(511).unwrap().to_raw(), 0xABC);
}

#[test]
fn new_page_table_is_empty() {
    let table = PageTable::<Pml3e>::new();
    assert_eq!(table.get(0).unwrap().to_raw(), 0);
    assert_eq!(table.get(511).unwrap().to_raw(), 0);
}
