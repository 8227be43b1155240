use x86_bits::registers::segmentation::SegmentSelector;
use x86_bits::PrivilegeLevel;

#[test]
fn segment_selector_roundtrip() {
    let index = 3753;
    let ldt = true;
    let rpl = PrivilegeLevel::Ring3;

    let segment_selector = SegmentSelector::new(index, ldt, rpl);

    assert_eq!(segment_selector.index(), index);
    assert_eq!(segment_selector.ldt(), ldt);
    assert_eq!(segment_selector.rpl(), rpl);
}

#[test]
fn selector_largest_index() {
    let segment_selector = SegmentSelector::new(8191, false, PrivilegeLevel::Ring0);

    assert_eq!(segment_selector.index(), 8191);
    assert!(!segment_selector.ldt());
    assert_eq!(segment_selector.rpl(), PrivilegeLevel::Ring0);
    assert_eq!(segment_selector.to_raw(), 8191 << 3);
}

#[test]
fn selector_setters_keep_other_fields() {
    let selector = SegmentSelector::new(100, true, PrivilegeLevel::Ring2);

    let selector = selector.set_index(4000);
    assert_eq!(selector.index(), 4000);
    assert!(selector.ldt());
    assert_eq!(selector.rpl(), PrivilegeLevel::Ring2);

    let selector = selector.set_ldt(false);
    assert_eq!(selector.index(), 4000);
    assert!(!selector.ldt());
    assert_eq!(selector.rpl(), PrivilegeLevel::Ring2);

    let selector = selector.set_rpl(PrivilegeLevel::Ring1);
    assert_eq!(selector.index(), 4000);
    assert!(!selector.ldt());
    assert_eq!(selector.rpl(), PrivilegeLevel::Ring1);
}

#[test]
fn selector_raw_roundtrip() {
    let raw = 0b0111_0101_0010_1110;
    let selector = SegmentSelector::from_raw(raw);
    assert_eq!(selector.to_raw(), raw);
    assert_eq!(selector.index(), raw >> 3);
    assert!(selector.ldt());
    assert_eq!(selector.rpl(), PrivilegeLevel::Ring2);
}

#[test]
fn selector_packing() {
    let selector = SegmentSelector::new(1, true, PrivilegeLevel::Ring3);
    assert_eq!(selector.to_raw(), 0b1111);
}
