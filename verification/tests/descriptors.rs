use x86_bits::structures::descriptor::Code;
use x86_bits::structures::descriptor::Data;
use x86_bits::structures::descriptor::Descriptor;
use x86_bits::structures::descriptor::Unclassified;
use x86_bits::PrivilegeLevel;
use x86_bits::X86_64;

#[test]
fn classify_reads_the_present_bit() {
    let raw = 1u64 << 47;
    let descriptor = Descriptor::<X86_64, Code, Unclassified>::from_raw(raw);
    let present = descriptor.classify_present().unwrap();
    assert_eq!(present.to_raw(), raw);

    let descriptor = Descriptor::<X86_64, Code, Unclassified>::from_raw(0);
    let absent = descriptor.classify_present().unwrap_err();
    assert_eq!(absent.to_raw(), 0);
}

#[test]
fn present_transitions_flip_bit_47() {
    let descriptor = Descriptor::<X86_64, Data, Unclassified>::from_raw(0);
    assert!(!descriptor.is_present());

    let present = descriptor.set_present();
    assert!(present.is_present());
    assert_eq!(present.to_raw(), 1 << 47);

    let absent = present.clear_present();
    assert!(!absent.is_present());
    assert_eq!(absent.to_raw(), 0);
}

#[test]
fn dpl_uses_bits_45_and_46() {
    let descriptor = Descriptor::<X86_64, Code, Unclassified>::from_raw(1 << 47).set_present();
    assert_eq!(descriptor.dpl(), PrivilegeLevel::Ring0);

    let ring1 = descriptor.set_dpl(PrivilegeLevel::Ring1);
    assert_eq!(ring1.dpl(), PrivilegeLevel::Ring1);
    assert_eq!(ring1.to_raw(), (1 << 47) | (1 << 45));

    let ring2 = descriptor.set_dpl(PrivilegeLevel::Ring2);
    assert_eq!(ring2.dpl(), PrivilegeLevel::Ring2);
    assert_eq!(ring2.to_raw(), (1 << 47) | (2 << 45));

    let ring3 = descriptor.set_dpl(PrivilegeLevel::Ring3);
    assert_eq!(ring3.dpl(), PrivilegeLevel::Ring3);
    assert_eq!(ring3.to_raw(), (1 << 47) | (3 << 45));
}

#[test]
fn granularity_uses_bit_55() {
    let descriptor = Descriptor::<X86_64, Data, Unclassified>::from_raw(0).set_present();
    assert!(!descriptor.granularity());

    let scaled = descriptor.set_granularity(true);
    assert!(scaled.granularity());
    assert_eq!(scaled.to_raw(), (1 << 47) | (1 << 55));

    let unscaled = scaled.set_granularity(false);
    assert!(!unscaled.granularity());
    assert_eq!(unscaled.to_raw(), 1 << 47);
}

#[test]
fn base_address_roundtrip() {
    let descriptor = Descriptor::<X86_64, Code, Unclassified>::from_raw(0).set_present();

    let descriptor = descriptor.set_address(0x1234_5678);
    assert_eq!(descriptor.address(), 0x1234_5678);

    let descriptor = descriptor.set_address(0xFFFF_FFFF);
    assert_eq!(descriptor.address(), 0xFFFF_FFFF);

    let descriptor = descriptor.set_address(0);
    assert_eq!(descriptor.address(), 0);
}

#[test]
fn base_address_split() {
    let descriptor = Descriptor::<X86_64, Code, Unclassified>::from_raw(0)
        .set_present()
        .set_address(0xAB12_3456);
    assert_eq!(descriptor.to_raw(), (1 << 47) | (0x12_3456 << 16) | (0xAB << 56));
}

#[test]
fn limit_roundtrip_below_the_boundary() {
    let descriptor = Descriptor::<X86_64, Data, Unclassified>::from_raw(0).set_present();

    let stored = descriptor.set_limit(0xF_FFFF).unwrap();
    assert_eq!(stored.limit(), 0xF_FFFF);

    let stored = descriptor.set_limit(0xA_BCDE).unwrap();
    assert_eq!(stored.limit(), 0xA_BCDE);

    let stored = descriptor.set_limit(0).unwrap();
    assert_eq!(stored.limit(), 0);
}

#[test]
fn limit_split() {
    let descriptor = Descriptor::<X86_64, Data, Unclassified>::from_raw(0)
        .set_present()
        .set_limit(0xA_BCDE)
        .unwrap();
    assert_eq!(descriptor.to_raw(), (1 << 47) | 0xBCDE | (0xA << 48));
}

#[test]
fn limit_rejected_at_the_boundary() {
    let descriptor = Descriptor::<X86_64, Data, Unclassified>::from_raw(0).set_present();

    assert!(descriptor.set_limit(1 << 20).is_none());
    assert!(descriptor.set_limit(u32::MAX).is_none());
    assert!(descriptor.set_limit((1 << 20) - 1).is_some());
}
