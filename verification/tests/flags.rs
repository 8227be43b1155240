use x86_bits::registers::flags::Flags;
use x86_bits::registers::flags::FlagsDisplay;
use x86_bits::PrivilegeLevel;
use x86_bits::X86;
use x86_bits::X86_64;

#[test]
fn iopl_covers_all_four_patterns() {
    let ring0 = Flags::<X86_64>::from_raw(0x0000);
    assert_eq!(ring0.iopl(), PrivilegeLevel::Ring0);

    let ring1 = Flags::<X86_64>::from_raw(0x1000);
    assert_eq!(ring1.iopl(), PrivilegeLevel::Ring1);

    let ring2 = Flags::<X86_64>::from_raw(0x2000);
    assert_eq!(ring2.iopl(), PrivilegeLevel::Ring2);

    let ring3 = Flags::<X86_64>::from_raw(0x3000);
    assert_eq!(ring3.iopl(), PrivilegeLevel::Ring3);
}

#[test]
fn predicates_read_single_bits() {
    let flags = Flags::<X86_64>::from_raw(0x1 | 0x40 | 0x200 | 0x20_0000);
    assert!(flags.is_carry());
    assert!(flags.is_zero());
    assert!(flags.is_interrupt_enable());
    assert!(flags.is_identification());
    assert!(!flags.is_parity());
    assert!(!flags.is_auxiliary_carry());
    assert!(!flags.is_sign());
    assert!(!flags.is_trap());
    assert!(!flags.is_direction());
    assert!(!flags.is_overflow());
    assert!(!flags.is_nested_task());
    assert!(!flags.is_resume());
    assert!(!flags.is_virtual_8086_mode());
    assert!(!flags.is_alignment_check());
    assert!(!flags.is_virtual_interrupt());
    assert!(!flags.is_virtual_interrupt_pending());
}

#[test]
fn combination_operators_work_on_the_whole_word() {
    let a = Flags::<X86_64>::from_raw(0b1100);
    let b = Flags::<X86_64>::from_raw(0b1010);

    assert_eq!(a.bitand(b).to_raw(), 0b1000);
    assert_eq!(a.bitor(b).to_raw(), 0b1110);
    assert_eq!(a.bitxor(b).to_raw(), 0b0110);

    let mut c = a;
    c.bitand_assign(b);
    assert_eq!(c.to_raw(), 0b1000);

    let mut c = a;
    c.bitor_assign(b);
    assert_eq!(c.to_raw(), 0b1110);

    let mut c = a;
    c.bitxor_assign(b);
    assert_eq!(c.to_raw(), 0b0110);
}

#[test]
fn the_32_bit_register_keeps_its_width() {
    let flags = Flags::<X86>::from_raw(0xFFFF_FFFF_0000_0041);
    assert_eq!(flags.to_raw(), 0x41);

    let wide = Flags::<X86_64>::from_raw(0xFFFF_FFFF_0000_0041);
    assert_eq!(wide.to_raw(), 0xFFFF_FFFF_0000_0041);
}

#[test]
fn rendering_lists_set_flags_and_the_iopl() {
    assert_eq!(FlagsDisplay(0x41).text(), "CARRY | ZERO | IOPL0");
    assert_eq!(FlagsDisplay(0).text(), "IOPL0");
    assert_eq!(FlagsDisplay(0x3000).text(), "IOPL3");
    assert_eq!(FlagsDisplay(0x100 | 0x1000).text(), "TRAP | IOPL1");
}
