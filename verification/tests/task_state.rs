use x86_bits::registers::flags::Flags;
use x86_bits::registers::segmentation::SegmentSelector;
use x86_bits::structures::idt::InterruptStackFrame;
use x86_bits::structures::task_state::TaskStateSegment64;
use x86_bits::structures::tss;
use x86_bits::PrivilegeLevel;
use x86_bits::X86_64;

#[test]
fn new_task_state_is_zeroed() {
    let tss = TaskStateSegment64::new();
    assert_eq!(tss.rsp0(), 0);
    assert_eq!(tss.rsp1(), 0);
    assert_eq!(tss.rsp2(), 0);
    assert_eq!(tss.is1(), 0);
    assert_eq!(tss.is2(), 0);
    assert_eq!(tss.is3(), 0);
    assert_eq!(tss.is4(), 0);
    assert_eq!(tss.is5(), 0);
    assert_eq!(tss.is6(), 0);
    assert_eq!(tss.is7(), 0);
    assert_eq!(tss.io_map_base(), 0);
}

#[test]
fn stack_pointers_roundtrip_through_the_split_halves() {
    let mut tss = TaskStateSegment64::new();

    tss.set_rsp0(0x1234_5678_9ABC_DEF0);
    assert_eq!(tss.rsp0(), 0x1234_5678_9ABC_DEF0);
    assert_eq!(tss.rsp1(), 0);

    tss.set_rsp1(u64::MAX);
    assert_eq!(tss.rsp1(), u64::MAX);

    tss.set_rsp2(1);
    assert_eq!(tss.rsp2(), 1);

    tss.set_ist1(0xAAAA_0000_0000_0001);
    tss.set_ist2(0xAAAA_0000_0000_0002);
    tss.set_ist3(0xAAAA_0000_0000_0003);
    tss.set_ist4(0xAAAA_0000_0000_0004);
    tss.set_ist5(0xAAAA_0000_0000_0005);
    tss.set_ist6(0xAAAA_0000_0000_0006);
    tss.set_ist7(0xAAAA_0000_0000_0007);
    assert_eq!(tss.is1(), 0xAAAA_0000_0000_0001);
    assert_eq!(tss.is2(), 0xAAAA_0000_0000_0002);
    assert_eq!(tss.is3(), 0xAAAA_0000_0000_0003);
    assert_eq!(tss.is4(), 0xAAAA_0000_0000_0004);
    assert_eq!(tss.is5(), 0xAAAA_0000_0000_0005);
    assert_eq!(tss.is6(), 0xAAAA_0000_0000_0006);
    assert_eq!(tss.is7(), 0xAAAA_0000_0000_0007);

    tss.set_io_map_base(104);
    assert_eq!(tss.io_map_base(), 104);
    assert_eq!(tss.rsp0(), 0x1234_5678_9ABC_DEF0);
}

#[test]
fn flat_task_state_segments_start_zeroed() {
    let tss16 = tss::TaskStateSegment16::new();
    assert_eq!(tss16.previous_task_link.to_raw(), 0);
    assert_eq!(tss16.sp, 0);
    assert_eq!(tss16.ldt.to_raw(), 0);

    let tss32 = tss::TaskStateSegment32::new();
    assert_eq!(tss32.cr3, 0);
    assert_eq!(tss32.instruction_pointer, 0);
    assert_eq!(tss32.io_map_base_address, 0);

    let tss64 = tss::TaskStateSegment64::new();
    assert_eq!(tss64.stack_pointer_0_low, 0);
    assert_eq!(tss64.stack_pointer_0_high, 0);
    assert_eq!(tss64.io_map_base, 0);
}

#[test]
fn interrupt_stack_frame_carries_the_saved_state() {
    let frame = InterruptStackFrame::<X86_64> {
        instruction_pointer: 0xFFFF_8000_0000_1000,
        code_segment: SegmentSelector::new(2, false, PrivilegeLevel::Ring0),
        cpu_flags: Flags::from_raw(0x202),
        stack_pointer: 0xFFFF_8000_0010_0000,
        stack_segment: SegmentSelector::new(3, false, PrivilegeLevel::Ring0),
    };

    assert_eq!(frame.instruction_pointer, 0xFFFF_8000_0000_1000);
    assert_eq!(frame.code_segment.index(), 2);
    assert!(frame.cpu_flags.is_interrupt_enable());
    assert_eq!(frame.stack_pointer, 0xFFFF_8000_0010_0000);
    assert_eq!(frame.stack_segment.index(), 3);
}

#[test]
fn privilege_level_from_u8() {
    assert_eq!(PrivilegeLevel::from_u8(0), Some(PrivilegeLevel::Ring0));
    assert_eq!(PrivilegeLevel::from_u8(1), Some(PrivilegeLevel::Ring1));
    assert_eq!(PrivilegeLevel::from_u8(2), Some(PrivilegeLevel::Ring2));
    assert_eq!(PrivilegeLevel::from_u8(3), Some(PrivilegeLevel::Ring3));
    assert_eq!(PrivilegeLevel::from_u8(4), None);
    assert_eq!(PrivilegeLevel::from_u8(u8::MAX), None);

    assert_eq!(PrivilegeLevel::Ring2.as_u8(), 2);
}
