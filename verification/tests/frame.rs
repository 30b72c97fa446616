use stm32_peripherals::nvic::Nvic;
use stm32_peripherals::system::{Reg, System, NUM_REGS};

const ALL_REGS: [Reg; 28] = [
    Reg::R0,
    Reg::R1,
    Reg::R2,
    Reg::R3,
    Reg::R12,
    Reg::LR,
    Reg::PC,
    Reg::XPSR,
    Reg::S0,
    Reg::S1,
    Reg::S2,
    Reg::S3,
    Reg::S4,
    Reg::S5,
    Reg::S6,
    Reg::S7,
    Reg::S8,
    Reg::S9,
    Reg::S10,
    Reg::S11,
    Reg::S12,
    Reg::S13,
    Reg::S14,
    Reg::S15,
    Reg::FPSCR,
    Reg::SP,
    Reg::IPSR,
    Reg::PRIMASK,
];

fn ram(base: u32, len: u32) -> System {
    let mut sys = System::new();
    for i in 0..len {
        sys.poke(base + i, 0xAA);
    }
    sys
}

#[test]
fn registers_have_distinct_slots() {
    assert_eq!(NUM_REGS, 28);
    for (i, reg) in ALL_REGS.iter().enumerate() {
        assert_eq!(reg.index(), i);
    }
}

#[test]
fn register_write_changes_one_register() {
    let mut sys = System::new();
    for (i, reg) in ALL_REGS.iter().enumerate() {
        sys.reg_write(*reg, 0x100 + i as u32);
    }
    sys.reg_write(Reg::PC, 0xdead_beef);
    for (i, reg) in ALL_REGS.iter().enumerate() {
        let expected = if i == 6 { 0xdead_beef } else { 0x100 + i as u32 };
        assert_eq!(sys.reg_read(*reg), expected);
    }
}

#[test]
fn new_system_is_zeroed_and_unmapped() {
    let sys = System::new();
    for reg in ALL_REGS.iter() {
        assert_eq!(sys.reg_read(*reg), 0);
    }
    assert_eq!(sys.peek(0), None);
    assert_eq!(sys.peek(0x2000_0000), None);
    assert_eq!(sys.read_word(0x2000_0000), None);
    assert!(!sys.is_mapped(0, 1));
    assert!(sys.is_mapped(0, 0));
}

#[test]
fn words_are_stored_little_endian() {
    let mut sys = ram(0x2000_0000, 8);
    assert!(sys.write_word(0x2000_0002, 0x1234_5678));
    assert_eq!(sys.peek(0x2000_0001), Some(0xAA));
    assert_eq!(sys.peek(0x2000_0002), Some(0x78));
    assert_eq!(sys.peek(0x2000_0003), Some(0x56));
    assert_eq!(sys.peek(0x2000_0004), Some(0x34));
    assert_eq!(sys.peek(0x2000_0005), Some(0x12));
    assert_eq!(sys.peek(0x2000_0006), Some(0xAA));
    assert_eq!(sys.read_word(0x2000_0002), Some(0x1234_5678));
    assert_eq!(sys.get_word(0x2000_0002), 0x1234_5678);
    assert_eq!(sys.read_word(0x2000_0000), Some(0x5678_AAAA));
    sys.put_word(0x2000_0004, 0xFFFF_FF01);
    assert_eq!(sys.read_word(0x2000_0004), Some(0xFFFF_FF01));
}

#[test]
fn word_access_outside_mapped_memory_does_nothing() {
    let mut sys = ram(0x2000_0000, 8);
    let before = sys.mem.clone();
    assert!(!sys.write_word(0x2000_0005, 0x1234_5678));
    assert!(!sys.write_word(0x1FFF_FFFF, 0x1234_5678));
    assert_eq!(sys.mem, before);
    assert_eq!(sys.read_word(0x2000_0005), None);
    assert_eq!(sys.read_word(0x1FFF_FFFD), None);
    assert_eq!(sys.read_word(0x2000_0004), Some(0xAAAA_AAAA));
}

#[test]
fn word_access_at_the_end_of_the_address_space() {
    let mut sys = ram(0xFFFF_FFF0, 0xF);
    sys.poke(0xFFFF_FFFF, 0);
    assert!(sys.is_mapped(0xFFFF_FFF0, 16));
    assert!(!sys.is_mapped(0xFFFF_FFF0, 17));
    assert!(!sys.is_mapped(0xFFFF_FFFF, u32::MAX));
    assert!(sys.write_word(0xFFFF_FFFC, 0x0102_0304));
    assert_eq!(sys.read_word(0xFFFF_FFFC), Some(0x0102_0304));
    assert_eq!(sys.read_word(0xFFFF_FFFD), None);
    assert!(!sys.write_word(0xFFFF_FFFE, 1));
}

#[test]
fn poke_maps_and_overwrites() {
    let mut sys = System::new();
    assert_eq!(sys.peek(0x10), None);
    sys.poke(0x10, 1);
    assert_eq!(sys.peek(0x10), Some(1));
    sys.poke(0x10, 2);
    assert_eq!(sys.peek(0x10), Some(2));
    assert_eq!(sys.peek(0x11), None);
    assert!(sys.is_mapped(0x10, 1));
    assert!(!sys.is_mapped(0x10, 2));
    assert!(!sys.is_mapped(0x0f, 2));
}

#[test]
fn frame_is_pushed_in_hardware_order() {
    let mut sys = ram(0x2000_0000, 0x100);
    for (i, reg) in ALL_REGS.iter().enumerate() {
        sys.reg_write(*reg, 0xC0DE_0000 + i as u32);
    }
    sys.reg_write(Reg::SP, 0x2000_0100);
    assert_eq!(Nvic::push_regs(&mut sys), Ok(()));
    assert_eq!(sys.reg_read(Reg::SP), 0x2000_009c);
    for i in 0..25u32 {
        assert_eq!(sys.read_word(0x2000_009c + 4 * i), Some(0xC0DE_0000 + i));
    }
    // Nothing below the frame or above it was written.
    assert_eq!(sys.peek(0x2000_009b), Some(0xAA));
    assert_eq!(sys.read_word(0x2000_0098), Some(0xAAAA_AAAA));
    // The floating-point status register is the word nearest the old
    // stack pointer, R0 the one at the new stack pointer.
    assert_eq!(sys.read_word(0x2000_00fc), Some(0xC0DE_0018));
    assert_eq!(sys.peek(0x2000_009c), Some(0x00));
    assert_eq!(sys.peek(0x2000_009f), Some(0xC0));
    // Pushing changes no register but the stack pointer.
    for (i, reg) in ALL_REGS.iter().enumerate() {
        if i != 25 {
            assert_eq!(sys.reg_read(*reg), 0xC0DE_0000 + i as u32);
        }
    }
}

#[test]
fn frame_is_popped_in_hardware_order() {
    let mut sys = ram(0x2000_0000, 0x100);
    for i in 0..25u32 {
        assert!(sys.write_word(0x2000_0010 + 4 * i, 0xF00D_0000 + i));
    }
    let mem_before = sys.mem.clone();
    sys.reg_write(Reg::SP, 0x2000_0010);
    sys.reg_write(Reg::IPSR, 0x33);
    sys.reg_write(Reg::PRIMASK, 1);
    assert_eq!(Nvic::pop_regs(&mut sys), Ok(()));
    for (i, reg) in ALL_REGS.iter().enumerate().take(25) {
        assert_eq!(sys.reg_read(*reg), 0xF00D_0000 + i as u32);
    }
    assert_eq!(sys.reg_read(Reg::R0), 0xF00D_0000);
    assert_eq!(sys.reg_read(Reg::PC), 0xF00D_0006);
    assert_eq!(sys.reg_read(Reg::FPSCR), 0xF00D_0018);
    assert_eq!(sys.reg_read(Reg::SP), 0x2000_0074);
    assert_eq!(sys.reg_read(Reg::IPSR), 0x33);
    assert_eq!(sys.reg_read(Reg::PRIMASK), 1);
    assert_eq!(sys.mem, mem_before);
}

#[test]
fn entry_then_return_restores_the_context() {
    let mut sys = ram(0x2000_0000, 0x200);
    for i in 0..4u32 {
        sys.poke(0x0800_0000 + 4 * 23 + i, 0);
    }
    assert!(sys.write_word(0x0800_0000 + 4 * 23, 0x0800_7001));
    let values: [u32; 28] = [
        0,
        u32::MAX,
        0x8000_0000,
        0x7FFF_FFFF,
        0x0000_00FF,
        0xFFFF_FFFD,
        0x0800_0123,
        0x6100_0000,
        0x3f80_0000,
        0xbf80_0000,
        0x7fc0_0000,
        0x0000_0001,
        0xff80_0000,
        0x1234_5678,
        0x9abc_def0,
        0x0f0f_0f0f,
        0xf0f0_f0f0,
        0x0000_ffff,
        0xffff_0000,
        0x5555_5555,
        0xaaaa_aaaa,
        0x0102_0304,
        0x0506_0708,
        0x090a_0b0c,
        0x0300_001f,
        0x2000_0200,
        0,
        0,
    ];
    for (reg, value) in ALL_REGS.iter().zip(values.iter()) {
        sys.reg_write(*reg, *value);
    }
    let mut nvic = Nvic::new();
    nvic.set_intr_pending(7);
    assert_eq!(nvic.run_pending_interrupts(&mut sys, 0x0800_0000, 0), Ok(Some(7)));
    assert_eq!(sys.reg_read(Reg::PC), 0x0800_7001);
    assert_eq!(sys.reg_read(Reg::LR), 0xFFFF_FFFD);
    assert_eq!(sys.reg_read(Reg::SP), 0x2000_0200 - 100);

    // The handler runs and clobbers the context registers.
    sys.reg_write(Reg::R0, 1);
    sys.reg_write(Reg::R12, 2);
    sys.reg_write(Reg::XPSR, 3);
    sys.reg_write(Reg::S7, 4);
    sys.reg_write(Reg::FPSCR, 5);
    sys.reg_write(Reg::PC, EXC_RETURN_PC);

    assert_eq!(nvic.return_from_interrupt(&mut sys), Ok(()));
    for (i, (reg, value)) in ALL_REGS.iter().zip(values.iter()).enumerate() {
        if i != 26 {
            assert_eq!(sys.reg_read(*reg), *value);
        }
    }
    assert_eq!(sys.reg_read(Reg::SP), 0x2000_0200);
    assert_eq!(sys.reg_read(Reg::IPSR), 7);
}

const EXC_RETURN_PC: u32 = 0xFFFF_FFFD;
