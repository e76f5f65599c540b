use mos6502::registers::Registers;
use mos6502::status_flags::StatusFlags;

#[test]
fn new_flags_are_clear() {
    let flags = StatusFlags::new();
    assert_eq!(flags.to_byte(), 0x00);
    assert_eq!(flags, StatusFlags::default());
    assert!(!flags.carry && !flags.zero && !flags.interrupt && !flags.decimal);
    assert!(!flags.brk && !flags.ignored && !flags.overflow && !flags.negative);
}

#[test]
fn each_flag_has_its_bit() {
    let clear = StatusFlags::new();
    assert_eq!(StatusFlags { carry: true, ..clear }.to_byte(), 0x01);
    assert_eq!(StatusFlags { zero: true, ..clear }.to_byte(), 0x02);
    assert_eq!(StatusFlags { interrupt: true, ..clear }.to_byte(), 0x04);
    assert_eq!(StatusFlags { decimal: true, ..clear }.to_byte(), 0x08);
    assert_eq!(StatusFlags { brk: true, ..clear }.to_byte(), 0x10);
    assert_eq!(StatusFlags { ignored: true, ..clear }.to_byte(), 0x20);
    assert_eq!(StatusFlags { overflow: true, ..clear }.to_byte(), 0x40);
    assert_eq!(StatusFlags { negative: true, ..clear }.to_byte(), 0x80);
}

#[test]
fn all_flags_pack_to_ff() {
    let flags = StatusFlags {
        carry: true,
        zero: true,
        interrupt: true,
        decimal: true,
        brk: true,
        ignored: true,
        overflow: true,
        negative: true,
    };
    assert_eq!(flags.to_byte(), 0xff);
}

#[test]
fn from_byte_reads_each_bit() {
    let any = StatusFlags::new();
    let flags = any.from_byte(0b1010_0101);
    assert!(flags.carry);
    assert!(!flags.zero);
    assert!(flags.interrupt);
    assert!(!flags.decimal);
    assert!(!flags.brk);
    assert!(flags.ignored);
    assert!(!flags.overflow);
    assert!(flags.negative);
}

#[test]
fn from_byte_ignores_the_receiver() {
    let set = StatusFlags::new().from_byte(0xff);
    assert_eq!(set.from_byte(0x00), StatusFlags::new());
}

#[test]
fn every_byte_survives_unpacking_and_packing() {
    let any = StatusFlags::new();
    for byte in 0..=255u8 {
        assert_eq!(any.from_byte(byte).to_byte(), byte);
    }
}

#[test]
fn every_flag_set_survives_packing_and_unpacking() {
    let any = StatusFlags::new();
    for bits in 0..=255u8 {
        let flags = StatusFlags {
            carry: bits & 1 != 0,
            zero: bits & 2 != 0,
            interrupt: bits & 4 != 0,
            decimal: bits & 8 != 0,
            brk: bits & 16 != 0,
            ignored: bits & 32 != 0,
            overflow: bits & 64 != 0,
            negative: bits & 128 != 0,
        };
        assert_eq!(any.from_byte(flags.to_byte()), flags);
    }
}

#[test]
fn new_registers_hold_the_power_up_values() {
    let registers = Registers::new();
    assert_eq!(registers.program_counter, 0x0000);
    assert_eq!(registers.stack_pointer, 0xff);
    assert_eq!(registers.accumulator, 0x00);
    assert_eq!(registers.x, 0x00);
    assert_eq!(registers.y, 0x00);
    assert_eq!(registers, Registers::default());
}
