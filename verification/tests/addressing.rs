use mos6502::memory::{Memory, Ram};
use mos6502::CPU;

fn engine(origin: u16, program: &[u8], data: &[(u16, u8)]) -> CPU<Ram> {
    let mut ram = Ram::new();
    for (i, byte) in program.iter().enumerate() {
        ram.write(origin.wrapping_add(i as u16), *byte);
    }
    for (address, byte) in data {
        ram.write(*address, *byte);
    }
    let mut cpu = CPU::new(ram);
    cpu.reset_to(origin, 0);
    cpu
}

#[test]
fn immediate_operand_is_the_next_byte() {
    let mut cpu = engine(0x0200, &[0xa9, 0x99], &[]);
    assert_eq!(cpu.step(), Ok(2));
    assert_eq!(cpu.registers.accumulator, 0x99);
    assert_eq!(cpu.registers.program_counter, 0x0202);
}

#[test]
fn zero_page_reads_page_zero() {
    let mut cpu = engine(0x0200, &[0xa5, 0x44], &[(0x0044, 0x17)]);
    assert_eq!(cpu.step(), Ok(3));
    assert_eq!(cpu.registers.accumulator, 0x17);
    assert_eq!(cpu.registers.program_counter, 0x0202);
}

#[test]
fn zero_page_x_wraps_within_page_zero() {
    let mut cpu = engine(0x0200, &[0xb5, 0xff], &[(0x0001, 0x77), (0x0101, 0x11)]);
    cpu.registers.x = 0x02;
    assert_eq!(cpu.step(), Ok(4));
    assert_eq!(cpu.registers.accumulator, 0x77);
    assert_eq!(cpu.registers.program_counter, 0x0202);
}

#[test]
fn zero_page_x_store_wraps_within_page_zero() {
    let mut cpu = engine(0x0200, &[0x95, 0xff], &[]);
    cpu.registers.x = 0x02;
    cpu.registers.accumulator = 0x3c;
    assert_eq!(cpu.step(), Ok(4));
    assert_eq!(cpu.memory.read(0x0001), 0x3c);
    assert_eq!(cpu.memory.read(0x0101), 0x00);
}

#[test]
fn zero_page_y_wraps_within_page_zero() {
    let mut cpu = engine(0x0200, &[0xb6, 0xf0], &[(0x0010, 0x21), (0x0110, 0x12)]);
    cpu.registers.y = 0x20;
    assert_eq!(cpu.step(), Ok(4));
    assert_eq!(cpu.registers.x, 0x21);
}

#[test]
fn absolute_reads_the_little_endian_address() {
    let mut cpu = engine(0x0200, &[0xad, 0x34, 0x12], &[(0x1234, 0x56), (0x3412, 0x65)]);
    assert_eq!(cpu.step(), Ok(4));
    assert_eq!(cpu.registers.accumulator, 0x56);
    assert_eq!(cpu.registers.program_counter, 0x0203);
}

#[test]
fn absolute_x_within_a_page_takes_four_cycles() {
    let mut cpu = engine(0x0200, &[0xbd, 0x00, 0x30], &[(0x3005, 0x0b)]);
    cpu.registers.x = 0x05;
    assert_eq!(cpu.step(), Ok(4));
    assert_eq!(cpu.registers.accumulator, 0x0b);
}

#[test]
fn absolute_x_across_a_page_takes_five_cycles() {
    let mut cpu = engine(0x0200, &[0xbd, 0xff, 0x30], &[(0x3100, 0x0c)]);
    cpu.registers.x = 0x01;
    assert_eq!(cpu.step(), Ok(5));
    assert_eq!(cpu.registers.accumulator, 0x0c);
}

#[test]
fn absolute_x_wraps_at_the_top_of_memory() {
    let mut cpu = engine(0x0200, &[0xbd, 0xff, 0xff], &[(0x0001, 0x0d)]);
    cpu.registers.x = 0x02;
    assert_eq!(cpu.step(), Ok(5));
    assert_eq!(cpu.registers.accumulator, 0x0d);
}

#[test]
fn absolute_y_across_a_page_takes_five_cycles() {
    let mut cpu = engine(0x0200, &[0xb9, 0x80, 0x40], &[(0x4100, 0x0e), (0x4085, 0x0f)]);
    cpu.registers.y = 0x80;
    assert_eq!(cpu.step(), Ok(5));
    assert_eq!(cpu.registers.accumulator, 0x0e);
    cpu.reset_to(0x0200, 0);
    cpu.registers.y = 0x05;
    assert_eq!(cpu.step(), Ok(4));
    assert_eq!(cpu.registers.accumulator, 0x0f);
}

#[test]
fn x_indirect_reads_the_pointer_in_page_zero() {
    let mut cpu = engine(
        0x0200,
        &[0xa1, 0xfe],
        &[(0x0002, 0x00), (0x0003, 0x50), (0x5000, 0x2a)],
    );
    cpu.registers.x = 0x04;
    assert_eq!(cpu.step(), Ok(6));
    assert_eq!(cpu.registers.accumulator, 0x2a);
    assert_eq!(cpu.registers.program_counter, 0x0202);
}

#[test]
fn indirect_y_adds_y_to_the_pointer() {
    let mut cpu = engine(
        0x0200,
        &[0xb1, 0x40],
        &[(0x0040, 0x10), (0x0041, 0x60), (0x6013, 0x2b)],
    );
    cpu.registers.y = 0x03;
    assert_eq!(cpu.step(), Ok(5));
    assert_eq!(cpu.registers.accumulator, 0x2b);
}

#[test]
fn indirect_y_across_a_page_takes_six_cycles() {
    let mut cpu = engine(
        0x0200,
        &[0xb1, 0x40],
        &[(0x0040, 0xf0), (0x0041, 0x60), (0x6100, 0x2c)],
    );
    cpu.registers.y = 0x10;
    assert_eq!(cpu.step(), Ok(6));
    assert_eq!(cpu.registers.accumulator, 0x2c);
}

#[test]
fn store_cycles_by_mode() {
    let cases: [(&[u8], u16, u64); 8] = [
        (&[0x85, 0x10], 0x0010, 3),
        (&[0x95, 0x10], 0x0012, 4),
        (&[0x8d, 0x00, 0x30], 0x3000, 4),
        (&[0x9d, 0xff, 0x30], 0x3101, 4),
        (&[0x99, 0x00, 0x30], 0x3003, 4),
        (&[0x99, 0xff, 0x30], 0x3102, 5),
        (&[0x81, 0x20], 0x7000, 6),
        (&[0x91, 0x30], 0x8003, 5),
    ];
    for (program, target, cycles) in cases {
        let mut cpu = engine(
            0x0200,
            program,
            &[(0x0022, 0x00), (0x0023, 0x70), (0x0030, 0x00), (0x0031, 0x80)],
        );
        cpu.registers.accumulator = 0xa7;
        cpu.registers.x = 0x02;
        cpu.registers.y = 0x03;
        assert_eq!(cpu.step(), Ok(cycles), "program {:02x?}", program);
        assert_eq!(cpu.memory.read(target), 0xa7, "program {:02x?}", program);
        assert_eq!(cpu.registers.program_counter, 0x0200 + program.len() as u16);
    }
}

#[test]
fn store_x_and_store_y() {
    let mut cpu = engine(0x0200, &[0x86, 0x10, 0x96, 0x10, 0x8c, 0x00, 0x30, 0x94, 0x20], &[]);
    cpu.registers.x = 0x11;
    cpu.registers.y = 0x05;
    assert_eq!(cpu.step(), Ok(3));
    assert_eq!(cpu.memory.read(0x0010), 0x11);
    assert_eq!(cpu.step(), Ok(4));
    assert_eq!(cpu.memory.read(0x0015), 0x11);
    assert_eq!(cpu.step(), Ok(4));
    assert_eq!(cpu.memory.read(0x3000), 0x05);
    assert_eq!(cpu.step(), Ok(4));
    assert_eq!(cpu.memory.read(0x0031), 0x05);
}

#[test]
fn modify_cycles_by_mode() {
    let cases: [(&[u8], u64); 6] = [
        (&[0x0a], 2),
        (&[0x06, 0x10], 5),
        (&[0x16, 0x10], 6),
        (&[0x0e, 0x00, 0x30], 6),
        (&[0x1e, 0x00, 0x30], 7),
        (&[0x1e, 0xff, 0x30], 7),
    ];
    for (program, cycles) in cases {
        let mut cpu = engine(0x0200, program, &[]);
        cpu.registers.x = 0x02;
        assert_eq!(cpu.step(), Ok(cycles), "program {:02x?}", program);
        assert_eq!(cpu.registers.program_counter, 0x0200 + program.len() as u16);
    }
}

#[test]
fn modify_writes_back_to_the_address_it_read() {
    let mut cpu = engine(0x0200, &[0xfe, 0xff, 0x30], &[(0x3101, 0x41)]);
    cpu.registers.x = 0x02;
    assert_eq!(cpu.step(), Ok(7));
    assert_eq!(cpu.memory.read(0x3101), 0x42);
    let mut cpu = engine(0x0200, &[0xd6, 0xff], &[(0x0001, 0x41)]);
    cpu.registers.x = 0x02;
    assert_eq!(cpu.step(), Ok(6));
    assert_eq!(cpu.memory.read(0x0001), 0x40);
}

#[test]
fn read_word_is_little_endian_and_wraps() {
    let cpu = engine(
        0x0200,
        &[],
        &[(0x1000, 0xcd), (0x1001, 0xab), (0xffff, 0x34), (0x0000, 0x12)],
    );
    assert_eq!(cpu.read_word(0x1000), 0xabcd);
    assert_eq!(cpu.read_word(0xffff), 0x1234);
    assert_eq!(cpu.read_byte(0x1001), 0xab);
}

#[test]
fn reading_at_the_program_counter_moves_it() {
    let mut cpu = engine(0xfffe, &[0x11, 0x22, 0x33], &[]);
    assert_eq!(cpu.read_byte_and_increment_pc(), 0x11);
    assert_eq!(cpu.registers.program_counter, 0xffff);
    assert_eq!(cpu.read_word_and_increment_pc(), 0x3322);
    assert_eq!(cpu.registers.program_counter, 0x0001);
    assert_eq!(cpu.cycles, 0);
}
