use mos6502::memory::{FakeMemory, Memory, Ram};
use mos6502::sid::{FakeSid, Sid};
use mos6502::CPU;

fn computer(origin: u16, program: &[u8]) -> CPU<Ram> {
    let mut ram = Ram::new();
    for (i, byte) in program.iter().enumerate() {
        ram.write(origin.wrapping_add(i as u16), *byte);
    }
    let mut cpu = CPU::new(ram);
    cpu.reset_to(origin, 0);
    cpu
}

#[test]
fn push_at_the_bottom_wraps_the_stack_pointer() {
    let mut cpu = computer(0x0200, &[]);
    cpu.registers.stack_pointer = 0x00;
    cpu.push(0xab);
    assert_eq!(cpu.memory.read(0x0100), 0xab);
    assert_eq!(cpu.registers.stack_pointer, 0xff);
}

#[test]
fn pop_at_the_top_wraps_the_stack_pointer() {
    let mut cpu = computer(0x0200, &[]);
    cpu.memory.write(0x0100, 0xcd);
    cpu.registers.stack_pointer = 0xff;
    assert_eq!(cpu.pop(), 0xcd);
    assert_eq!(cpu.registers.stack_pointer, 0x00);
}

#[test]
fn push_writes_into_the_stack_page() {
    let mut cpu = computer(0x0200, &[]);
    cpu.push(0x11);
    cpu.push(0x22);
    assert_eq!(cpu.memory.read(0x01ff), 0x11);
    assert_eq!(cpu.memory.read(0x01fe), 0x22);
    assert_eq!(cpu.registers.stack_pointer, 0xfd);
    assert_eq!(cpu.pop(), 0x22);
    assert_eq!(cpu.pop(), 0x11);
    assert_eq!(cpu.cycles, 0);
}

#[test]
fn pushing_and_popping_restores_the_stack_pointer() {
    for start in [0x00u8, 0x01, 0x7f, 0xfe, 0xff] {
        for count in [0usize, 1, 2, 255, 256, 300, 600] {
            let mut cpu = computer(0x0200, &[]);
            cpu.registers.stack_pointer = start;
            for n in 0..count {
                cpu.push(n as u8);
            }
            assert_eq!(cpu.registers.stack_pointer, start.wrapping_sub(count as u8));
            for _ in 0..count {
                cpu.pop();
            }
            assert_eq!(cpu.registers.stack_pointer, start);
        }
    }
}

#[test]
fn push_then_pull_keeps_the_accumulator() {
    for value in [0x00u8, 0x01, 0x7f, 0x80, 0xff] {
        let mut cpu = computer(0x0200, &[0x48, 0x68]);
        cpu.registers.accumulator = value;
        cpu.status_flags.zero = value != 0;
        cpu.status_flags.negative = value < 0x80;
        assert_eq!(cpu.step(), Ok(3));
        assert_eq!(cpu.step(), Ok(4));
        assert_eq!(cpu.registers.accumulator, value);
        assert_eq!(cpu.status_flags.zero, value == 0);
        assert_eq!(cpu.status_flags.negative, value >= 0x80);
        assert_eq!(cpu.registers.stack_pointer, 0xff);
    }
}

#[test]
fn push_then_pull_keeps_the_status_byte() {
    for byte in 0..=255u8 {
        let mut cpu = computer(0x0200, &[0x08, 0x28]);
        cpu.status_flags = cpu.status_flags.from_byte(byte);
        assert_eq!(cpu.step(), Ok(3));
        assert_eq!(cpu.step(), Ok(4));
        assert_eq!(cpu.status_flags.to_byte(), byte);
        assert_eq!(cpu.registers.stack_pointer, 0xff);
    }
}

#[test]
fn call_then_return_comes_back_behind_the_call() {
    for origin in [0x0200u16, 0x02fd, 0x02fe, 0x8000] {
        let mut cpu = computer(origin, &[0x20, 0x00, 0x90]);
        cpu.memory.write(0x9000, 0x60);
        assert_eq!(cpu.step(), Ok(6));
        assert_eq!(cpu.registers.program_counter, 0x9000);
        assert_eq!(cpu.step(), Ok(6));
        assert_eq!(cpu.registers.program_counter, origin + 3);
        assert_eq!(cpu.registers.stack_pointer, 0xff);
    }
}

#[test]
fn call_pushes_the_address_of_its_last_byte() {
    let mut cpu = computer(0x12fe, &[0x20, 0x00, 0x90]);
    cpu.registers.stack_pointer = 0x00;
    assert_eq!(cpu.step(), Ok(6));
    assert_eq!(cpu.memory.read(0x0100), 0x13);
    assert_eq!(cpu.memory.read(0x01ff), 0x00);
    assert_eq!(cpu.registers.stack_pointer, 0xfe);
}

#[test]
fn memory_that_drops_writes_breaks_push_and_pull() {
    let mut cpu = CPU::new(FakeMemory::new());
    cpu.reset_to(0x0200, 0x05);
    cpu.push(0x05);
    assert_eq!(cpu.pop(), 0x00);
    assert_eq!(cpu.registers.stack_pointer, 0xff);
}

#[test]
fn fake_memory_reads_zero() {
    let mut memory = FakeMemory::new();
    memory.write(0x1234, 0xff);
    assert_eq!(memory.read(0x1234), 0x00);
    assert_eq!(memory.read(0xffff), 0x00);
}

#[test]
fn fake_memory_steps_through_breaks() {
    let mut cpu = CPU::new(FakeMemory::new());
    cpu.reset();
    assert_eq!(cpu.registers.program_counter, 0x0000);
    cpu.reset_to(0x1234, 0);
    assert_eq!(cpu.step(), Ok(2));
    assert_eq!(cpu.registers.program_counter, 0x0000);
}

#[test]
fn ram_starts_zeroed_and_keeps_writes() {
    let mut ram = Ram::new();
    assert_eq!(ram.read(0x0000), 0x00);
    assert_eq!(ram.read(0xffff), 0x00);
    ram.write(0x0000, 0x12);
    ram.write(0xffff, 0x34);
    assert_eq!(ram.read(0x0000), 0x12);
    assert_eq!(ram.read(0xffff), 0x34);
    assert_eq!(ram.read(0x0001), 0x00);
    ram.write(0x0000, 0x56);
    assert_eq!(ram.read(0x0000), 0x56);
}

#[test]
fn fake_sid_stays_silent() {
    let mut sid = FakeSid::new();
    let mut buffer = [7i16; 4];
    sid.write(0x18, 0x0f);
    assert_eq!(sid.samples(1000, &mut buffer), (0, 0));
    assert_eq!(buffer, [7i16; 4]);
}
