use mos6502::memory::{Memory, Ram};
use mos6502::opcodes::OpCode;
use mos6502::registers::Registers;
use mos6502::status_flags::StatusFlags;
use mos6502::observer::{Callback, StepObserver};
use mos6502::{StepError, CPU};
use std::cell::RefCell;
use std::rc::Rc;

fn machine(origin: u16, program: &[u8]) -> CPU<Ram> {
    let mut ram = Ram::new();
    for (i, byte) in program.iter().enumerate() {
        ram.write(origin.wrapping_add(i as u16), *byte);
    }
    let mut cpu = CPU::new(ram);
    cpu.reset_to(origin, 0);
    cpu
}

struct Recorder {
    seen: Rc<RefCell<Vec<(u16, OpCode, u64)>>>,
}

impl StepObserver for Recorder {
    fn observe(&self, registers: &Registers, _flags: &StatusFlags, opcode: OpCode, cycles: u64) {
        self.seen.borrow_mut().push((registers.program_counter, opcode, cycles));
    }
}

#[test]
fn load_immediate_then_break() {
    let mut cpu = machine(0x0200, &[0xa9, 0x42, 0x00]);
    assert_eq!(cpu.step(), Ok(2));
    assert_eq!(cpu.registers.accumulator, 0x42);
    assert_eq!(cpu.registers.program_counter, 0x0202);
    assert!(!cpu.status_flags.zero);
    assert!(!cpu.status_flags.negative);
    assert_eq!(cpu.cycles, 2);
    assert_eq!(cpu.step(), Ok(2));
    assert_eq!(cpu.registers.program_counter, 0x0000);
}

#[test]
fn count_down_loop() {
    let mut cpu = machine(0x0300, &[0xa2, 0x05, 0xca, 0xd0, 0xfd]);
    assert_eq!(cpu.step(), Ok(2));
    assert_eq!(cpu.registers.x, 5);
    let mut decrements: u32 = 0;
    loop {
        assert_eq!(cpu.registers.program_counter, 0x0302);
        assert_eq!(cpu.step(), Ok(2));
        decrements += 1;
        assert_eq!(cpu.step(), Ok(2));
        if cpu.registers.x == 0 {
            break;
        }
    }
    assert_eq!(decrements, 5);
    assert_eq!(cpu.registers.x, 0);
    assert!(cpu.status_flags.zero);
    assert_eq!(cpu.registers.program_counter, 0x0305);
}

#[test]
fn add_into_the_sign_bit() {
    let mut cpu = machine(0x0400, &[0x18, 0xa9, 0x7f, 0x69, 0x01]);
    assert_eq!(cpu.step(), Ok(2));
    assert_eq!(cpu.step(), Ok(2));
    assert_eq!(cpu.step(), Ok(2));
    assert_eq!(cpu.registers.accumulator, 0x80);
    assert!(!cpu.status_flags.carry);
    assert!(cpu.status_flags.negative);
    assert!(!cpu.status_flags.zero);
    assert!(cpu.status_flags.overflow);
}

#[test]
fn call_and_return() {
    let mut cpu = machine(0x0500, &[0x20, 0x0a, 0x05, 0x00]);
    cpu.memory.write(0x050a, 0x60);
    assert_eq!(cpu.step(), Ok(6));
    assert_eq!(cpu.registers.program_counter, 0x050a);
    assert_eq!(cpu.registers.stack_pointer, 0xfd);
    assert_eq!(cpu.memory.read(0x01ff), 0x05);
    assert_eq!(cpu.memory.read(0x01fe), 0x02);
    assert_eq!(cpu.step(), Ok(6));
    assert_eq!(cpu.registers.program_counter, 0x0503);
    assert_eq!(cpu.registers.stack_pointer, 0xff);
}

#[test]
fn push_and_pull_through_a_load() {
    let mut cpu = machine(0x0600, &[0xa9, 0x03, 0x48, 0xa9, 0x00, 0x68]);
    assert_eq!(cpu.step(), Ok(2));
    assert_eq!(cpu.step(), Ok(3));
    assert_eq!(cpu.step(), Ok(2));
    assert!(cpu.status_flags.zero);
    assert_eq!(cpu.step(), Ok(4));
    assert_eq!(cpu.registers.accumulator, 0x03);
    assert!(!cpu.status_flags.zero);
    assert!(!cpu.status_flags.negative);
    assert_eq!(cpu.registers.stack_pointer, 0xff);
}

#[test]
fn unknown_opcode_fails_the_step() {
    let mut cpu = machine(0x0200, &[0x02]);
    cpu.registers.x = 7;
    assert_eq!(cpu.step(), Err(StepError::UnknownOpcode(0x02)));
    assert_eq!(cpu.registers.program_counter, 0x0201);
    assert_eq!(cpu.registers.x, 7);
    assert_eq!(cpu.current_opcode, None);
    assert_eq!(cpu.cycles, 0);
}

#[test]
fn every_assigned_opcode_takes_at_least_two_cycles() {
    for opcode in 0..=255u8 {
        let mut cpu = machine(0x0200, &[opcode, 0x10, 0x20]);
        match cpu.step() {
            Ok(cycles) => {
                assert!(cycles >= 2, "opcode {:#04x} took {} cycles", opcode, cycles);
                assert!(cycles <= 7, "opcode {:#04x} took {} cycles", opcode, cycles);
                assert_eq!(cpu.cycles, cycles);
                assert!(cpu.current_opcode.is_some());
            }
            Err(error) => assert_eq!(error, StepError::UnknownOpcode(opcode)),
        }
    }
}

#[test]
fn cycles_are_counted_per_step() {
    let mut cpu = machine(0x0200, &[0xad, 0x00, 0x30, 0xea]);
    assert_eq!(cpu.step(), Ok(4));
    assert_eq!(cpu.step(), Ok(2));
    assert_eq!(cpu.cycles, 2);
}

#[test]
fn no_operations_only_move_the_program_counter() {
    let mut cpu = machine(0x0200, &[0xea; 16]);
    cpu.registers.accumulator = 0x12;
    cpu.registers.x = 0x34;
    cpu.registers.y = 0x56;
    cpu.status_flags.carry = true;
    cpu.status_flags.negative = true;
    let flags = cpu.status_flags;
    let mut total: u64 = 0;
    for n in 1..=16u16 {
        total += cpu.step().unwrap();
        assert_eq!(cpu.registers.program_counter, 0x0200 + n);
        assert_eq!(total, 2 * n as u64);
    }
    assert_eq!(cpu.registers.accumulator, 0x12);
    assert_eq!(cpu.registers.x, 0x34);
    assert_eq!(cpu.registers.y, 0x56);
    assert_eq!(cpu.registers.stack_pointer, 0xff);
    assert_eq!(cpu.status_flags, flags);
}

#[test]
fn program_counter_wraps_at_the_top() {
    let mut cpu = machine(0xffff, &[0xea, 0xea]);
    assert_eq!(cpu.step(), Ok(2));
    assert_eq!(cpu.registers.program_counter, 0x0000);
    assert_eq!(cpu.step(), Ok(2));
    assert_eq!(cpu.registers.program_counter, 0x0001);
}

#[test]
fn observer_is_called_once_per_step_after_decoding() {
    let seen = Rc::new(RefCell::new(Vec::new()));
    let mut cpu = machine(0x0200, &[0xea, 0xa9, 0x01, 0x02]);
    cpu.set_step_callback(Box::new(Recorder { seen: seen.clone() }));
    cpu.step().unwrap();
    cpu.step().unwrap();
    assert!(cpu.step().is_err());
    let seen = seen.borrow();
    assert_eq!(seen.len(), 3);
    assert_eq!(seen[0], (0x0201, mos6502::opcodes::get(0xea), 0));
    assert_eq!(seen[1], (0x0202, mos6502::opcodes::get(0xa9), 0));
    assert_eq!(seen[2], (0x0204, None, 0));
}

#[test]
fn a_closure_serves_as_observer() {
    let seen = Rc::new(RefCell::new(Vec::new()));
    let sink = seen.clone();
    let mut cpu = machine(0x0200, &[0xa9, 0x80, 0xea]);
    cpu.set_step_callback(Box::new(Callback::new(
        move |registers: &Registers, flags: &StatusFlags, opcode: OpCode, cycles: u64| {
            sink.borrow_mut().push((registers.accumulator, flags.negative, opcode, cycles));
        },
    )));
    cpu.step().unwrap();
    cpu.step().unwrap();
    let seen = seen.borrow();
    assert_eq!(seen.len(), 2);
    assert_eq!(seen[0], (0x00, false, mos6502::opcodes::get(0xa9), 0));
    assert_eq!(seen[1], (0x80, true, mos6502::opcodes::get(0xea), 0));
}

#[test]
fn a_new_observer_replaces_the_old_one() {
    let first = Rc::new(RefCell::new(Vec::new()));
    let second = Rc::new(RefCell::new(Vec::new()));
    let mut cpu = machine(0x0200, &[0xea, 0xea]);
    cpu.set_step_callback(Box::new(Recorder { seen: first.clone() }));
    cpu.step().unwrap();
    cpu.set_step_callback(Box::new(Recorder { seen: second.clone() }));
    cpu.step().unwrap();
    assert_eq!(first.borrow().len(), 1);
    assert_eq!(second.borrow().len(), 1);
}

#[test]
fn new_engine_starts_from_power_up_state() {
    let cpu = CPU::new(Ram::new());
    assert_eq!(cpu.registers, Registers::new());
    assert_eq!(cpu.status_flags, StatusFlags::new());
    assert_eq!(cpu.cycles, 0);
    assert_eq!(cpu.current_opcode, None);
    assert!(cpu.step_callback.is_none());
}

#[test]
fn reset_reads_the_reset_vector() {
    let mut ram = Ram::new();
    ram.write(0xfffc, 0x34);
    ram.write(0xfffd, 0x12);
    let mut cpu = CPU::new(ram);
    cpu.registers.accumulator = 9;
    cpu.registers.x = 8;
    cpu.registers.y = 7;
    cpu.registers.stack_pointer = 6;
    cpu.status_flags.carry = true;
    cpu.reset();
    assert_eq!(cpu.registers.program_counter, 0x1234);
    assert_eq!(cpu.registers.accumulator, 0);
    assert_eq!(cpu.registers.x, 0);
    assert_eq!(cpu.registers.y, 0);
    assert_eq!(cpu.registers.stack_pointer, 0xff);
    assert_eq!(cpu.status_flags, StatusFlags::new());
}

#[test]
fn reset_to_sets_program_counter_and_accumulator() {
    let mut cpu = CPU::new(Ram::new());
    cpu.registers.x = 8;
    cpu.status_flags.zero = true;
    cpu.reset_to(0xc000, 0x5a);
    assert_eq!(cpu.registers.program_counter, 0xc000);
    assert_eq!(cpu.registers.accumulator, 0x5a);
    assert_eq!(cpu.registers.x, 0);
    assert_eq!(cpu.registers.stack_pointer, 0xff);
    assert_eq!(cpu.status_flags, StatusFlags::new());
}
