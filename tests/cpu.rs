use chip8_core::cpu::CPU;
use chip8_core::semantics::{Fault, Step, CYCLE_LIMIT, MEMORY_SIZE};

fn load_program(cpu: &mut CPU, base: usize, bytes: &[u8]) {
    for (i, b) in bytes.iter().enumerate() {
        cpu.write_memory(base + i, *b);
    }
}

#[test]
fn new_machine_is_zeroed() {
    let cpu = CPU::new();
    assert_eq!(cpu.registers(), [0u8; 16]);
    assert_eq!(cpu.program_counter(), 0);
    assert_eq!(cpu.stack_pointer(), 0);
    assert_eq!(cpu.memory_at(0), 0);
    assert_eq!(cpu.memory_at(MEMORY_SIZE - 1), 0);
}

#[test]
fn reference_program_sums_to_45() {
    let mut cpu = CPU::new();
    cpu.ld(0, 5);
    cpu.ld(1, 10);
    load_program(&mut cpu, 0x000, &[0x21, 0x00, 0x21, 0x00]);
    load_program(&mut cpu, 0x100, &[0x80, 0x14, 0x80, 0x14, 0x00, 0xEE]);
    assert_eq!(cpu.run(), Ok(()));
    assert_eq!(cpu.register(0), 45);
    assert_eq!(cpu.register(1), 10);
    assert_eq!(cpu.register(0xF), 0);
    assert_eq!(cpu.stack_pointer(), 0);
    assert_eq!(cpu.program_counter(), 6);
}

#[test]
fn load_then_add_wraps() {
    let mut cpu = CPU::new();
    cpu.ld(3, 250);
    cpu.add(3, 10);
    assert_eq!(cpu.register(3), 4);
    cpu.ld(4, 100);
    cpu.add(4, 55);
    assert_eq!(cpu.register(4), 155);
    cpu.ld(5, 255);
    cpu.add(5, 255);
    assert_eq!(cpu.register(5), 254);
    assert_eq!(cpu.register(0xF), 0);
}

#[test]
fn add_immediate_opcode_wraps() {
    let mut cpu = CPU::new();
    load_program(&mut cpu, 0, &[0x62, 0xF0, 0x72, 0x20, 0x00, 0x00]);
    assert_eq!(cpu.run(), Ok(()));
    assert_eq!(cpu.register(2), 0x10);
}

#[test]
fn add_xy_sets_carry_on_overflow() {
    let mut cpu = CPU::new();
    cpu.ld(0, 200);
    cpu.ld(1, 100);
    cpu.add_xy(0, 1);
    assert_eq!(cpu.register(0), 44);
    assert_eq!(cpu.register(0xF), 1);
}

#[test]
fn add_xy_clears_carry_without_overflow() {
    let mut cpu = CPU::new();
    cpu.ld(0xF, 1);
    cpu.ld(0, 200);
    cpu.ld(1, 55);
    cpu.add_xy(0, 1);
    assert_eq!(cpu.register(0), 255);
    assert_eq!(cpu.register(0xF), 0);
}

#[test]
fn add_xy_carry_exhaustive() {
    for a in 0..=255u16 {
        for b in [0u16, 1, 54, 55, 56, 127, 128, 200, 255] {
            let mut cpu = CPU::new();
            cpu.ld(2, a as u8);
            cpu.ld(7, b as u8);
            cpu.add_xy(2, 7);
            assert_eq!(cpu.register(2) as u16, (a + b) % 256);
            assert_eq!(cpu.register(0xF) == 1, a + b > 255);
        }
    }
}

#[test]
fn add_xy_into_flag_register_keeps_flag() {
    let mut cpu = CPU::new();
    cpu.ld(0xF, 200);
    cpu.ld(1, 100);
    cpu.add_xy(0xF, 1);
    assert_eq!(cpu.register(0xF), 1);
}

#[test]
fn bitwise_register_ops() {
    let mut cpu = CPU::new();
    cpu.ld(0, 0b1100_1010);
    cpu.ld(1, 0b1010_0110);
    cpu.or_xy(0, 1);
    assert_eq!(cpu.register(0), 0b1110_1110);
    cpu.ld(0, 0b1100_1010);
    cpu.and_xy(0, 1);
    assert_eq!(cpu.register(0), 0b1000_0010);
    cpu.ld(0, 0b1100_1010);
    cpu.xor_xy(0, 1);
    assert_eq!(cpu.register(0), 0b0110_1100);
    assert_eq!(cpu.register(1), 0b1010_0110);
}

#[test]
fn register_family_opcodes() {
    let mut cpu = CPU::new();
    cpu.ld(1, 0x0F);
    cpu.ld(2, 0x3C);
    load_program(
        &mut cpu,
        0,
        &[0x83, 0x20, 0x84, 0x21, 0x84, 0x12, 0x85, 0x23, 0x00, 0xE0, 0x00, 0x00],
    );
    cpu.ld(4, 0xF0);
    cpu.ld(5, 0xFF);
    assert_eq!(cpu.run(), Ok(()));
    assert_eq!(cpu.register(3), 0x3C);
    assert_eq!(cpu.register(4), (0xF0 | 0x3C) & 0x0F);
    assert_eq!(cpu.register(5), 0xFF ^ 0x3C);
    assert_eq!(cpu.program_counter(), 12);
}

#[test]
fn jump_sets_program_counter() {
    let mut cpu = CPU::new();
    cpu.jmp(0x345);
    assert_eq!(cpu.program_counter(), 0x345);
    let mut cpu = CPU::new();
    load_program(&mut cpu, 0, &[0x12, 0x00]);
    assert_eq!(cpu.step(), Ok(Step::Continue));
    assert_eq!(cpu.program_counter(), 0x200);
}

#[test]
fn nested_calls_return_in_lifo_order() {
    let mut cpu = CPU::new();
    cpu.jmp(0x010);
    let targets = [0x100u16, 0x200, 0x300, 0x400];
    for t in targets {
        assert_eq!(cpu.call(t), Ok(()));
        assert_eq!(cpu.program_counter(), t as usize);
    }
    assert_eq!(cpu.stack_pointer(), 4);
    for expected in [0x300usize, 0x200, 0x100, 0x010] {
        assert_eq!(cpu.ret(), Ok(()));
        assert_eq!(cpu.program_counter(), expected);
    }
    assert_eq!(cpu.stack_pointer(), 0);
}

#[test]
fn call_on_full_stack_overflows() {
    let mut cpu = CPU::new();
    for i in 0..16u16 {
        assert_eq!(cpu.call(0x100 + 2 * i), Ok(()));
    }
    assert_eq!(cpu.stack_pointer(), 16);
    let pc = cpu.program_counter();
    assert_eq!(cpu.call(0x300), Err(Fault::StackOverflow));
    assert_eq!(cpu.stack_pointer(), 16);
    assert_eq!(cpu.program_counter(), pc);
}

#[test]
fn runaway_recursion_overflows() {
    let mut cpu = CPU::new();
    load_program(&mut cpu, 0, &[0x20, 0x00]);
    assert_eq!(cpu.run(), Err(Fault::StackOverflow));
    assert_eq!(cpu.stack_pointer(), 16);
}

#[test]
fn return_on_empty_stack_underflows() {
    let mut cpu = CPU::new();
    assert_eq!(cpu.ret(), Err(Fault::StackUnderflow));
    assert_eq!(cpu.stack_pointer(), 0);
    let mut cpu = CPU::new();
    load_program(&mut cpu, 0, &[0x00, 0xEE]);
    assert_eq!(cpu.run(), Err(Fault::StackUnderflow));
}

#[test]
fn skip_if_equal_immediate() {
    let mut cpu = CPU::new();
    cpu.ld(4, 0x42);
    load_program(&mut cpu, 0, &[0x34, 0x42]);
    assert_eq!(cpu.step(), Ok(Step::Continue));
    assert_eq!(cpu.program_counter(), 4);
    let mut cpu = CPU::new();
    cpu.ld(4, 0x41);
    load_program(&mut cpu, 0, &[0x34, 0x42]);
    assert_eq!(cpu.step(), Ok(Step::Continue));
    assert_eq!(cpu.program_counter(), 2);
}

#[test]
fn skip_if_not_equal_immediate() {
    let mut cpu = CPU::new();
    cpu.ld(4, 0x41);
    load_program(&mut cpu, 0, &[0x44, 0x42]);
    assert_eq!(cpu.step(), Ok(Step::Continue));
    assert_eq!(cpu.program_counter(), 4);
    let mut cpu = CPU::new();
    cpu.ld(4, 0x42);
    load_program(&mut cpu, 0, &[0x44, 0x42]);
    assert_eq!(cpu.step(), Ok(Step::Continue));
    assert_eq!(cpu.program_counter(), 2);
}

#[test]
fn skip_if_registers_equal_compares_values() {
    let mut cpu = CPU::new();
    cpu.ld(1, 7);
    cpu.ld(2, 7);
    load_program(&mut cpu, 0, &[0x51, 0x20]);
    assert_eq!(cpu.step(), Ok(Step::Continue));
    assert_eq!(cpu.program_counter(), 4);
    let mut cpu = CPU::new();
    cpu.ld(1, 7);
    cpu.ld(2, 8);
    load_program(&mut cpu, 0, &[0x51, 0x20]);
    assert_eq!(cpu.step(), Ok(Step::Continue));
    assert_eq!(cpu.program_counter(), 2);
    let mut cpu = CPU::new();
    cpu.ld(1, 0);
    cpu.ld(2, 0);
    load_program(&mut cpu, 0, &[0x51, 0x30]);
    cpu.ld(3, 9);
    assert_eq!(cpu.step(), Ok(Step::Continue));
    assert_eq!(cpu.program_counter(), 2);
}

#[test]
fn se_and_sne_handlers() {
    let mut cpu = CPU::new();
    cpu.se(3, 3);
    assert_eq!(cpu.program_counter(), 2);
    cpu.se(3, 4);
    assert_eq!(cpu.program_counter(), 2);
    cpu.sne(3, 4);
    assert_eq!(cpu.program_counter(), 4);
    cpu.sne(3, 3);
    assert_eq!(cpu.program_counter(), 4);
}

#[test]
fn fetch_at_last_address_faults() {
    let mut cpu = CPU::new();
    cpu.jmp(4095);
    assert_eq!(cpu.step(), Err(Fault::PcOutOfBounds(4095)));
    assert_eq!(cpu.program_counter(), 4095);
    let mut cpu = CPU::new();
    cpu.ld(0, 0x60);
    load_program(&mut cpu, 0, &[0x1F, 0xFF]);
    assert_eq!(cpu.run(), Err(Fault::PcOutOfBounds(4095)));
}

#[test]
fn fetch_at_second_to_last_address_succeeds() {
    let mut cpu = CPU::new();
    load_program(&mut cpu, 4094, &[0x63, 0x07]);
    cpu.jmp(4094);
    assert_eq!(cpu.step(), Ok(Step::Continue));
    assert_eq!(cpu.register(3), 7);
    assert_eq!(cpu.program_counter(), 4096);
    assert_eq!(cpu.step(), Err(Fault::PcOutOfBounds(4096)));
}

#[test]
fn unknown_opcodes_fault() {
    for op in [0x9999u16, 0x8015, 0x801E, 0x5011, 0x0123, 0xA000, 0xFFFF] {
        let mut cpu = CPU::new();
        assert_eq!(cpu.execute(op), Err(Fault::UnknownOpcode(op)));
    }
    let mut cpu = CPU::new();
    load_program(&mut cpu, 0, &[0x99, 0x99]);
    assert_eq!(cpu.run(), Err(Fault::UnknownOpcode(0x9999)));
    assert_eq!(cpu.program_counter(), 2);
    let mut cpu = CPU::new();
    load_program(&mut cpu, 0, &[0x80, 0x15]);
    assert_eq!(cpu.run(), Err(Fault::UnknownOpcode(0x8015)));
}

#[test]
fn halt_changes_nothing() {
    let mut cpu = CPU::new();
    cpu.ld(6, 9);
    assert_eq!(cpu.run(), Ok(()));
    assert_eq!(cpu.program_counter(), 2);
    assert_eq!(cpu.register(6), 9);
    assert_eq!(cpu.execute(0x0000), Ok(Step::Halt));
}

#[test]
fn cycle_limit_is_maximal() {
    assert_eq!(CYCLE_LIMIT, u64::MAX);
}
