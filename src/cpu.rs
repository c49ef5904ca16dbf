//! The executable machine.
use vstd::prelude::*;
use crate::semantics::{
    field_addr, field_kk, field_minor, field_x, field_y, family, CpuState, Fault, Step,
    CYCLE_LIMIT, FLAG_REGISTER, MEMORY_SIZE, REGISTER_COUNT, STACK_CAPACITY,
};

verus! {

/// The masks and shifts that split an opcode give its fields.
proof fn lemma_decode(op: u16)
    ensures
        ((op & 0x0F00) >> 8) as int == field_x(op as int),
        ((op & 0x00F0) >> 4) as int == field_y(op as int),
        (op & 0x00FF) as u8 == field_kk(op as int),
        (op & 0x000F) as int == field_minor(op as int),
        (op & 0x0FFF) as int == field_addr(op as int),
        (op >> 12) as int == family(op as int),
{
    assert(((op & 0x0F00) >> 8) == (op / 256) % 16) by (bit_vector);
    assert(((op & 0x00F0) >> 4) == (op / 16) % 16) by (bit_vector);
    assert((op & 0x00FF) == op % 256) by (bit_vector);
    assert((op & 0x000F) == op % 16) by (bit_vector);
    assert((op & 0x0FFF) == op % 4096) by (bit_vector);
    assert((op >> 12) == op / 4096) by (bit_vector);
}

/// Two bytes joined big-endian by shift and or.
proof fn lemma_join(high: u16, low: u16)
    requires
        high <= 255,
        low <= 255,
    ensures
        (high << 8 | low) as int == high as int * 256 + low as int,
{
    assert(high <= 255 && low <= 255 ==> (high << 8 | low) == high * 256 + low) by (bit_vector);
}

/// A machine: register file, memory, program counter and call stack.
pub struct CPU {
    registers: [u8; REGISTER_COUNT],
    position_in_memory: usize,
    memory: [u8; MEMORY_SIZE],
    stack: [usize; STACK_CAPACITY],
    stack_pointer: usize,
}

impl View for CPU {
    type V = CpuState;

    closed spec fn view(&self) -> CpuState {
        CpuState {
            registers: self.registers@,
            memory: self.memory@,
            pc: self.position_in_memory as int,
            stack: self.stack@,
            sp: self.stack_pointer as int,
        }
    }
}

impl CPU {
    /// A machine with every register, memory byte and stack slot zero, and the
    /// program counter and stack pointer at zero.
    pub fn new() -> (r: CPU)
        ensures
            r@.wf(),
            r@.registers == Seq::new(REGISTER_COUNT as nat, |i: int| 0u8),
            r@.memory == Seq::new(MEMORY_SIZE as nat, |i: int| 0u8),
            r@.stack == Seq::new(STACK_CAPACITY as nat, |i: int| 0usize),
            r@.pc == 0,
            r@.sp == 0,
    {
        let r = CPU {
            registers: [0u8; REGISTER_COUNT],
            position_in_memory: 0,
            memory: [0u8; MEMORY_SIZE],
            stack: [0usize; STACK_CAPACITY],
            stack_pointer: 0,
        };
        assert(r@.registers =~= Seq::new(REGISTER_COUNT as nat, |i: int| 0u8));
        assert(r@.memory =~= Seq::new(MEMORY_SIZE as nat, |i: int| 0u8));
        assert(r@.stack =~= Seq::new(STACK_CAPACITY as nat, |i: int| 0usize));
        r
    }

    /// The register file.
    pub fn registers(&self) -> (r: [u8; REGISTER_COUNT])
        ensures
            r@ == self@.registers,
    {
        self.registers
    }

    /// The value of register `x`.
    pub fn register(&self, x: u8) -> (r: u8)
        requires
            x < REGISTER_COUNT,
        ensures
            r == self@.registers[x as int],
    {
        self.registers[x as usize]
    }

    /// The address of the next instruction to fetch.
    pub fn program_counter(&self) -> (r: usize)
        ensures
            r == self@.pc,
    {
        self.position_in_memory
    }

    /// The number of outstanding calls: the index of the next free stack slot.
    pub fn stack_pointer(&self) -> (r: usize)
        ensures
            r == self@.sp,
    {
        self.stack_pointer
    }

    /// The byte at `addr`.
    pub fn memory_at(&self, addr: usize) -> (r: u8)
        requires
            addr < MEMORY_SIZE,
        ensures
            r == self@.memory[addr as int],
    {
        self.memory[addr]
    }

    /// Stores `byte` at `addr`: how a program is placed in memory before it runs.
    pub fn write_memory(&mut self, addr: usize, byte: u8)
        requires
            old(self)@.wf(),
            addr < MEMORY_SIZE,
        ensures
            final(self)@ == (CpuState { memory: old(self)@.memory.update(addr as int, byte), ..old(self)@ }),
    {
        self.memory[addr] = byte;
    }

    /// (6xkk) Register `vx` := `kk`.
    pub fn ld(&mut self, vx: u8, kk: u8)
        requires
            old(self)@.wf(),
            vx < REGISTER_COUNT,
        ensures
            final(self)@ == old(self)@.load(vx as int, kk),
    {
        self.registers[vx as usize] = kk;
    }

    /// (7xkk) Register `vx` := register `vx` + `kk`, wrapping at 8 bits.
    pub fn add(&mut self, vx: u8, kk: u8)
        requires
            old(self)@.wf(),
            vx < REGISTER_COUNT,
        ensures
            final(self)@ == old(self)@.add_imm(vx as int, kk),
    {
        let v = self.registers[vx as usize];
        self.registers[vx as usize] = v.wrapping_add(kk);
    }

    /// Skips the next instruction when `vx` equals `kk`.
    pub fn se(&mut self, vx: u8, kk: u8)
        requires
            old(self)@.wf(),
            old(self)@.pc + 2 <= usize::MAX,
        ensures
            final(self)@ == old(self)@.skip_if(vx == kk),
    {
        if vx == kk {
            self.position_in_memory = self.position_in_memory + 2;
        }
    }

    /// Skips the next instruction when `vx` differs from `kk`.
    pub fn sne(&mut self, vx: u8, kk: u8)
        requires
            old(self)@.wf(),
            old(self)@.pc + 2 <= usize::MAX,
        ensures
            final(self)@ == old(self)@.skip_if(vx != kk),
    {
        if vx != kk {
            self.position_in_memory = self.position_in_memory + 2;
        }
    }

    /// (1nnn) Jumps to `addr`.
    pub fn jmp(&mut self, addr: u16)
        requires
            old(self)@.wf(),
        ensures
            final(self)@ == old(self)@.jump(addr as int),
    {
        self.position_in_memory = addr as usize;
    }

    /// (2nnn) Calls the subroutine at `addr`: the program counter is saved on
    /// the stack. Fails with `StackOverflow`, changing nothing, when all
    /// sixteen slots are taken.
    pub fn call(&mut self, addr: u16) -> (r: Result<(), Fault>)
        requires
            old(self)@.wf(),
        ensures
            old(self)@.sp >= STACK_CAPACITY ==> r == Err::<(), Fault>(Fault::StackOverflow)
                && final(self)@ == old(self)@,
            old(self)@.sp < STACK_CAPACITY ==> r == Ok::<(), Fault>(())
                && final(self)@ == old(self)@.push_call(addr as int),
    {
        let sp = self.stack_pointer;
        if sp >= STACK_CAPACITY {
            return Err(Fault::StackOverflow);
        }
        self.stack[sp] = self.position_in_memory;
        self.stack_pointer = sp + 1;
        self.position_in_memory = addr as usize;
        Ok(())
    }

    /// (00EE) Returns from the current subroutine to the address saved last.
    /// Fails with `StackUnderflow`, changing nothing, when no call is
    /// outstanding.
    pub fn ret(&mut self) -> (r: Result<(), Fault>)
        requires
            old(self)@.wf(),
        ensures
            old(self)@.sp == 0 ==> r == Err::<(), Fault>(Fault::StackUnderflow)
                && final(self)@ == old(self)@,
            old(self)@.sp > 0 ==> r == Ok::<(), Fault>(()) && final(self)@ == old(self)@.pop_return(),
    {
        if self.stack_pointer == 0 {
            return Err(Fault::StackUnderflow);
        }
        self.stack_pointer = self.stack_pointer - 1;
        self.position_in_memory = self.stack[self.stack_pointer];
        Ok(())
    }

    /// (8xy4) Register `x` := register `x` + register `y` mod 256; then the
    /// flag register := 1 if the sum exceeded 255, else 0.
    pub fn add_xy(&mut self, x: u8, y: u8)
        requires
            old(self)@.wf(),
            x < REGISTER_COUNT,
            y < REGISTER_COUNT,
        ensures
            final(self)@ == old(self)@.add_regs(x as int, y as int),
            final(self)@.registers[FLAG_REGISTER as int] == 1
                <==> old(self)@.registers[x as int] + old(self)@.registers[y as int] > 255,
    {
        let arg1 = self.registers[x as usize];
        let arg2 = self.registers[y as usize];
        let sum: u16 = arg1 as u16 + arg2 as u16;
        self.registers[x as usize] = arg1.wrapping_add(arg2);
        if sum > 255 {
            self.registers[FLAG_REGISTER as usize] = 1;
        } else {
            self.registers[FLAG_REGISTER as usize] = 0;
        }
    }

    /// (8xy2) Register `x` := register `x` & register `y`.
    pub fn and_xy(&mut self, x: u8, y: u8)
        requires
            old(self)@.wf(),
            x < REGISTER_COUNT,
            y < REGISTER_COUNT,
        ensures
            final(self)@ == old(self)@.and_regs(x as int, y as int),
    {
        let x_ = self.registers[x as usize];
        let y_ = self.registers[y as usize];
        self.registers[x as usize] = x_ & y_;
    }

    /// (8xy1) Register `x` := register `x` | register `y`.
    pub fn or_xy(&mut self, x: u8, y: u8)
        requires
            old(self)@.wf(),
            x < REGISTER_COUNT,
            y < REGISTER_COUNT,
        ensures
            final(self)@ == old(self)@.or_regs(x as int, y as int),
    {
        let x_ = self.registers[x as usize];
        let y_ = self.registers[y as usize];
        self.registers[x as usize] = x_ | y_;
    }

    /// (8xy3) Register `x` := register `x` ^ register `y`.
    pub fn xor_xy(&mut self, x: u8, y: u8)
        requires
            old(self)@.wf(),
            x < REGISTER_COUNT,
            y < REGISTER_COUNT,
        ensures
            final(self)@ == old(self)@.xor_regs(x as int, y as int),
    {
        let x_ = self.registers[x as usize];
        let y_ = self.registers[y as usize];
        self.registers[x as usize] = x_ ^ y_;
    }

    /// Executes `opcode` as the instruction just fetched: the program counter
    /// already points past it.
    pub fn execute(&mut self, opcode: u16) -> (r: Result<Step, Fault>)
        requires
            old(self)@.wf(),
            old(self)@.pc + 2 <= usize::MAX,
        ensures
            (final(self)@, r) == old(self)@.execute(opcode as int),
    {
        let x = ((opcode & 0x0F00) >> 8) as u8;
        let y = ((opcode & 0x00F0) >> 4) as u8;
        let kk = (opcode & 0x00FF) as u8;
        let op_minor = (opcode & 0x000F) as u8;
        let addr = opcode & 0x0FFF;
        let family = opcode >> 12;
        proof {
            lemma_decode(opcode);
        }
        if opcode == 0x0000 {
            Ok(Step::Halt)
        } else if opcode == 0x00E0 {
            Ok(Step::Continue)
        } else if opcode == 0x00EE {
            match self.ret() {
                Ok(()) => Ok(Step::Continue),
                Err(f) => Err(f),
            }
        } else if family == 0x1 {
            self.jmp(addr);
            Ok(Step::Continue)
        } else if family == 0x2 {
            match self.call(addr) {
                Ok(()) => Ok(Step::Continue),
                Err(f) => Err(f),
            }
        } else if family == 0x3 {
            let vx = self.registers[x as usize];
            self.se(vx, kk);
            Ok(Step::Continue)
        } else if family == 0x4 {
            let vx = self.registers[x as usize];
            self.sne(vx, kk);
            Ok(Step::Continue)
        } else if family == 0x5 && op_minor == 0 {
            let vx = self.registers[x as usize];
            let vy = self.registers[y as usize];
            self.se(vx, vy);
            Ok(Step::Continue)
        } else if family == 0x6 {
            self.ld(x, kk);
            Ok(Step::Continue)
        } else if family == 0x7 {
            self.add(x, kk);
            Ok(Step::Continue)
        } else if family == 0x8 && op_minor == 0 {
            let vy = self.registers[y as usize];
            self.ld(x, vy);
            Ok(Step::Continue)
        } else if family == 0x8 && op_minor == 1 {
            self.or_xy(x, y);
            Ok(Step::Continue)
        } else if family == 0x8 && op_minor == 2 {
            self.and_xy(x, y);
            Ok(Step::Continue)
        } else if family == 0x8 && op_minor == 3 {
            self.xor_xy(x, y);
            Ok(Step::Continue)
        } else if family == 0x8 && op_minor == 4 {
            self.add_xy(x, y);
            Ok(Step::Continue)
        } else {
            Err(Fault::UnknownOpcode(opcode))
        }
    }

    /// One cycle: fetches the two bytes at the program counter, moves the
    /// counter past them and executes the opcode they form. Fails with
    /// `PcOutOfBounds`, changing nothing, when the second byte lies outside
    /// memory.
    pub fn step(&mut self) -> (r: Result<Step, Fault>)
        requires
            old(self)@.wf(),
        ensures
            (final(self)@, r) == old(self)@.step(),
    {
        let pc = self.position_in_memory;
        if pc >= MEMORY_SIZE - 1 {
            return Err(Fault::PcOutOfBounds(pc));
        }
        let op_byte1 = self.memory[pc] as u16;
        let op_byte2 = self.memory[pc + 1] as u16;
        let opcode: u16 = op_byte1 << 8 | op_byte2;
        proof {
            lemma_join(op_byte1, op_byte2);
        }
        self.position_in_memory = pc + 2;
        self.execute(opcode)
    }

    /// Runs cycles until the halt instruction (`Ok`) or a fault (`Err`), the
    /// state staying as the last cycle left it. Gives up with `CycleLimit`
    /// after `CYCLE_LIMIT` cycles, which keeps every call finite.
    pub fn run(&mut self) -> (r: Result<(), Fault>)
        requires
            old(self)@.wf(),
        ensures
            (final(self)@, r) == old(self)@.run(CYCLE_LIMIT as nat),
    {
        let mut remaining: u64 = CYCLE_LIMIT;
        loop
            invariant
                self@.wf(),
                old(self)@.run(CYCLE_LIMIT as nat) == self@.run(remaining as nat),
            decreases remaining,
        {
            if remaining == 0 {
                return Err(Fault::CycleLimit);
            }
            match self.step() {
                Ok(Step::Continue) => {},
                Ok(Step::Halt) => {
                    return Ok(());
                },
                Err(f) => {
                    return Err(f);
                },
            }
            remaining = remaining - 1;
        }
    }
}

} // verus!
