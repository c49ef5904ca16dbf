//! The mathematical model of the machine and of what each instruction does.
use vstd::prelude::*;

verus! {

/// Number of bytes of addressable memory.
pub const MEMORY_SIZE: usize = 4096;

/// Number of general-purpose registers.
pub const REGISTER_COUNT: usize = 16;

/// Number of return addresses the call stack can hold.
pub const STACK_CAPACITY: usize = 16;

/// The register written by arithmetic instructions to report a carry.
pub const FLAG_REGISTER: u8 = 0xF;

/// Number of cycles `run` performs before it gives up on reaching a halt.
pub const CYCLE_LIMIT: u64 = 0xFFFF_FFFF_FFFF_FFFF;

/// Why execution stopped other than at a halt instruction.
#[derive(Clone, Copy, Debug, PartialEq, Eq, Structural)]
pub enum Fault {
    /// A call found every stack slot taken.
    StackOverflow,
    /// A return found no outstanding call.
    StackUnderflow,
    /// The fetched opcode matches no instruction.
    UnknownOpcode(u16),
    /// The two bytes of the instruction at this address do not both lie in memory.
    PcOutOfBounds(usize),
    /// `CYCLE_LIMIT` cycles ran without a halt.
    CycleLimit,
}

/// What a cycle that did not fault asks of the loop.
#[derive(Clone, Copy, Debug, PartialEq, Eq, Structural)]
pub enum Step {
    /// Fetch the next instruction.
    Continue,
    /// Stop: the halt instruction was executed.
    Halt,
}

/// The 16-bit opcode stored big-endian at `addr` and `addr + 1`.
pub open spec fn opcode_at(memory: Seq<u8>, addr: int) -> int {
    memory[addr] as int * 256 + memory[addr + 1] as int
}

/// Top nibble of an opcode: the instruction family.
pub open spec fn family(op: int) -> int {
    op / 4096
}

/// Second nibble: the first register selector.
pub open spec fn field_x(op: int) -> int {
    (op / 256) % 16
}

/// Third nibble: the second register selector.
pub open spec fn field_y(op: int) -> int {
    (op / 16) % 16
}

/// Low byte: the immediate operand.
pub open spec fn field_kk(op: int) -> u8 {
    (op % 256) as u8
}

/// Low nibble: the minor opcode of a family.
pub open spec fn field_minor(op: int) -> int {
    op % 16
}

/// Low twelve bits: the address operand.
pub open spec fn field_addr(op: int) -> int {
    op % 4096
}

/// The machine's state as mathematical values.
pub struct CpuState {
    pub registers: Seq<u8>,
    pub memory: Seq<u8>,
    pub pc: int,
    pub stack: Seq<usize>,
    pub sp: int,
}

impl CpuState {
    /// Sizes are those of the machine, the stack cursor is within capacity and
    /// the program counter fits in a machine word.
    pub open spec fn wf(self) -> bool {
        &&& self.registers.len() == REGISTER_COUNT
        &&& self.memory.len() == MEMORY_SIZE
        &&& self.stack.len() == STACK_CAPACITY
        &&& 0 <= self.sp <= STACK_CAPACITY
        &&& 0 <= self.pc <= usize::MAX
    }

    /// Register `x` holds `v`.
    pub open spec fn load(self, x: int, v: u8) -> CpuState {
        CpuState { registers: self.registers.update(x, v), ..self }
    }

    /// Register `x` := register `x` + `v`, modulo 256.
    pub open spec fn add_imm(self, x: int, v: u8) -> CpuState {
        self.load(x, ((self.registers[x] + v) % 256) as u8)
    }

    /// Register `x` := register `x` | register `y`.
    pub open spec fn or_regs(self, x: int, y: int) -> CpuState {
        self.load(x, self.registers[x] | self.registers[y])
    }

    /// Register `x` := register `x` & register `y`.
    pub open spec fn and_regs(self, x: int, y: int) -> CpuState {
        self.load(x, self.registers[x] & self.registers[y])
    }

    /// Register `x` := register `x` ^ register `y`.
    pub open spec fn xor_regs(self, x: int, y: int) -> CpuState {
        self.load(x, self.registers[x] ^ self.registers[y])
    }

    /// Whether register `x` plus register `y` exceeds 8 bits.
    pub open spec fn carries(self, x: int, y: int) -> bool {
        self.registers[x] + self.registers[y] > 255
    }

    /// Register `x` := (register `x` + register `y`) mod 256, then the flag
    /// register := 1 on a carry, else 0.
    pub open spec fn add_regs(self, x: int, y: int) -> CpuState {
        let sum = ((self.registers[x] + self.registers[y]) % 256) as u8;
        self.load(x, sum).load(FLAG_REGISTER as int, if self.carries(x, y) { 1u8 } else { 0u8 })
    }

    /// The program counter moves past one more instruction when `cond` holds.
    pub open spec fn skip_if(self, cond: bool) -> CpuState {
        if cond { CpuState { pc: self.pc + 2, ..self } } else { self }
    }

    /// The program counter is `addr`.
    pub open spec fn jump(self, addr: int) -> CpuState {
        CpuState { pc: addr, ..self }
    }

    /// The program counter is saved in the next free stack slot, the cursor
    /// moves up by one and control goes to `addr`.
    pub open spec fn push_call(self, addr: int) -> CpuState {
        CpuState {
            stack: self.stack.update(self.sp, self.pc as usize),
            sp: self.sp + 1,
            pc: addr,
            ..self
        }
    }

    /// The cursor moves down by one and the program counter takes the address
    /// saved in that slot.
    pub open spec fn pop_return(self) -> CpuState {
        CpuState { sp: self.sp - 1, pc: self.stack[self.sp - 1] as int, ..self }
    }

    /// A call: a fault, state unchanged, when the stack is full.
    pub open spec fn call(self, addr: int) -> (CpuState, Result<Step, Fault>) {
        if self.sp >= STACK_CAPACITY {
            (self, Err(Fault::StackOverflow))
        } else {
            (self.push_call(addr), Ok(Step::Continue))
        }
    }

    /// A return: a fault, state unchanged, when no call is outstanding.
    pub open spec fn ret(self) -> (CpuState, Result<Step, Fault>) {
        if self.sp == 0 {
            (self, Err(Fault::StackUnderflow))
        } else {
            (self.pop_return(), Ok(Step::Continue))
        }
    }

    /// The effect of opcode `op` on a state whose program counter already
    /// points past it.
    pub open spec fn execute(self, op: int) -> (CpuState, Result<Step, Fault>) {
        let x = field_x(op);
        let y = field_y(op);
        let kk = field_kk(op);
        let minor = field_minor(op);
        let ok = Ok(Step::Continue);
        if op == 0x0000 {
            (self, Ok(Step::Halt))
        } else if op == 0x00E0 {
            (self, ok)
        } else if op == 0x00EE {
            self.ret()
        } else if family(op) == 0x1 {
            (self.jump(field_addr(op)), ok)
        } else if family(op) == 0x2 {
            self.call(field_addr(op))
        } else if family(op) == 0x3 {
            (self.skip_if(self.registers[x] == kk), ok)
        } else if family(op) == 0x4 {
            (self.skip_if(self.registers[x] != kk), ok)
        } else if family(op) == 0x5 && minor == 0 {
            (self.skip_if(self.registers[x] == self.registers[y]), ok)
        } else if family(op) == 0x6 {
            (self.load(x, kk), ok)
        } else if family(op) == 0x7 {
            (self.add_imm(x, kk), ok)
        } else if family(op) == 0x8 && minor == 0 {
            (self.load(x, self.registers[y]), ok)
        } else if family(op) == 0x8 && minor == 1 {
            (self.or_regs(x, y), ok)
        } else if family(op) == 0x8 && minor == 2 {
            (self.and_regs(x, y), ok)
        } else if family(op) == 0x8 && minor == 3 {
            (self.xor_regs(x, y), ok)
        } else if family(op) == 0x8 && minor == 4 {
            (self.add_regs(x, y), ok)
        } else {
            (self, Err(Fault::UnknownOpcode(op as u16)))
        }
    }

    /// Whether both bytes of the instruction at the program counter lie in memory.
    pub open spec fn can_fetch(self) -> bool {
        self.pc + 1 < self.memory.len()
    }

    /// One cycle: fetch the opcode at the program counter, move the counter
    /// past it, then execute it.
    pub open spec fn step(self) -> (CpuState, Result<Step, Fault>) {
        if !self.can_fetch() {
            (self, Err(Fault::PcOutOfBounds(self.pc as usize)))
        } else {
            let op = opcode_at(self.memory, self.pc);
            CpuState { pc: self.pc + 2, ..self }.execute(op)
        }
    }

    /// Cycles until a halt or a fault, or until `fuel` cycles have run.
    pub open spec fn run(self, fuel: nat) -> (CpuState, Result<(), Fault>)
        decreases fuel,
    {
        if fuel == 0 {
            (self, Err(Fault::CycleLimit))
        } else {
            let (next, r) = self.step();
            match r {
                Ok(Step::Continue) => next.run((fuel - 1) as nat),
                Ok(Step::Halt) => (next, Ok(())),
                Err(f) => (next, Err(f)),
            }
        }
    }
}

} // verus!
