//! Properties of the instruction semantics that relate several steps.
use vstd::prelude::*;
use crate::semantics::{
    family, field_kk, field_minor, field_x, field_y, opcode_at, CpuState, Fault, Step,
    FLAG_REGISTER, STACK_CAPACITY,
};

verus! {

/// The state after calling each address of `addrs` in turn, starting from `s`.
pub open spec fn call_each(s: CpuState, addrs: Seq<u16>) -> CpuState
    decreases addrs.len(),
{
    if addrs.len() == 0 {
        s
    } else {
        call_each(s, addrs.drop_last()).push_call(addrs.last() as int)
    }
}

/// The state after `k` returns, starting from `s`.
pub open spec fn return_times(s: CpuState, k: nat) -> CpuState
    decreases k,
{
    if k == 0 {
        s
    } else {
        return_times(s, (k - 1) as nat).pop_return()
    }
}

/// The program counters that calling each address of `addrs` from `s` saves,
/// in the order they are pushed: the first call saves `s`'s counter, each
/// later one the address the call before it went to.
pub open spec fn saved_pcs(s: CpuState, addrs: Seq<u16>) -> Seq<int> {
    seq![s.pc] + addrs.drop_last().map_values(|a: u16| a as int)
}

/// Whether a skip instruction with opcode `op` finds its condition true.
pub open spec fn skip_taken(s: CpuState, op: int) -> bool {
    let vx = s.registers[field_x(op)];
    if family(op) == 0x3 {
        vx == field_kk(op)
    } else if family(op) == 0x4 {
        vx != field_kk(op)
    } else {
        vx == s.registers[field_y(op)]
    }
}

/// Loading `a` into a register and then adding `b` to it leaves `(a + b) mod
/// 256` there, also when the sum does not fit in 8 bits.
pub proof fn lemma_load_then_add(s: CpuState, x: int, a: u8, b: u8)
    requires
        s.wf(),
        0 <= x < 16,
    ensures
        s.load(x, a).add_imm(x, b).registers[x] == (a + b) % 256,
{
}

/// The register-to-register add sets the flag register to 1 exactly when the
/// unsigned sum of its operands exceeds 255, and to 0 otherwise.
pub proof fn lemma_carry_flag(s: CpuState, x: int, y: int)
    requires
        s.wf(),
        0 <= x < 16,
        0 <= y < 16,
    ensures
        s.add_regs(x, y).registers[FLAG_REGISTER as int] == 1 <==> s.registers[x]
            + s.registers[y] > 255,
        s.add_regs(x, y).registers[FLAG_REGISTER as int] == 0 <==> s.registers[x]
            + s.registers[y] <= 255,
{
}

proof fn lemma_call_each(s: CpuState, addrs: Seq<u16>)
    requires
        s.wf(),
        s.sp + addrs.len() <= STACK_CAPACITY,
    ensures
        call_each(s, addrs).wf(),
        call_each(s, addrs).sp == s.sp + addrs.len(),
        call_each(s, addrs).registers == s.registers,
        call_each(s, addrs).memory == s.memory,
        forall|i: int|
            0 <= i < addrs.len() ==> call_each(s, addrs).stack[s.sp + i] as int == #[trigger] saved_pcs(
                s,
                addrs,
            )[i],
        addrs.len() > 0 ==> call_each(s, addrs).pc == addrs.last() as int,
    decreases addrs.len(),
{
    if addrs.len() > 0 {
        let prefix = addrs.drop_last();
        lemma_call_each(s, prefix);
        let t = call_each(s, prefix);
        let n = addrs.len() - 1;
        assert forall|i: int| 0 <= i < addrs.len() implies call_each(s, addrs).stack[s.sp + i] as int
            == #[trigger] saved_pcs(s, addrs)[i] by {
            if i < n {
                assert(saved_pcs(s, addrs)[i] == saved_pcs(s, prefix)[i]);
            } else if n > 0 {
                assert(prefix.drop_last() =~= addrs.take(n - 1));
                assert(saved_pcs(s, addrs)[i] == addrs[n - 1] as int);
                assert(prefix.last() == addrs[n - 1]);
            }
        }
    }
}

proof fn lemma_return_times(t: CpuState, k: nat)
    requires
        t.wf(),
        k <= t.sp,
    ensures
        return_times(t, k).wf(),
        return_times(t, k).sp == t.sp - k,
        return_times(t, k).stack == t.stack,
        return_times(t, k).registers == t.registers,
        return_times(t, k).memory == t.memory,
        k > 0 ==> return_times(t, k).pc == t.stack[t.sp - k] as int,
    decreases k,
{
    if k > 0 {
        lemma_return_times(t, (k - 1) as nat);
    }
}

/// Calls and returns nest: after calls that save the counters p1, ..., pn (no
/// more than the free slots), each call finds a free slot, each of `n` returns
/// finds an outstanding call, the j-th return restores p(n-j+1), and the last
/// one leaves the stack pointer, program counter, registers and memory as they
/// were before the first call.
pub proof fn lemma_calls_then_returns(s: CpuState, addrs: Seq<u16>)
    requires
        s.wf(),
        s.sp + addrs.len() <= STACK_CAPACITY,
    ensures
        forall|i: int|
            0 <= i < addrs.len() ==> (#[trigger] call_each(s, addrs.take(i))).sp < STACK_CAPACITY,
        forall|j: nat|
            j < addrs.len() ==> (#[trigger] return_times(call_each(s, addrs), j)).sp > 0,
        forall|j: nat|
            1 <= j <= addrs.len() ==> (#[trigger] return_times(call_each(s, addrs), j)).pc
                == saved_pcs(s, addrs)[addrs.len() - j],
        return_times(call_each(s, addrs), addrs.len()).sp == s.sp,
        return_times(call_each(s, addrs), addrs.len()).pc == s.pc,
        return_times(call_each(s, addrs), addrs.len()).registers == s.registers,
        return_times(call_each(s, addrs), addrs.len()).memory == s.memory,
{
    let n = addrs.len();
    lemma_call_each(s, addrs);
    let t = call_each(s, addrs);
    assert forall|i: int| 0 <= i < n implies (#[trigger] call_each(s, addrs.take(i))).sp
        < STACK_CAPACITY by {
        lemma_call_each(s, addrs.take(i));
    }
    assert forall|j: nat| j < n implies (#[trigger] return_times(t, j)).sp > 0 by {
        lemma_return_times(t, j);
    }
    assert forall|j: nat| 1 <= j <= n implies (#[trigger] return_times(t, j)).pc == saved_pcs(
        s,
        addrs,
    )[n - j] by {
        lemma_return_times(t, j);
        assert(t.stack[s.sp + (n - j)] as int == saved_pcs(s, addrs)[n - j]);
    }
    lemma_return_times(t, n);
    if n > 0 {
        assert(saved_pcs(s, addrs)[0] == s.pc);
        assert(t.stack[s.sp + 0] as int == saved_pcs(s, addrs)[0]);
    }
}

/// A skip instruction (families 3, 4 and 5) moves the program counter 4 bytes
/// on when its condition holds and 2 when it does not, changing nothing else.
pub proof fn lemma_skip_advance(s: CpuState)
    requires
        s.wf(),
        s.can_fetch(),
        family(opcode_at(s.memory, s.pc)) == 0x3 || family(opcode_at(s.memory, s.pc)) == 0x4 || (
        family(opcode_at(s.memory, s.pc)) == 0x5 && field_minor(opcode_at(s.memory, s.pc)) == 0),
    ensures
        s.step().1 == Ok::<Step, Fault>(Step::Continue),
        s.step().0 == (CpuState {
            pc: s.pc + if skip_taken(s, opcode_at(s.memory, s.pc)) {
                4int
            } else {
                2int
            },
            ..s
        }),
{
}

} // verus!
