//! The machine itself: 32768 memory cells, eight registers, the call/data
//! stack, the program counter, the two run-mode flags, and the
//! fetch-decode-execute step. One step either completes an instruction,
//! stops cleanly, asks its surroundings to emit a character or to supply
//! an input byte, or fails with a fatal error. The whole transition is
//! pinned by the spec-level function `step_spec`, and the handling of one
//! input byte by `feed_spec`.

use vstd::prelude::*;
use crate::arith::{add_val, mul_val, not_val, add_cells, mul_cells, not_cell};
use crate::operand::{resolve_spec, write_target_spec, resolve_word, write_target};
use crate::outcome::{VmError, StepEvent, InputResponse};
use crate::stack::Stack;

verus! {

/// The fixed address at which the armed bypass intercepts execution.
pub const BYPASS_PC: u16 = 6027;

/// Value forced into register 0 when the bypass fires.
pub const BYPASS_RESULT: u16 = 6;

/// Value preset into register 7 when the bypass is armed.
pub const BYPASS_R7_PRESET: u16 = 25734;

/// Input command byte `x`: toggle the trace flag.
pub const CMD_TRACE: u8 = 120;

/// Input command byte `!`: arm the bypass.
pub const CMD_BYPASS: u8 = 33;

/// Mathematical model of the whole machine state.
pub struct VmView {
    /// The 32768 memory cells.
    pub mem: Seq<u16>,
    /// The eight registers.
    pub regs: Seq<u16>,
    /// The call/data stack, bottom first.
    pub stack: Seq<u16>,
    /// The program counter.
    pub pc: int,
    /// Whether the machine has stopped for good.
    pub halted: bool,
    /// Whether per-instruction tracing is on.
    pub trace: bool,
    /// Whether the execution bypass is armed.
    pub bypass: bool,
    /// Destination register of an `in` instruction awaiting its byte.
    pub pending: Option<u16>,
}

/// Well-formedness of a machine state: full memory, eight registers, a
/// program counter that fits in a cell, and a pending input destination
/// that is a real register.
pub open spec fn view_wf(v: VmView) -> bool {
    &&& v.mem.len() == 32768
    &&& v.regs.len() == 8
    &&& 0 <= v.pc <= 0xffff
    &&& (v.pending is Some ==> v.pending->0 < 8)
}

/// A fatal error: the machine stops, everything but the halt flag exactly
/// as it stood before the fetch of the failing instruction.
pub open spec fn fault(pre: VmView, e: VmError) -> (VmView, Result<StepEvent, VmError>) {
    (VmView { halted: true, ..pre }, Err(e))
}

/// Number of operand words that follow the opcode word `op`.
pub open spec fn operand_count(op: u16) -> int {
    if op == 0 || op == 18 || op == 21 {
        0
    } else if op == 2 || op == 3 || op == 6 || op == 17 || op == 19 || op == 20 {
        1
    } else if op == 1 || op == 7 || op == 8 || op == 14 || op == 15 || op == 16 {
        2
    } else if 4 <= op <= 13 {
        3
    } else {
        0
    }
}

/// Result cell of a three-operand instruction on resolved values `a`, `b`.
/// For `mod` the caller has already ruled out a zero divisor.
pub open spec fn binop_val(op: u16, a: u16, b: u16) -> u16 {
    if op == 4 {
        if a == b { 1u16 } else { 0u16 }
    } else if op == 5 {
        if a > b { 1u16 } else { 0u16 }
    } else if op == 9 {
        add_val(a, b)
    } else if op == 10 {
        mul_val(a, b)
    } else if op == 11 {
        (a % b) as u16
    } else if op == 12 {
        a & b
    } else {
        a | b
    }
}

/// `set` (1) and `not` (14): destination register, then one source value.
pub open spec fn unary_spec(pre: VmView, op: u16) -> (VmView, Result<StepEvent, VmError>) {
    if pre.pc + 2 >= 32768 {
        fault(pre, VmError::OutOfBoundsAddress(32768))
    } else {
        let wt = pre.mem[pre.pc + 1];
        let wv = pre.mem[pre.pc + 2];
        match write_target_spec(wt) {
            Err(e) => fault(pre, e),
            Ok(t) => match resolve_spec(pre.regs, wv) {
                None => fault(pre, VmError::InvalidOperand(wv)),
                Some(v) => {
                    let r = if op == 1 { v } else { not_val(v) };
                    (
                        VmView { regs: pre.regs.update(t as int, r), pc: pre.pc + 3, ..pre },
                        Ok(StepEvent::Running),
                    )
                },
            },
        }
    }
}

/// The seven three-operand instructions `eq`, `gt`, `add`, `mult`, `mod`,
/// `and`, `or`: destination register, then two source values.
pub open spec fn binop_spec(pre: VmView, op: u16) -> (VmView, Result<StepEvent, VmError>) {
    if pre.pc + 3 >= 32768 {
        fault(pre, VmError::OutOfBoundsAddress(32768))
    } else {
        let wt = pre.mem[pre.pc + 1];
        let wa = pre.mem[pre.pc + 2];
        let wb = pre.mem[pre.pc + 3];
        match write_target_spec(wt) {
            Err(e) => fault(pre, e),
            Ok(t) => match resolve_spec(pre.regs, wa) {
                None => fault(pre, VmError::InvalidOperand(wa)),
                Some(a) => match resolve_spec(pre.regs, wb) {
                    None => fault(pre, VmError::InvalidOperand(wb)),
                    Some(b) => {
                        if op == 11 && b == 0 {
                            fault(pre, VmError::DivisionByZero)
                        } else {
                            (
                                VmView {
                                    regs: pre.regs.update(t as int, binop_val(op, a, b)),
                                    pc: pre.pc + 4,
                                    ..pre
                                },
                                Ok(StepEvent::Running),
                            )
                        }
                    },
                },
            },
        }
    }
}

/// `push` (2): one source value, pushed on the stack.
pub open spec fn push_spec(pre: VmView) -> (VmView, Result<StepEvent, VmError>) {
    if pre.pc + 1 >= 32768 {
        fault(pre, VmError::OutOfBoundsAddress(32768))
    } else {
        let wv = pre.mem[pre.pc + 1];
        match resolve_spec(pre.regs, wv) {
            None => fault(pre, VmError::InvalidOperand(wv)),
            Some(v) => (
                VmView { stack: pre.stack.push(v), pc: pre.pc + 2, ..pre },
                Ok(StepEvent::Running),
            ),
        }
    }
}

/// `out` (19): one source value, handed out for character emission.
pub open spec fn out_spec(pre: VmView) -> (VmView, Result<StepEvent, VmError>) {
    if pre.pc + 1 >= 32768 {
        fault(pre, VmError::OutOfBoundsAddress(32768))
    } else {
        let wv = pre.mem[pre.pc + 1];
        match resolve_spec(pre.regs, wv) {
            None => fault(pre, VmError::InvalidOperand(wv)),
            Some(v) => (VmView { pc: pre.pc + 2, ..pre }, Ok(StepEvent::Output(v))),
        }
    }
}

/// `pop` (3): destination register receives the top of the stack; an
/// empty stack is a fatal underflow.
pub open spec fn pop_spec(pre: VmView) -> (VmView, Result<StepEvent, VmError>) {
    if pre.pc + 1 >= 32768 {
        fault(pre, VmError::OutOfBoundsAddress(32768))
    } else {
        match write_target_spec(pre.mem[pre.pc + 1]) {
            Err(e) => fault(pre, e),
            Ok(t) => {
                if pre.stack.len() == 0 {
                    fault(pre, VmError::StackUnderflow)
                } else {
                    (
                        VmView {
                            regs: pre.regs.update(t as int, pre.stack.last()),
                            stack: pre.stack.drop_last(),
                            pc: pre.pc + 2,
                            ..pre
                        },
                        Ok(StepEvent::Running),
                    )
                }
            },
        }
    }
}

/// `in` (20): destination register is recorded; the machine then awaits
/// one input byte.
pub open spec fn in_spec(pre: VmView) -> (VmView, Result<StepEvent, VmError>) {
    if pre.pc + 1 >= 32768 {
        fault(pre, VmError::OutOfBoundsAddress(32768))
    } else {
        match write_target_spec(pre.mem[pre.pc + 1]) {
            Err(e) => fault(pre, e),
            Ok(t) => (
                VmView { pending: Some(t), pc: pre.pc + 2, ..pre },
                Ok(StepEvent::NeedInput),
            ),
        }
    }
}

/// `jmp` (6) and `call` (17): one source value, the new program counter;
/// `call` first pushes the address of the following instruction.
pub open spec fn jump_spec(pre: VmView, op: u16) -> (VmView, Result<StepEvent, VmError>) {
    if pre.pc + 1 >= 32768 {
        fault(pre, VmError::OutOfBoundsAddress(32768))
    } else {
        let wv = pre.mem[pre.pc + 1];
        match resolve_spec(pre.regs, wv) {
            None => fault(pre, VmError::InvalidOperand(wv)),
            Some(t) => {
                if op == 17 {
                    (
                        VmView {
                            stack: pre.stack.push((pre.pc + 2) as u16),
                            pc: t as int,
                            ..pre
                        },
                        Ok(StepEvent::Running),
                    )
                } else {
                    (VmView { pc: t as int, ..pre }, Ok(StepEvent::Running))
                }
            },
        }
    }
}

/// `jt` (7) and `jf` (8): a condition value and a target value, both
/// resolved; the jump is taken when the condition is nonzero (`jt`) or
/// zero (`jf`).
pub open spec fn condjump_spec(pre: VmView, op: u16) -> (VmView, Result<StepEvent, VmError>) {
    if pre.pc + 2 >= 32768 {
        fault(pre, VmError::OutOfBoundsAddress(32768))
    } else {
        let wc = pre.mem[pre.pc + 1];
        let wa = pre.mem[pre.pc + 2];
        match resolve_spec(pre.regs, wc) {
            None => fault(pre, VmError::InvalidOperand(wc)),
            Some(c) => match resolve_spec(pre.regs, wa) {
                None => fault(pre, VmError::InvalidOperand(wa)),
                Some(t) => {
                    let taken = if op == 7 { c != 0 } else { c == 0 };
                    if taken {
                        (VmView { pc: t as int, ..pre }, Ok(StepEvent::Running))
                    } else {
                        (VmView { pc: pre.pc + 3, ..pre }, Ok(StepEvent::Running))
                    }
                },
            },
        }
    }
}

/// `rmem` (15): destination register receives the cell at the resolved
/// source address; an address past the last cell is fatal.
pub open spec fn rmem_spec(pre: VmView) -> (VmView, Result<StepEvent, VmError>) {
    if pre.pc + 2 >= 32768 {
        fault(pre, VmError::OutOfBoundsAddress(32768))
    } else {
        let wt = pre.mem[pre.pc + 1];
        let ws = pre.mem[pre.pc + 2];
        match write_target_spec(wt) {
            Err(e) => fault(pre, e),
            Ok(t) => match resolve_spec(pre.regs, ws) {
                None => fault(pre, VmError::InvalidOperand(ws)),
                Some(s) => {
                    if s >= 32768 {
                        fault(pre, VmError::OutOfBoundsAddress(s))
                    } else {
                        (
                            VmView {
                                regs: pre.regs.update(t as int, pre.mem[s as int]),
                                pc: pre.pc + 3,
                                ..pre
                            },
                            Ok(StepEvent::Running),
                        )
                    }
                },
            },
        }
    }
}

/// `wmem` (16): the cell at the first resolved value receives the second
/// resolved value; an address past the last cell is fatal.
pub open spec fn wmem_spec(pre: VmView) -> (VmView, Result<StepEvent, VmError>) {
    if pre.pc + 2 >= 32768 {
        fault(pre, VmError::OutOfBoundsAddress(32768))
    } else {
        let wa = pre.mem[pre.pc + 1];
        let ws = pre.mem[pre.pc + 2];
        match resolve_spec(pre.regs, wa) {
            None => fault(pre, VmError::InvalidOperand(wa)),
            Some(a) => match resolve_spec(pre.regs, ws) {
                None => fault(pre, VmError::InvalidOperand(ws)),
                Some(v) => {
                    if a >= 32768 {
                        fault(pre, VmError::OutOfBoundsAddress(a))
                    } else {
                        (
                            VmView { mem: pre.mem.update(a as int, v), pc: pre.pc + 3, ..pre },
                            Ok(StepEvent::Running),
                        )
                    }
                },
            },
        }
    }
}

/// `ret` (18): the popped return address becomes the program counter; an
/// empty stack is the clean "no caller to return to" stop, not an error.
pub open spec fn ret_spec(pre: VmView) -> (VmView, Result<StepEvent, VmError>) {
    if pre.stack.len() == 0 {
        (VmView { halted: true, ..pre }, Ok(StepEvent::Halted))
    } else {
        (
            VmView { pc: pre.stack.last() as int, stack: pre.stack.drop_last(), ..pre },
            Ok(StepEvent::Running),
        )
    }
}

/// The armed bypass at the fixed address: register 0 is forced to the
/// fixed result, the popped return address becomes the program counter,
/// and the instruction actually stored there is never executed. On an
/// empty stack the machine halts instead, register 0 still forced.
pub open spec fn bypass_spec(pre: VmView) -> (VmView, Result<StepEvent, VmError>) {
    let regs = pre.regs.update(0, BYPASS_RESULT);
    if pre.stack.len() == 0 {
        (VmView { regs, halted: true, ..pre }, Ok(StepEvent::Bypassed))
    } else {
        (
            VmView { regs, pc: pre.stack.last() as int, stack: pre.stack.drop_last(), ..pre },
            Ok(StepEvent::Bypassed),
        )
    }
}

/// One step of the machine: what `step` does to the state and returns, as
/// a function of the state before the step.
pub open spec fn step_spec(pre: VmView) -> (VmView, Result<StepEvent, VmError>) {
    if pre.halted {
        (pre, Ok(StepEvent::Halted))
    } else if pre.pending is Some {
        (pre, Ok(StepEvent::NeedInput))
    } else if pre.bypass && pre.pc == BYPASS_PC as int {
        bypass_spec(pre)
    } else if pre.pc >= 32768 {
        fault(pre, VmError::OutOfBoundsAddress(pre.pc as u16))
    } else {
        let op = pre.mem[pre.pc];
        if op == 0 {
            (VmView { halted: true, ..pre }, Ok(StepEvent::Halted))
        } else if op == 21 {
            (VmView { pc: pre.pc + 1, ..pre }, Ok(StepEvent::Running))
        } else if op == 18 {
            ret_spec(pre)
        } else if op == 1 || op == 14 {
            unary_spec(pre, op)
        } else if op == 2 {
            push_spec(pre)
        } else if op == 19 {
            out_spec(pre)
        } else if op == 3 {
            pop_spec(pre)
        } else if op == 20 {
            in_spec(pre)
        } else if op == 6 || op == 17 {
            jump_spec(pre, op)
        } else if op == 7 || op == 8 {
            condjump_spec(pre, op)
        } else if op == 15 {
            rmem_spec(pre)
        } else if op == 16 {
            wmem_spec(pre)
        } else if 4 <= op <= 13 {
            binop_spec(pre, op)
        } else {
            fault(pre, VmError::UnhandledOpcode(op))
        }
    }
}

/// One input byte handed to the pending `in` instruction: the trace
/// command toggles the trace flag, the bypass command arms the bypass and
/// presets register 7, and any other byte is stored in the recorded
/// destination register, completing the instruction.
pub open spec fn feed_spec(pre: VmView, byte: u8) -> (VmView, InputResponse) {
    if byte == CMD_TRACE {
        (VmView { trace: !pre.trace, ..pre }, InputResponse::TraceToggled(!pre.trace))
    } else if byte == CMD_BYPASS {
        (
            VmView { bypass: true, regs: pre.regs.update(7, BYPASS_R7_PRESET), ..pre },
            InputResponse::BypassArmed,
        )
    } else {
        (
            VmView {
                regs: pre.regs.update(pre.pending->0 as int, byte as u16),
                pending: None,
                ..pre
            },
            InputResponse::Stored,
        )
    }
}

/// Number of operand words that follow the opcode word `op`.
pub fn operand_count_of(op: u16) -> (n: usize)
    ensures
        n == operand_count(op),
{
    match op {
        0 | 18 | 21 => 0,
        2 | 3 | 6 | 17 | 19 | 20 => 1,
        1 | 7 | 8 | 14 | 15 | 16 => 2,
        4 | 5 | 9 | 10 | 11 | 12 | 13 => 3,
        _ => 0,
    }
}

/// Law of `call` and `ret`: a `call` whose operand resolves pushes
/// exactly one value — the address of the instruction after the `call` —
/// and sets the program counter to the resolved operand; a `ret` met
/// next, with the stack as the `call` left it, pops that value and
/// restores the program counter to it, leaving the stack as it stood
/// before the `call`.
pub proof fn lemma_call_then_ret(pre: VmView)
    requires
        view_wf(pre),
        !pre.halted,
        pre.pending is None,
        !(pre.bypass && pre.pc == BYPASS_PC as int),
        pre.pc + 1 < 32768,
        pre.mem[pre.pc] == 17,
        resolve_spec(pre.regs, pre.mem[pre.pc + 1]) is Some,
    ensures
        step_spec(pre).1 == Ok::<StepEvent, VmError>(StepEvent::Running),
        step_spec(pre).0.stack == pre.stack.push((pre.pc + 2) as u16),
        step_spec(pre).0.pc == resolve_spec(pre.regs, pre.mem[pre.pc + 1])->0 as int,
        step_spec(pre).0.regs == pre.regs,
        step_spec(pre).0.mem == pre.mem,
        !step_spec(pre).0.halted,
        ({
            let mid = step_spec(pre).0;
            (0 <= mid.pc < 32768 && mid.mem[mid.pc] == 18 && !(mid.bypass && mid.pc
                == BYPASS_PC as int)) ==> step_spec(mid).1 == Ok::<StepEvent, VmError>(
                StepEvent::Running,
            ) && step_spec(mid).0.pc == pre.pc + 2 && step_spec(mid).0.stack == pre.stack
        }),
{
    assert(pre.stack.push((pre.pc + 2) as u16).drop_last() =~= pre.stack);
}

/// Law of `ret` on an empty stack: the machine halts cleanly — the step
/// reports `Halted`, not an error — and nothing but the halt flag
/// changes.
pub proof fn lemma_ret_empty_stack_halts(pre: VmView)
    requires
        view_wf(pre),
        !pre.halted,
        pre.pending is None,
        !(pre.bypass && pre.pc == BYPASS_PC as int),
        0 <= pre.pc < 32768,
        pre.mem[pre.pc] == 18,
        pre.stack.len() == 0,
    ensures
        step_spec(pre).1 == Ok::<StepEvent, VmError>(StepEvent::Halted),
        step_spec(pre).0 == (VmView { halted: true, ..pre }),
{
}

/// Law of an unknown opcode: a step whose opcode word lies outside 0..=21
/// fails with `UnhandledOpcode` carrying that word, and leaves registers,
/// memory, stack and program counter exactly as they stood just before
/// the fetch; only the halt flag is set.
pub proof fn lemma_unhandled_opcode(pre: VmView)
    requires
        view_wf(pre),
        !pre.halted,
        pre.pending is None,
        !(pre.bypass && pre.pc == BYPASS_PC as int),
        0 <= pre.pc < 32768,
        pre.mem[pre.pc] > 21,
    ensures
        step_spec(pre).1 == Err::<StepEvent, VmError>(VmError::UnhandledOpcode(pre.mem[pre.pc])),
        step_spec(pre).0.regs == pre.regs,
        step_spec(pre).0.mem == pre.mem,
        step_spec(pre).0.stack == pre.stack,
        step_spec(pre).0.pc == pre.pc,
        step_spec(pre).0.halted,
{
}

/// The machine: memory, registers, stack, program counter, halt flag, the
/// two run-mode flags, and the destination of an `in` instruction that
/// still awaits its byte.
pub struct Vm {
    mem: Vec<u16>,
    regs: Vec<u16>,
    stack: Stack,
    pc: usize,
    halted: bool,
    trace: bool,
    bypass: bool,
    pending: Option<u16>,
}

impl View for Vm {
    type V = VmView;

    closed spec fn view(&self) -> VmView {
        VmView {
            mem: self.mem@,
            regs: self.regs@,
            stack: self.stack@,
            pc: self.pc as int,
            halted: self.halted,
            trace: self.trace,
            bypass: self.bypass,
            pending: self.pending,
        }
    }
}

impl Vm {
    /// Well-formedness of the machine, preserved by every operation.
    pub open spec fn wf(&self) -> bool {
        view_wf(self@)
    }

    /// A fresh machine: the program image in memory from address 0 with
    /// the rest of memory zero, all registers zero, an empty stack, the
    /// program counter at 0, and every flag off.
    pub fn new(program: &Vec<u16>) -> (vm: Vm)
        requires
            program@.len() <= 32768,
        ensures
            vm.wf(),
            vm@.mem.len() == 32768,
            forall|i: int| 0 <= i < program@.len() ==> vm@.mem[i] == program@[i],
            forall|i: int| program@.len() <= i < 32768 ==> vm@.mem[i] == 0,
            vm@.regs.len() == 8,
            forall|i: int| 0 <= i < 8 ==> vm@.regs[i] == 0,
            vm@.stack.len() == 0,
            vm@.pc == 0,
            !vm@.halted,
            !vm@.trace,
            !vm@.bypass,
            vm@.pending is None,
    {
        let mut mem: Vec<u16> = Vec::new();
        let mut i: usize = 0;
        while i < program.len()
            invariant
                i <= program@.len() <= 32768,
                mem@.len() == i,
                forall|j: int| 0 <= j < i ==> mem@[j] == program@[j],
            decreases program@.len() - i,
        {
            mem.push(program[i]);
            i += 1;
        }
        while mem.len() < 32768
            invariant
                program@.len() <= mem@.len() <= 32768,
                forall|j: int| 0 <= j < program@.len() ==> mem@[j] == program@[j],
                forall|j: int| program@.len() <= j < mem@.len() ==> mem@[j] == 0,
            decreases 32768 - mem@.len(),
        {
            mem.push(0);
        }
        let mut regs: Vec<u16> = Vec::new();
        let mut k: usize = 0;
        while k < 8
            invariant
                k <= 8,
                regs@.len() == k,
                forall|j: int| 0 <= j < k ==> regs@[j] == 0,
            decreases 8 - k,
        {
            regs.push(0);
            k += 1;
        }
        Vm {
            mem,
            regs,
            stack: Stack::new(),
            pc: 0,
            halted: false,
            trace: false,
            bypass: false,
            pending: None,
        }
    }

    /// Current program counter.
    pub fn pc(&self) -> (r: usize)
        ensures
            r == self@.pc,
    {
        self.pc
    }

    /// Whether the machine has stopped for good.
    pub fn halted(&self) -> (r: bool)
        ensures
            r == self@.halted,
    {
        self.halted
    }

    /// Whether per-instruction tracing is on.
    pub fn trace_enabled(&self) -> (r: bool)
        ensures
            r == self@.trace,
    {
        self.trace
    }

    /// Whether the execution bypass is armed.
    pub fn bypass_armed(&self) -> (r: bool)
        ensures
            r == self@.bypass,
    {
        self.bypass
    }

    /// Whether an `in` instruction awaits a byte from `feed_input`.
    pub fn awaiting_input(&self) -> (r: bool)
        ensures
            r == (self@.pending is Some),
    {
        self.pending.is_some()
    }

    /// Current value of register `i`.
    pub fn reg(&self, i: usize) -> (r: u16)
        requires
            self.wf(),
            i < 8,
        ensures
            r == self@.regs[i as int],
    {
        self.regs[i]
    }

    /// Current value of the memory cell at `addr`.
    pub fn mem_at(&self, addr: usize) -> (r: u16)
        requires
            self.wf(),
            addr < 32768,
        ensures
            r == self@.mem[addr as int],
    {
        self.mem[addr]
    }

    /// Current depth of the stack.
    pub fn stack_depth(&self) -> (r: usize)
        ensures
            r == self@.stack.len(),
    {
        self.stack.len()
    }

    /// Opcode word and operand words of the instruction at the current
    /// program counter, read without advancing it, for diagnostic
    /// display; nothing if the opcode or an operand would lie past the
    /// last cell.
    pub fn peek_instruction(&self) -> (r: Option<(u16, Vec<u16>)>)
        requires
            self.wf(),
        ensures
            r is Some <==> (self@.pc < 32768 && self@.pc + operand_count(self@.mem[self@.pc])
                < 32768),
            r matches Some(d) ==> d.0 == self@.mem[self@.pc],
            r matches Some(d) ==> d.1@.len() == operand_count(self@.mem[self@.pc]),
            r matches Some(d) ==> forall|i: int|
                0 <= i < d.1@.len() ==> d.1@[i] == self@.mem[self@.pc + 1 + i],
    {
        if self.pc >= 32768 {
            return None;
        }
        let op = self.mem[self.pc];
        let n = operand_count_of(op);
        if self.pc + n >= 32768 {
            return None;
        }
        let mut ops: Vec<u16> = Vec::new();
        let mut i: usize = 0;
        while i < n
            invariant
                self.wf(),
                self@.pc < 32768,
                op == self@.mem[self@.pc],
                n == operand_count(op),
                self@.pc + n < 32768,
                i <= n,
                ops@.len() == i,
                forall|j: int| 0 <= j < i ==> ops@[j] == self@.mem[self@.pc + 1 + j],
            decreases n - i,
        {
            ops.push(self.mem[self.pc + 1 + i]);
            i += 1;
        }
        Some((op, ops))
    }

    /// Resolves the operand word `w` against the current register file,
    /// without mutating anything: a literal yields itself, a register
    /// reference the register's current value, and any word of 32776 or
    /// more fails with `InvalidOperand`.
    pub fn resolve_operand(&self, w: u16) -> (r: Result<u16, VmError>)
        requires
            self.wf(),
        ensures
            w < 32768 ==> r == Ok::<u16, VmError>(w),
            32768 <= w < 32776 ==> r == Ok::<u16, VmError>(self@.regs[w - 32768]),
            w >= 32776 ==> r == Err::<u16, VmError>(VmError::InvalidOperand(w)),
    {
        resolve_word(&self.regs, w)
    }

    /// One fetch-decode-execute step, exactly as `step_spec` says: on a
    /// halted machine it reports the halt and changes nothing; with an
    /// input byte pending it asks for the byte again; with the bypass
    /// armed at the fixed address it short-circuits; otherwise it fetches
    /// the opcode at the program counter, decodes the operands per their
    /// roles, and executes. Any fatal error leaves every component as it
    /// stood before the fetch and sets the halt flag.
    pub fn step(&mut self) -> (r: Result<StepEvent, VmError>)
        requires
            old(self).wf(),
        ensures
            final(self).wf(),
            final(self)@ == step_spec(old(self)@).0,
            r == step_spec(old(self)@).1,
    {
        if self.halted {
            return Ok(StepEvent::Halted);
        }
        if self.pending.is_some() {
            return Ok(StepEvent::NeedInput);
        }
        if self.bypass && self.pc == BYPASS_PC as usize {
            return self.do_bypass();
        }
        if self.pc >= 32768 {
            self.halted = true;
            return Err(VmError::OutOfBoundsAddress(self.pc as u16));
        }
        let op = self.mem[self.pc];
        match op {
            0 => {
                self.halted = true;
                Ok(StepEvent::Halted)
            },
            21 => {
                self.pc = self.pc + 1;
                Ok(StepEvent::Running)
            },
            18 => self.do_ret(),
            1 | 14 => self.do_unary(op),
            2 => self.do_push(),
            19 => self.do_out(),
            3 => self.do_pop(),
            20 => self.do_in(),
            6 | 17 => self.do_jump(op),
            7 | 8 => self.do_condjump(op),
            15 => self.do_rmem(),
            16 => self.do_wmem(),
            4 | 5 | 9 | 10 | 11 | 12 | 13 => self.do_binop(op),
            _ => {
                self.halted = true;
                Err(VmError::UnhandledOpcode(op))
            },
        }
    }

    /// Hands one input byte to the pending `in` instruction, exactly as
    /// `feed_spec` says.
    pub fn feed_input(&mut self, byte: u8) -> (r: InputResponse)
        requires
            old(self).wf(),
            old(self)@.pending is Some,
        ensures
            final(self).wf(),
            final(self)@ == feed_spec(old(self)@, byte).0,
            r == feed_spec(old(self)@, byte).1,
    {
        if byte == CMD_TRACE {
            self.trace = !self.trace;
            InputResponse::TraceToggled(self.trace)
        } else if byte == CMD_BYPASS {
            self.bypass = true;
            self.regs.set(7, BYPASS_R7_PRESET);
            InputResponse::BypassArmed
        } else {
            let t = self.pending.unwrap();
            self.pending = None;
            self.regs.set(t as usize, byte as u16);
            InputResponse::Stored
        }
    }

    fn do_bypass(&mut self) -> (r: Result<StepEvent, VmError>)
        requires
            old(self).wf(),
            !old(self)@.halted,
            old(self)@.pending is None,
            old(self)@.bypass,
            old(self)@.pc == BYPASS_PC as int,
        ensures
            final(self).wf(),
            final(self)@ == bypass_spec(old(self)@).0,
            r == bypass_spec(old(self)@).1,
    {
        self.regs.set(0, BYPASS_RESULT);
        match self.stack.pop() {
            None => {
                self.halted = true;
                Ok(StepEvent::Bypassed)
            },
            Some(ra) => {
                self.pc = ra as usize;
                Ok(StepEvent::Bypassed)
            },
        }
    }

    fn do_ret(&mut self) -> (r: Result<StepEvent, VmError>)
        requires
            old(self).wf(),
            !old(self)@.halted,
        ensures
            final(self).wf(),
            final(self)@ == ret_spec(old(self)@).0,
            r == ret_spec(old(self)@).1,
    {
        match self.stack.pop() {
            None => {
                self.halted = true;
                Ok(StepEvent::Halted)
            },
            Some(ra) => {
                self.pc = ra as usize;
                Ok(StepEvent::Running)
            },
        }
    }

    fn do_unary(&mut self, op: u16) -> (r: Result<StepEvent, VmError>)
        requires
            old(self).wf(),
            old(self)@.pc < 32768,
            op == 1 || op == 14,
        ensures
            final(self).wf(),
            final(self)@ == unary_spec(old(self)@, op).0,
            r == unary_spec(old(self)@, op).1,
    {
        let pc = self.pc;
        if pc + 2 >= 32768 {
            self.halted = true;
            return Err(VmError::OutOfBoundsAddress(32768));
        }
        let wt = self.mem[pc + 1];
        let wv = self.mem[pc + 2];
        let t = match write_target(wt) {
            Ok(t) => t,
            Err(e) => {
                self.halted = true;
                return Err(e);
            },
        };
        let v = match resolve_word(&self.regs, wv) {
            Ok(v) => v,
            Err(e) => {
                self.halted = true;
                return Err(e);
            },
        };
        let result = if op == 1 { v } else { not_cell(v) };
        self.regs.set(t as usize, result);
        self.pc = pc + 3;
        Ok(StepEvent::Running)
    }

    fn do_binop(&mut self, op: u16) -> (r: Result<StepEvent, VmError>)
        requires
            old(self).wf(),
            old(self)@.pc < 32768,
            op == 4 || op == 5 || op == 9 || op == 10 || op == 11 || op == 12 || op == 13,
        ensures
            final(self).wf(),
            final(self)@ == binop_spec(old(self)@, op).0,
            r == binop_spec(old(self)@, op).1,
    {
        let pc = self.pc;
        if pc + 3 >= 32768 {
            self.halted = true;
            return Err(VmError::OutOfBoundsAddress(32768));
        }
        let wt = self.mem[pc + 1];
        let wa = self.mem[pc + 2];
        let wb = self.mem[pc + 3];
        let t = match write_target(wt) {
            Ok(t) => t,
            Err(e) => {
                self.halted = true;
                return Err(e);
            },
        };
        let a = match resolve_word(&self.regs, wa) {
            Ok(a) => a,
            Err(e) => {
                self.halted = true;
                return Err(e);
            },
        };
        let b = match resolve_word(&self.regs, wb) {
            Ok(b) => b,
            Err(e) => {
                self.halted = true;
                return Err(e);
            },
        };
        if op == 11 && b == 0 {
            self.halted = true;
            return Err(VmError::DivisionByZero);
        }
        let v = match op {
            4 => if a == b { 1u16 } else { 0u16 },
            5 => if a > b { 1u16 } else { 0u16 },
            9 => add_cells(a, b),
            10 => mul_cells(a, b),
            11 => a % b,
            12 => a & b,
            _ => a | b,
        };
        self.regs.set(t as usize, v);
        self.pc = pc + 4;
        Ok(StepEvent::Running)
    }

    fn do_push(&mut self) -> (r: Result<StepEvent, VmError>)
        requires
            old(self).wf(),
            old(self)@.pc < 32768,
        ensures
            final(self).wf(),
            final(self)@ == push_spec(old(self)@).0,
            r == push_spec(old(self)@).1,
    {
        let pc = self.pc;
        if pc + 1 >= 32768 {
            self.halted = true;
            return Err(VmError::OutOfBoundsAddress(32768));
        }
        let v = match resolve_word(&self.regs, self.mem[pc + 1]) {
            Ok(v) => v,
            Err(e) => {
                self.halted = true;
                return Err(e);
            },
        };
        self.stack.push(v);
        self.pc = pc + 2;
        Ok(StepEvent::Running)
    }

    fn do_out(&mut self) -> (r: Result<StepEvent, VmError>)
        requires
            old(self).wf(),
            old(self)@.pc < 32768,
        ensures
            final(self).wf(),
            final(self)@ == out_spec(old(self)@).0,
            r == out_spec(old(self)@).1,
    {
        let pc = self.pc;
        if pc + 1 >= 32768 {
            self.halted = true;
            return Err(VmError::OutOfBoundsAddress(32768));
        }
        let v = match resolve_word(&self.regs, self.mem[pc + 1]) {
            Ok(v) => v,
            Err(e) => {
                self.halted = true;
                return Err(e);
            },
        };
        self.pc = pc + 2;
        Ok(StepEvent::Output(v))
    }

    fn do_pop(&mut self) -> (r: Result<StepEvent, VmError>)
        requires
            old(self).wf(),
            old(self)@.pc < 32768,
        ensures
            final(self).wf(),
            final(self)@ == pop_spec(old(self)@).0,
            r == pop_spec(old(self)@).1,
    {
        let pc = self.pc;
        if pc + 1 >= 32768 {
            self.halted = true;
            return Err(VmError::OutOfBoundsAddress(32768));
        }
        let t = match write_target(self.mem[pc + 1]) {
            Ok(t) => t,
            Err(e) => {
                self.halted = true;
                return Err(e);
            },
        };
        match self.stack.pop() {
            None => {
                self.halted = true;
                Err(VmError::StackUnderflow)
            },
            Some(v) => {
                self.regs.set(t as usize, v);
                self.pc = pc + 2;
                Ok(StepEvent::Running)
            },
        }
    }

    fn do_in(&mut self) -> (r: Result<StepEvent, VmError>)
        requires
            old(self).wf(),
            old(self)@.pc < 32768,
        ensures
            final(self).wf(),
            final(self)@ == in_spec(old(self)@).0,
            r == in_spec(old(self)@).1,
    {
        let pc = self.pc;
        if pc + 1 >= 32768 {
            self.halted = true;
            return Err(VmError::OutOfBoundsAddress(32768));
        }
        let t = match write_target(self.mem[pc + 1]) {
            Ok(t) => t,
            Err(e) => {
                self.halted = true;
                return Err(e);
            },
        };
        self.pending = Some(t);
        self.pc = pc + 2;
        Ok(StepEvent::NeedInput)
    }

    fn do_jump(&mut self, op: u16) -> (r: Result<StepEvent, VmError>)
        requires
            old(self).wf(),
            old(self)@.pc < 32768,
            op == 6 || op == 17,
        ensures
            final(self).wf(),
            final(self)@ == jump_spec(old(self)@, op).0,
            r == jump_spec(old(self)@, op).1,
    {
        let pc = self.pc;
        if pc + 1 >= 32768 {
            self.halted = true;
            return Err(VmError::OutOfBoundsAddress(32768));
        }
        let t = match resolve_word(&self.regs, self.mem[pc + 1]) {
            Ok(t) => t,
            Err(e) => {
                self.halted = true;
                return Err(e);
            },
        };
        if op == 17 {
            self.stack.push((pc + 2) as u16);
        }
        self.pc = t as usize;
        Ok(StepEvent::Running)
    }

    fn do_condjump(&mut self, op: u16) -> (r: Result<StepEvent, VmError>)
        requires
            old(self).wf(),
            old(self)@.pc < 32768,
            op == 7 || op == 8,
        ensures
            final(self).wf(),
            final(self)@ == condjump_spec(old(self)@, op).0,
            r == condjump_spec(old(self)@, op).1,
    {
        let pc = self.pc;
        if pc + 2 >= 32768 {
            self.halted = true;
            return Err(VmError::OutOfBoundsAddress(32768));
        }
        let c = match resolve_word(&self.regs, self.mem[pc + 1]) {
            Ok(c) => c,
            Err(e) => {
                self.halted = true;
                return Err(e);
            },
        };
        let t = match resolve_word(&self.regs, self.mem[pc + 2]) {
            Ok(t) => t,
            Err(e) => {
                self.halted = true;
                return Err(e);
            },
        };
        let taken = if op == 7 { c != 0 } else { c == 0 };
        if taken {
            self.pc = t as usize;
        } else {
            self.pc = pc + 3;
        }
        Ok(StepEvent::Running)
    }

    fn do_rmem(&mut self) -> (r: Result<StepEvent, VmError>)
        requires
            old(self).wf(),
            old(self)@.pc < 32768,
        ensures
            final(self).wf(),
            final(self)@ == rmem_spec(old(self)@).0,
            r == rmem_spec(old(self)@).1,
    {
        let pc = self.pc;
        if pc + 2 >= 32768 {
            self.halted = true;
            return Err(VmError::OutOfBoundsAddress(32768));
        }
        let t = match write_target(self.mem[pc + 1]) {
            Ok(t) => t,
            Err(e) => {
                self.halted = true;
                return Err(e);
            },
        };
        let s = match resolve_word(&self.regs, self.mem[pc + 2]) {
            Ok(s) => s,
            Err(e) => {
                self.halted = true;
                return Err(e);
            },
        };
        if s >= 32768 {
            self.halted = true;
            return Err(VmError::OutOfBoundsAddress(s));
        }
        let v = self.mem[s as usize];
        self.regs.set(t as usize, v);
        self.pc = pc + 3;
        Ok(StepEvent::Running)
    }

    fn do_wmem(&mut self) -> (r: Result<StepEvent, VmError>)
        requires
            old(self).wf(),
            old(self)@.pc < 32768,
        ensures
            final(self).wf(),
            final(self)@ == wmem_spec(old(self)@).0,
            r == wmem_spec(old(self)@).1,
    {
        let pc = self.pc;
        if pc + 2 >= 32768 {
            self.halted = true;
            return Err(VmError::OutOfBoundsAddress(32768));
        }
        let a = match resolve_word(&self.regs, self.mem[pc + 1]) {
            Ok(a) => a,
            Err(e) => {
                self.halted = true;
                return Err(e);
            },
        };
        let v = match resolve_word(&self.regs, self.mem[pc + 2]) {
            Ok(v) => v,
            Err(e) => {
                self.halted = true;
                return Err(e);
            },
        };
        if a >= 32768 {
            self.halted = true;
            return Err(VmError::OutOfBoundsAddress(a));
        }
        self.mem.set(a as usize, v);
        self.pc = pc + 3;
        Ok(StepEvent::Running)
    }
}

} // verus!
