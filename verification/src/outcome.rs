//! The observable outcomes of one execution step, the fatal error kinds,
//! and the possible responses to one byte of input.

use vstd::prelude::*;

verus! {

/// A fatal condition. Every kind except an empty-stack `ret` (which is a
/// clean stop, not an error) terminates the run; none is recoverable.
#[derive(Clone, Copy, Debug, PartialEq, Eq, Structural)]
pub enum VmError {
    /// An operand word of 32776 or more was met during decoding; the word
    /// is carried for the report.
    InvalidOperand(u16),
    /// A destination operand was a literal; only register references are
    /// valid assignment targets. The word is carried for the report.
    InvalidWriteTarget(u16),
    /// An explicit `pop` found the stack empty.
    StackUnderflow,
    /// The opcode word lies outside 0..=21; the word is carried for the
    /// report.
    UnhandledOpcode(u16),
    /// An address used to fetch an instruction or to access memory exceeds
    /// 32767; the address is carried for the report.
    OutOfBoundsAddress(u16),
    /// A `mod` instruction resolved its second source operand to zero.
    DivisionByZero,
}

/// What one step of the machine asks of its surroundings.
#[derive(Clone, Copy, Debug, PartialEq, Eq, Structural)]
pub enum StepEvent {
    /// An instruction completed; execution continues.
    Running,
    /// The machine stopped cleanly: `halt`, or `ret` on an empty stack.
    Halted,
    /// An `out` instruction asks to emit this cell value as one character.
    Output(u16),
    /// An `in` instruction awaits one byte, to be handed to `feed_input`.
    NeedInput,
    /// The armed bypass intercepted the fixed address and short-circuited
    /// the step; if the stack was empty the machine also halted.
    Bypassed,
}

/// What became of one byte handed to a pending `in` instruction.
#[derive(Clone, Copy, Debug, PartialEq, Eq, Structural)]
pub enum InputResponse {
    /// The byte was stored in the destination register; the instruction is
    /// complete.
    Stored,
    /// The byte was the trace command: the trace flag was flipped to the
    /// carried value, and the instruction still awaits a byte. The rest of
    /// the input line is to be discarded.
    TraceToggled(bool),
    /// The byte was the bypass command: the bypass is armed, register 7
    /// was preset, and the instruction still awaits a byte. The rest of
    /// the input line is to be discarded.
    BypassArmed,
}

} // verus!
