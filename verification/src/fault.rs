//! The conditions that end a run, and the observable states of a machine.

use vstd::prelude::*;

verus! {

/// A fatal condition. Execution cannot continue after one.
#[derive(Clone, Copy, Debug, PartialEq, Eq, Structural)]
pub enum Fault {
    /// A word that should name a memory cell or a register names neither.
    InvalidAddress { value: usize },
    /// The word under the cursor is no instruction.
    IllegalOpcode { opcode: u16 },
    /// `pop` found the stack empty.
    StackUnderflow,
    /// `mod` was given a zero divisor.
    DivideByZero,
    /// A program image of `len` bytes is odd in length or exceeds the memory.
    MalformedImage { len: usize },
}

/// What a machine is doing.
#[derive(Clone, Copy, Debug, PartialEq, Eq, Structural)]
pub enum Status {
    /// The machine can execute its next instruction.
    Running,
    /// The machine is suspended at a breakpoint or for want of input. It
    /// resumes with its next executed instruction.
    Paused,
    /// The program ended, by `halt` or by `ret` on an empty stack.
    Halted,
    /// The program was stopped by a fatal condition.
    Faulted(Fault),
}

impl Status {
    /// True of the two states that no instruction leaves.
    pub open spec fn is_terminal(self) -> bool {
        self is Halted || self is Faulted
    }

    /// True of a machine that can execute its next instruction.
    pub fn running(self) -> (r: bool)
        ensures
            r == (self == Status::Running),
    {
        match self {
            Status::Running => true,
            _ => false,
        }
    }

    /// True of the two states that no instruction leaves.
    pub fn terminal(self) -> (t: bool)
        ensures
            t == self.is_terminal(),
    {
        match self {
            Status::Halted | Status::Faulted(_) => true,
            Status::Running | Status::Paused => false,
        }
    }
}

} // verus!
