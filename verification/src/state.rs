//! The machine as a mathematical value, and the meaning of its instructions
//! as functions on that value.

use vstd::prelude::*;
use crate::fault::{Fault, Status};
use crate::opcode::Opcode;
use crate::word::{is_literal, is_register, register_index, wrap_add, wrap_mul, wrap_not};

verus! {

/// Everything that determines how a machine behaves.
pub struct State {
    /// The memory bank, 32768 words.
    pub mem: Seq<u16>,
    /// The eight registers.
    pub reg: Seq<u16>,
    /// The call stack, top last.
    pub stack: Seq<u16>,
    /// The address of the next instruction.
    pub cursor: int,
    /// Input words not yet consumed, oldest first.
    pub input: Seq<u16>,
    /// Characters emitted and not yet taken, oldest first.
    pub output: Seq<u8>,
    /// The address at which an unforced step pauses, if any.
    pub breakpoint: Option<int>,
    /// What the machine is doing.
    pub status: Status,
}

/// The character that `out` emits for `v`: its low eight bits.
pub open spec fn low_byte(v: u16) -> u8 {
    (v % 256) as u8
}

/// The result of a two-operand instruction on the values `x` and `y`.
/// Instructions that do not combine two values yield `y`.
pub open spec fn combine(op: Opcode, x: u16, y: u16) -> Result<u16, Fault> {
    match op {
        Opcode::Eq => Ok(if x == y { 1u16 } else { 0u16 }),
        Opcode::Gt => Ok(if x > y { 1u16 } else { 0u16 }),
        Opcode::Add => Ok(wrap_add(x as int, y as int) as u16),
        Opcode::Mult => Ok(wrap_mul(x as int, y as int) as u16),
        Opcode::Mod => if y == 0 {
            Err(Fault::DivideByZero)
        } else {
            Ok((x % y) as u16)
        },
        Opcode::And => Ok(x & y),
        Opcode::Or => Ok(x | y),
        _ => Ok(y),
    }
}

/// The word that the bytes `lo` and `hi` spell, low byte first.
pub open spec fn word_le(lo: u8, hi: u8) -> u16 {
    (lo + 256 * hi) as u16
}

/// True of a program image that a machine can load: a whole number of
/// words, no more than the memory bank holds.
pub open spec fn is_image(image: Seq<u8>) -> bool {
    image.len() % 2 == 0 && image.len() <= 2 * 32768
}

impl State {
    /// The state of a machine that has just loaded `image`: the image's
    /// words from address 0 on, zero in the rest of memory and in every
    /// register, nothing on the stack or in the queues, the cursor at 0, no
    /// breakpoint.
    pub open spec fn loaded(image: Seq<u8>) -> State {
        State {
            mem: Seq::new(
                32768,
                |i: int|
                    if 2 * i + 1 < image.len() {
                        word_le(image[2 * i], image[2 * i + 1])
                    } else {
                        0u16
                    },
            ),
            reg: Seq::new(8, |i: int| 0u16),
            stack: Seq::empty(),
            cursor: 0,
            input: Seq::empty(),
            output: Seq::empty(),
            breakpoint: None,
            status: Status::Running,
        }
    }

    /// The sizes of the memory bank and of the register file are right.
    pub open spec fn wf(self) -> bool {
        &&& self.mem.len() == 32768
        &&& self.reg.len() == 8
        &&& self.cursor >= 0
    }

    /// The value that the operand `w` stands for: itself where it is a
    /// literal, the register's content where it names a register.
    pub open spec fn read(self, w: u16) -> Result<u16, Fault> {
        if is_literal(w as int) {
            Ok(w)
        } else if is_register(w as int) {
            Ok(self.reg[register_index(w as int)])
        } else {
            Err(Fault::InvalidAddress { value: w as usize })
        }
    }

    /// The state after `value` is stored in the place that `target` names.
    /// The target is a location token: it is never read as a value.
    pub open spec fn write(self, target: u16, value: u16) -> Result<State, Fault> {
        if is_literal(target as int) {
            Ok(State { mem: self.mem.update(target as int, value), ..self })
        } else if is_register(target as int) {
            Ok(State { reg: self.reg.update(register_index(target as int), value), ..self })
        } else {
            Err(Fault::InvalidAddress { value: target as usize })
        }
    }

    /// The `k`-th word of the instruction under the cursor; the opcode is
    /// word 0.
    pub open spec fn operand(self, k: int) -> u16 {
        self.mem[self.cursor + k]
    }

    /// The state with the cursor behind the instruction `op` and the machine
    /// running.
    pub open spec fn advanced(self, op: Opcode) -> State {
        State { cursor: self.cursor + 1 + op.spec_operands(), status: Status::Running, ..self }
    }

    /// The effect of the instruction `op`, whose words lie under the cursor.
    pub open spec fn perform(self, op: Opcode) -> Result<State, Fault> {
        let a = self.operand(1);
        let b = self.operand(2);
        let c = self.operand(3);
        let next = self.advanced(op);
        match op {
            Opcode::Halt => Ok(State { status: Status::Halted, ..next }),
            Opcode::Assign => match self.read(b) {
                Ok(v) => next.write(a, v),
                Err(f) => Err(f),
            },
            Opcode::Push => match self.read(a) {
                Ok(v) => Ok(State { stack: self.stack.push(v), ..next }),
                Err(f) => Err(f),
            },
            Opcode::Pop => if self.stack.len() == 0 {
                Err(Fault::StackUnderflow)
            } else {
                State { stack: self.stack.drop_last(), ..next }.write(a, self.stack.last())
            },
            Opcode::Eq | Opcode::Gt | Opcode::Add | Opcode::Mult | Opcode::Mod | Opcode::And
            | Opcode::Or => match self.read(b) {
                Ok(x) => match self.read(c) {
                    Ok(y) => match combine(op, x, y) {
                        Ok(v) => next.write(a, v),
                        Err(f) => Err(f),
                    },
                    Err(f) => Err(f),
                },
                Err(f) => Err(f),
            },
            Opcode::Jmp => match self.read(a) {
                Ok(t) => Ok(State { cursor: t as int, ..next }),
                Err(f) => Err(f),
            },
            Opcode::Jt | Opcode::Jf => match self.read(a) {
                Ok(x) => match self.read(b) {
                    Ok(t) => if (x != 0) == (op == Opcode::Jt) {
                        Ok(State { cursor: t as int, ..next })
                    } else {
                        Ok(next)
                    },
                    Err(f) => Err(f),
                },
                Err(f) => Err(f),
            },
            Opcode::Not => match self.read(b) {
                Ok(v) => next.write(a, wrap_not(v)),
                Err(f) => Err(f),
            },
            Opcode::Rmem => match self.read(b) {
                Ok(at) => if is_literal(at as int) {
                    next.write(a, self.mem[at as int])
                } else {
                    Err(Fault::InvalidAddress { value: at as usize })
                },
                Err(f) => Err(f),
            },
            Opcode::Wmem => match self.read(a) {
                Ok(at) => match self.read(b) {
                    Ok(v) => if is_literal(at as int) {
                        Ok(State { mem: self.mem.update(at as int, v), ..next })
                    } else {
                        Err(Fault::InvalidAddress { value: at as usize })
                    },
                    Err(f) => Err(f),
                },
                Err(f) => Err(f),
            },
            Opcode::Call => match self.read(a) {
                Ok(t) => Ok(
                    State { stack: self.stack.push(next.cursor as u16), cursor: t as int, ..next },
                ),
                Err(f) => Err(f),
            },
            Opcode::Ret => if self.stack.len() == 0 {
                Ok(State { status: Status::Halted, ..next })
            } else {
                Ok(
                    State {
                        stack: self.stack.drop_last(),
                        cursor: self.stack.last() as int,
                        ..next
                    },
                )
            },
            Opcode::Out => match self.read(a) {
                Ok(v) => Ok(State { output: self.output.push(low_byte(v)), ..next }),
                Err(f) => Err(f),
            },
            Opcode::In => if self.input.len() == 0 {
                Ok(State { status: Status::Paused, ..self })
            } else {
                State { input: self.input.drop_first(), ..next }.write(a, self.input[0])
            },
            Opcode::Noop => Ok(next),
        }
    }

    /// The number of operand words that executing `op` reads. `in` reads
    /// its operand only when there is input to store.
    pub open spec fn operands_read(self, op: Opcode) -> int {
        if op == Opcode::In && self.input.len() == 0 {
            0
        } else {
            op.spec_operands()
        }
    }

    /// The effect of executing the instruction under the cursor: the new
    /// state, or the fault that stops the machine. An instruction cannot be
    /// executed where a word that it reads lies outside the memory bank.
    pub open spec fn execute(self) -> Result<State, Fault> {
        if !(0 <= self.cursor < 32768) {
            Err(Fault::InvalidAddress { value: self.cursor as usize })
        } else {
            match Opcode::spec_decode(self.mem[self.cursor] as int) {
                None => Err(Fault::IllegalOpcode { opcode: self.mem[self.cursor] }),
                Some(op) => if self.cursor + self.operands_read(op) >= 32768 {
                    Err(Fault::InvalidAddress { value: 32768 })
                } else {
                    self.perform(op)
                },
            }
        }
    }

    /// One step. A machine that has halted or faulted stays as it is. An
    /// unforced step at the breakpoint pauses without executing. Otherwise
    /// the instruction under the cursor is executed; if it faults, nothing
    /// changes but the status.
    pub open spec fn step(self, force: bool) -> State {
        if self.status.is_terminal() {
            self
        } else if !force && self.breakpoint == Some(self.cursor) {
            State { status: Status::Paused, ..self }
        } else {
            match self.execute() {
                Ok(next) => next,
                Err(f) => State { status: Status::Faulted(f), ..self },
            }
        }
    }

    /// Unforced steps while the machine is running, `limit` at most.
    pub open spec fn proceed(self, limit: nat) -> State
        decreases limit,
    {
        if limit == 0 || self.status != Status::Running {
            self
        } else {
            self.step(false).proceed((limit - 1) as nat)
        }
    }

    /// A run of at most `limit` steps: the first one forced if `force` is
    /// set, the others unforced and taken while the machine is running.
    pub open spec fn run(self, force: bool, limit: nat) -> State {
        if !force {
            self.proceed(limit)
        } else if limit == 0 {
            self
        } else {
            self.step(true).proceed((limit - 1) as nat)
        }
    }
}

/// A value written to a register is the value read back through the same
/// token, and no other register and no memory cell changes.
pub proof fn lemma_register_write_then_read(s: State, r: int, v: u16)
    requires
        s.wf(),
        0 <= r < 8,
    ensures
        s.write((32768 + r) as u16, v) is Ok,
        s.write((32768 + r) as u16, v)->Ok_0.read((32768 + r) as u16) == Ok::<u16, Fault>(v),
        s.write((32768 + r) as u16, v)->Ok_0.wf(),
        s.write((32768 + r) as u16, v)->Ok_0.mem == s.mem,
        forall|q: int|
            0 <= q < 8 && q != r ==> s.write((32768 + r) as u16, v)->Ok_0.reg[q] == s.reg[q],
{
}

/// A write succeeds exactly on a memory address or a register token, and a
/// read exactly on a literal or a register token; a literal reads as
/// itself.
pub proof fn lemma_addressing(s: State, w: u16, v: u16)
    ensures
        s.write(w, v) is Ok <==> w < 32776,
        s.read(w) is Ok <==> w < 32776,
        w < 32768 ==> s.read(w) == Ok::<u16, Fault>(w),
        w < 32768 ==> s.write(w, v)->Ok_0.reg == s.reg,
        w < 32768 && s.wf() ==> s.write(w, v)->Ok_0.mem[w as int] == v,
{
}

/// The destination of `add` is a location, never a value: where it is a
/// register token the sum goes to that register and memory stays as it
/// was, whatever the register held; where it is an address the sum goes to
/// that memory cell and the registers stay as they were. Nothing else
/// changes but the cursor, which moves behind the instruction.
pub proof fn lemma_add_destination_is_a_place(s: State, x: u16, y: u16)
    requires
        s.wf(),
        !s.status.is_terminal(),
        s.cursor + 3 < 32768,
        s.operand(0) == 9,
        s.operand(1) < 32776,
        s.read(s.operand(2)) == Ok::<u16, Fault>(x),
        s.read(s.operand(3)) == Ok::<u16, Fault>(y),
    ensures
        s.operand(1) >= 32768 ==> s.step(true) == (State {
            reg: s.reg.update(s.operand(1) - 32768, wrap_add(x as int, y as int) as u16),
            cursor: s.cursor + 4,
            status: Status::Running,
            ..s
        }),
        s.operand(1) < 32768 ==> s.step(true) == (State {
            mem: s.mem.update(s.operand(1) as int, wrap_add(x as int, y as int) as u16),
            cursor: s.cursor + 4,
            status: Status::Running,
            ..s
        }),
{
}

/// Both operands of `wmem` are values: where the first names a register,
/// the cell written is the one whose address the register holds. That cell
/// takes the value; every other cell, every register, the stack and the
/// queues stay as they were, and the cursor moves behind the instruction.
/// An address outside the memory bank faults.
pub proof fn lemma_wmem_resolves_its_address(s: State, at: u16, v: u16)
    requires
        s.wf(),
        !s.status.is_terminal(),
        s.cursor + 2 < 32768,
        s.operand(0) == 16,
        s.read(s.operand(1)) == Ok::<u16, Fault>(at),
        s.read(s.operand(2)) == Ok::<u16, Fault>(v),
    ensures
        at < 32768 ==> s.step(true) == (State {
            mem: s.mem.update(at as int, v),
            cursor: s.cursor + 3,
            status: Status::Running,
            ..s
        }),
        at < 32768 ==> s.step(true).mem[at as int] == v,
        at < 32768 ==> forall|i: int|
            0 <= i < 32768 && i != at ==> s.step(true).mem[i] == s.mem[i],
        at >= 32768 ==> s.step(true) == (State {
            status: Status::Faulted(Fault::InvalidAddress { value: at as usize }),
            ..s
        }),
{
}

/// `ret` on an empty stack ends the program: the machine halts, and does
/// not fault.
pub proof fn lemma_ret_on_empty_stack_halts(s: State)
    requires
        s.wf(),
        !s.status.is_terminal(),
        s.cursor < 32768,
        s.operand(0) == 18,
        s.stack.len() == 0,
    ensures
        s.step(true).status == Status::Halted,
        s.breakpoint != Some(s.cursor) ==> s.step(false).status == Status::Halted,
        s.step(true) == (State { status: Status::Halted, cursor: s.cursor + 1, ..s }),
{
}

/// `in` with no input queued suspends the machine where it is: it pauses,
/// with the cursor still on the instruction, and nothing else changes.
/// This holds wherever in memory the instruction stands, the last cell
/// included.
pub proof fn lemma_in_without_input_pauses(s: State)
    requires
        s.wf(),
        !s.status.is_terminal(),
        s.cursor < 32768,
        s.operand(0) == 20,
        s.input.len() == 0,
    ensures
        s.step(true) == (State { status: Status::Paused, ..s }),
{
}

/// `in` with input queued takes the oldest word, stores it in the
/// destination and leaves the machine running behind the instruction.
pub proof fn lemma_in_takes_the_oldest_input(s: State)
    requires
        s.wf(),
        !s.status.is_terminal(),
        s.cursor + 1 < 32768,
        s.operand(0) == 20,
        s.operand(1) < 32776,
        s.input.len() > 0,
    ensures
        s.step(true).input == s.input.drop_first(),
        s.step(true).status == Status::Running,
        s.step(true).cursor == s.cursor + 2,
        (State { input: s.input.drop_first(), ..s }).write(s.operand(1), s.input[0]) is Ok,
        s.step(true).mem == (State { input: s.input.drop_first(), ..s }).write(
            s.operand(1),
            s.input[0],
        )->Ok_0.mem,
        s.step(true).reg == (State { input: s.input.drop_first(), ..s }).write(
            s.operand(1),
            s.input[0],
        )->Ok_0.reg,
{
}

/// An unforced step at the breakpoint pauses and executes nothing; a
/// forced step does not look at the breakpoint at all.
pub proof fn lemma_breakpoint(s: State)
    requires
        !s.status.is_terminal(),
    ensures
        s.breakpoint == Some(s.cursor) ==> s.step(false) == (State {
            status: Status::Paused,
            ..s
        }),
        s.breakpoint != Some(s.cursor) ==> s.step(false) == s.step(true),
        s.step(true) == (State {
            breakpoint: s.breakpoint,
            ..(State { breakpoint: None, ..s }).step(true)
        }),
{
}

/// `out` emits the low eight bits of its value and changes nothing else
/// but the cursor.
pub proof fn lemma_out_emits_low_byte(s: State, v: u16)
    requires
        s.wf(),
        !s.status.is_terminal(),
        s.cursor + 1 < 32768,
        s.operand(0) == 19,
        s.read(s.operand(1)) == Ok::<u16, Fault>(v),
    ensures
        s.step(true) == (State {
            output: s.output.push(low_byte(v)),
            cursor: s.cursor + 2,
            status: Status::Running,
            ..s
        }),
        low_byte(v) == v % 256,
{
}

/// A step keeps the memory bank and the register file at their sizes, and
/// never moves a breakpoint.
pub proof fn lemma_step_keeps_shape(s: State, force: bool)
    requires
        s.wf(),
    ensures
        s.step(force).wf(),
        s.step(force).breakpoint == s.breakpoint,
{
}

/// A fault is atomic: the step that faults changes the status and nothing
/// else.
pub proof fn lemma_fault_changes_only_status(s: State, force: bool)
    requires
        !s.status.is_terminal(),
        s.step(force).status is Faulted,
    ensures
        s.step(force) == (State { status: s.step(force).status, ..s }),
{
}

/// A machine that has halted or faulted never changes again.
pub proof fn lemma_terminal_is_final(s: State, force: bool, limit: nat)
    requires
        s.status.is_terminal(),
    ensures
        s.step(force) == s,
        s.run(force, limit) == s,
{
}

/// A run keeps the memory bank and the register file at their sizes.
pub proof fn lemma_run_keeps_shape(s: State, force: bool, limit: nat)
    requires
        s.wf(),
    ensures
        s.proceed(limit).wf(),
        s.run(force, limit).wf(),
    decreases limit,
{
    if limit > 0 {
        lemma_step_keeps_shape(s, false);
        lemma_step_keeps_shape(s, true);
        lemma_run_keeps_shape(s.step(false), false, (limit - 1) as nat);
        lemma_run_keeps_shape(s.step(true), false, (limit - 1) as nat);
    }
}

/// Unforced steps may be taken in two lots: a budget of `a + b` steps ends
/// where a budget of `a` followed by a budget of `b` ends.
pub proof fn lemma_proceed_splits(s: State, a: nat, b: nat)
    ensures
        s.proceed(a + b) == s.proceed(a).proceed(b),
    decreases a,
{
    if a == 0 {
    } else if s.status != Status::Running {
        assert(s.proceed(a) == s);
        assert(s.proceed(a + b) == s);
        assert(s.proceed(b) == s);
    } else {
        lemma_proceed_splits(s.step(false), (a - 1) as nat, b);
        assert((a + b - 1) as nat == (a - 1) as nat + b);
    }
}

/// A run whose budget ran out is continued by unforced steps: a run of
/// `a + b` steps ends where a run of `a` steps, `a` not zero, followed by
/// `b` unforced steps ends.
pub proof fn lemma_run_splits(s: State, force: bool, a: nat, b: nat)
    requires
        a > 0,
    ensures
        s.run(force, a + b) == s.run(force, a).proceed(b),
{
    if force {
        lemma_proceed_splits(s.step(true), (a - 1) as nat, b);
        assert((a + b - 1) as nat == (a - 1) as nat + b);
    } else {
        lemma_proceed_splits(s, a, b);
    }
}

} // verus!
