//! The execution engine: memory, registers, stack and cursor, and the
//! fetch-decode-execute step over them.

use vstd::prelude::*;
use std::collections::VecDeque;
use crate::fault::{Fault, Status};
use crate::opcode::Opcode;
use crate::state::{State, combine, is_image};
use crate::word::{MAX_VALUE, REGISTERS, wrap_not};

verus! {

/// The machine. `self@` is the state that its behaviour is defined on.
pub struct Arch {
    breakpoint: Option<usize>,
    status: Status,
    cursor: usize,
    mem: Vec<u16>,
    reg: Vec<u16>,
    stack: Vec<u16>,
    stdin: VecDeque<u16>,
    stdout: Vec<u8>,
}

impl View for Arch {
    type V = State;

    closed spec fn view(&self) -> State {
        State {
            mem: self.mem@,
            reg: self.reg@,
            stack: self.stack@,
            cursor: self.cursor as int,
            input: self.stdin@,
            output: self.stdout@,
            breakpoint: match self.breakpoint {
                Some(at) => Some(at as int),
                None => None,
            },
            status: self.status,
        }
    }
}

impl Arch {
    /// The memory bank and the register file have their fixed sizes.
    pub open spec fn wf(&self) -> bool {
        self@.wf()
    }

    /// A machine with `image` loaded at address 0 and everything else zero
    /// or empty. An image of odd length, or longer than the memory bank, is
    /// refused.
    pub fn load(image: &[u8]) -> (r: Result<Arch, Fault>)
        ensures
            match r {
                Ok(arch) => is_image(image@) && arch.wf() && arch@ == State::loaded(image@),
                Err(f) => !is_image(image@) && f == (Fault::MalformedImage {
                    len: image@.len() as usize,
                }),
            },
    {
        let len: usize = image.len();
        if len % 2 != 0 || len > 2 * MAX_VALUE {
            return Err(Fault::MalformedImage { len });
        }
        let mut mem: Vec<u16> = Vec::new();
        let words: usize = len / 2;
        let mut n: usize = 0;
        while n < MAX_VALUE
            invariant
                n <= MAX_VALUE,
                len == image@.len(),
                words == len / 2,
                len % 2 == 0,
                mem@.len() == n,
                forall|i: int| 0 <= i < n ==> mem@[i] == State::loaded(image@).mem[i],
            decreases MAX_VALUE - n,
        {
            if n < words {
                let lo: u8 = image[2 * n];
                let hi: u8 = image[2 * n + 1];
                mem.push(lo as u16 + 256 * (hi as u16));
            } else {
                mem.push(0);
            }
            n = n + 1;
        }
        let mut reg: Vec<u16> = Vec::new();
        let mut r: usize = 0;
        while r < REGISTERS
            invariant
                r <= REGISTERS,
                reg@.len() == r,
                forall|i: int| 0 <= i < r ==> reg@[i] == 0,
            decreases REGISTERS - r,
        {
            reg.push(0);
            r = r + 1;
        }
        let arch = Arch {
            breakpoint: None,
            status: Status::Running,
            cursor: 0,
            mem,
            reg,
            stack: Vec::new(),
            stdin: VecDeque::new(),
            stdout: Vec::new(),
        };
        assert(arch@.mem =~= State::loaded(image@).mem);
        assert(arch@.reg =~= State::loaded(image@).reg);
        Ok(arch)
    }

    /// What the machine is doing.
    pub fn status(&self) -> (s: Status)
        ensures
            s == self@.status,
    {
        self.status
    }

    /// The address of the next instruction.
    pub fn cursor(&self) -> (at: usize)
        ensures
            at == self@.cursor,
    {
        self.cursor
    }

    /// The address at which an unforced step pauses, if one is set.
    pub fn breakpoint(&self) -> (b: Option<usize>)
        ensures
            match b {
                Some(at) => self@.breakpoint == Some(at as int),
                None => (self@.breakpoint is None),
            },
    {
        self.breakpoint
    }

    /// The content of register `r`, or nothing where there is no such
    /// register.
    pub fn register(&self, r: usize) -> (v: Option<u16>)
        requires
            self.wf(),
        ensures
            v == if r < 8 {
                Some(self@.reg[r as int])
            } else {
                None
            },
    {
        if r < REGISTERS {
            Some(self.reg[r])
        } else {
            None
        }
    }

    /// The word at memory address `at`, or nothing where the address is
    /// outside the bank.
    pub fn memory(&self, at: usize) -> (v: Option<u16>)
        requires
            self.wf(),
        ensures
            v == if at < 32768 {
                Some(self@.mem[at as int])
            } else {
                None
            },
    {
        if at < MAX_VALUE {
            Some(self.mem[at])
        } else {
            None
        }
    }

    /// The whole memory bank.
    pub fn bank(&self) -> (mem: &Vec<u16>)
        ensures
            mem@ == self@.mem,
    {
        &self.mem
    }

    /// The call stack, top last.
    pub fn stack(&self) -> (stack: &Vec<u16>)
        ensures
            stack@ == self@.stack,
    {
        &self.stack
    }

    /// The number of input words not yet consumed.
    pub fn pending(&self) -> (n: usize)
        ensures
            n == self@.input.len(),
    {
        self.stdin.len()
    }

    /// The characters emitted and not yet taken.
    pub fn output(&self) -> (out: &Vec<u8>)
        ensures
            out@ == self@.output,
    {
        &self.stdout
    }

    /// Takes the characters emitted so far, leaving none.
    pub fn take_output(&mut self) -> (out: Vec<u8>)
        ensures
            out@ == old(self)@.output,
            final(self)@ == (State { output: Seq::empty(), ..old(self)@ }),
    {
        let mut out: Vec<u8> = Vec::new();
        std::mem::swap(&mut out, &mut self.stdout);
        out
    }

    /// Sets the breakpoint, or removes it with `None`.
    pub fn set_breakpoint(&mut self, at: Option<usize>)
        ensures
            final(self)@ == (State {
                breakpoint: match at {
                    Some(a) => Some(a as int),
                    None => None,
                },
                ..old(self)@
            }),
    {
        self.breakpoint = at;
    }

    /// Moves the cursor to `at`. An address outside the memory bank is
    /// accepted here and faults when the machine next fetches.
    pub fn set_cursor(&mut self, at: usize)
        ensures
            final(self)@ == (State { cursor: at as int, ..old(self)@ }),
    {
        self.cursor = at;
    }

    /// Overwrites register `r`. Nothing changes where there is no such
    /// register.
    pub fn set_register(&mut self, r: usize, value: u16) -> (res: Result<(), Fault>)
        requires
            old(self).wf(),
        ensures
            final(self).wf(),
            match res {
                Ok(()) => r < 8 && final(self)@ == (State {
                    reg: old(self)@.reg.update(r as int, value),
                    ..old(self)@
                }),
                Err(f) => r >= 8 && f == (Fault::InvalidAddress { value: r }) && final(self)@
                    == old(self)@,
            },
    {
        if r < REGISTERS {
            self.reg.set(r, value);
            Ok(())
        } else {
            Err(Fault::InvalidAddress { value: r })
        }
    }

    /// Appends one word to the input queue.
    pub fn push_input(&mut self, word: u16)
        ensures
            final(self)@ == (State { input: old(self)@.input.push(word), ..old(self)@ }),
    {
        self.stdin.push_back(word);
    }

    /// The operand `index` as a value: itself where it is a literal, the
    /// register's content where it names a register.
    pub fn read(&self, index: u16) -> (r: Result<u16, Fault>)
        requires
            self.wf(),
        ensures
            r == self@.read(index),
    {
        let idx: usize = index as usize;
        if idx < MAX_VALUE {
            Ok(index)
        } else if idx - MAX_VALUE < REGISTERS {
            Ok(self.reg[idx - MAX_VALUE])
        } else {
            Err(Fault::InvalidAddress { value: idx })
        }
    }

    /// Stores `value` in the memory cell or register that `index` names.
    /// Nothing changes where `index` names neither.
    pub fn write(&mut self, index: u16, value: u16) -> (r: Result<(), Fault>)
        requires
            old(self).wf(),
        ensures
            final(self).wf(),
            match r {
                Ok(()) => old(self)@.write(index, value) == Ok::<State, Fault>(final(self)@),
                Err(f) => old(self)@.write(index, value) == Err::<State, Fault>(f) && final(self)@
                    == old(self)@,
            },
    {
        let idx: usize = index as usize;
        if idx < MAX_VALUE {
            self.mem.set(idx, value);
            Ok(())
        } else if idx - MAX_VALUE < REGISTERS {
            self.reg.set(idx - MAX_VALUE, value);
            Ok(())
        } else {
            Err(Fault::InvalidAddress { value: idx })
        }
    }

    /// Takes the word under the cursor and moves the cursor past it. Fails,
    /// changing nothing, where the cursor is outside the memory bank.
    pub fn next(&mut self) -> (r: Result<u16, Fault>)
        requires
            old(self).wf(),
        ensures
            final(self).wf(),
            match r {
                Ok(w) => {
                    &&& old(self)@.cursor < 32768
                    &&& w == old(self)@.operand(0)
                    &&& final(self)@ == State { cursor: old(self)@.cursor + 1, ..old(self)@ }
                },
                Err(f) => {
                    &&& old(self)@.cursor >= 32768
                    &&& f == Fault::InvalidAddress { value: old(self)@.cursor as usize }
                    &&& final(self)@ == old(self)@
                },
            },
    {
        if self.cursor < MAX_VALUE {
            let value: u16 = self.mem[self.cursor];
            self.cursor = self.cursor + 1;
            Ok(value)
        } else {
            Err(Fault::InvalidAddress { value: self.cursor })
        }
    }

    /// Takes the word under the cursor as a value operand and moves the
    /// cursor past it. Fails, changing nothing, where the cursor is outside
    /// the memory bank or the word is no operand.
    pub fn next_value(&mut self) -> (r: Result<u16, Fault>)
        requires
            old(self).wf(),
        ensures
            final(self).wf(),
            match r {
                Ok(v) => {
                    &&& old(self)@.cursor < 32768
                    &&& old(self)@.read(old(self)@.operand(0)) == Ok::<u16, Fault>(v)
                    &&& final(self)@ == State { cursor: old(self)@.cursor + 1, ..old(self)@ }
                },
                Err(f) => {
                    &&& final(self)@ == old(self)@
                    &&& if old(self)@.cursor < 32768 {
                        old(self)@.read(old(self)@.operand(0)) == Err::<u16, Fault>(f)
                    } else {
                        f == Fault::InvalidAddress { value: old(self)@.cursor as usize }
                    }
                },
            },
    {
        if self.cursor < MAX_VALUE {
            let value: u16 = self.read(self.mem[self.cursor])?;
            self.cursor = self.cursor + 1;
            Ok(value)
        } else {
            Err(Fault::InvalidAddress { value: self.cursor })
        }
    }

    /// The fifteen-bit complement of `x`.
    pub fn complement(x: u16) -> (v: u16)
        ensures
            v == wrap_not(x),
    {
        (x ^ 0x7fff) & 0x7fff
    }

    /// The result of the two-operand instruction `op` on `x` and `y`.
    pub fn compute(op: Opcode, x: u16, y: u16) -> (r: Result<u16, Fault>)
        ensures
            r == combine(op, x, y),
    {
        match op {
            Opcode::Eq => Ok(if x == y { 1 } else { 0 }),
            Opcode::Gt => Ok(if x > y { 1 } else { 0 }),
            Opcode::Add => Ok(crate::word::add(x, y)),
            Opcode::Mult => Ok(crate::word::mult(x, y)),
            Opcode::Mod => if y == 0 {
                Err(Fault::DivideByZero)
            } else {
                Ok(x % y)
            },
            Opcode::And => Ok(x & y),
            Opcode::Or => Ok(x | y),
            _ => Ok(y),
        }
    }

    /// Executes the instruction under the cursor. On a fault, memory,
    /// registers, stack and queues are as before.
    fn execute(&mut self) -> (r: Result<(), Fault>)
        requires
            old(self).wf(),
        ensures
            final(self).wf(),
            match r {
                Ok(()) => old(self)@.execute() == Ok::<State, Fault>(final(self)@),
                Err(f) => {
                    &&& old(self)@.execute() == Err::<State, Fault>(f)
                    &&& final(self)@ == State {
                        cursor: final(self)@.cursor,
                        status: final(self)@.status,
                        ..old(self)@
                    }
                },
            },
    {
        let start: usize = self.cursor;
        let word: u16 = self.next()?;
        let op = match Opcode::decode(word) {
            Some(op) => op,
            None => {
                return Err(Fault::IllegalOpcode { opcode: word });
            },
        };
        let waiting: bool = match op {
            Opcode::In => self.stdin.len() == 0,
            _ => false,
        };
        if !waiting && start + op.operands() >= MAX_VALUE {
            return Err(Fault::InvalidAddress { value: MAX_VALUE });
        }
        self.status = Status::Running;
        match op {
            Opcode::Halt => {
                self.status = Status::Halted;
            },
            Opcode::Assign => {
                let a: u16 = self.next()?;
                let b: u16 = self.next_value()?;
                self.write(a, b)?;
            },
            Opcode::Push => {
                let a: u16 = self.next_value()?;
                self.stack.push(a);
            },
            Opcode::Pop => {
                let a: u16 = self.next()?;
                if self.stack.len() == 0 {
                    return Err(Fault::StackUnderflow);
                }
                if a as usize >= MAX_VALUE + REGISTERS {
                    return Err(Fault::InvalidAddress { value: a as usize });
                }
                if let Some(value) = self.stack.pop() {
                    self.write(a, value)?;
                }
            },
            Opcode::Eq | Opcode::Gt | Opcode::Add | Opcode::Mult | Opcode::Mod | Opcode::And
            | Opcode::Or => {
                let a: u16 = self.next()?;
                let b: u16 = self.next_value()?;
                let c: u16 = self.next_value()?;
                let value: u16 = Self::compute(op, b, c)?;
                self.write(a, value)?;
            },
            Opcode::Jmp => {
                let a: u16 = self.next_value()?;
                self.cursor = a as usize;
            },
            Opcode::Jt => {
                let a: u16 = self.next_value()?;
                let b: u16 = self.next_value()?;
                if a != 0 {
                    self.cursor = b as usize;
                }
            },
            Opcode::Jf => {
                let a: u16 = self.next_value()?;
                let b: u16 = self.next_value()?;
                if a == 0 {
                    self.cursor = b as usize;
                }
            },
            Opcode::Not => {
                let a: u16 = self.next()?;
                let b: u16 = self.next_value()?;
                self.write(a, Self::complement(b))?;
            },
            Opcode::Rmem => {
                let a: u16 = self.next()?;
                let b: u16 = self.next_value()?;
                if b as usize >= MAX_VALUE {
                    return Err(Fault::InvalidAddress { value: b as usize });
                }
                let value: u16 = self.mem[b as usize];
                self.write(a, value)?;
            },
            Opcode::Wmem => {
                let a: u16 = self.next_value()?;
                let b: u16 = self.next_value()?;
                if a as usize >= MAX_VALUE {
                    return Err(Fault::InvalidAddress { value: a as usize });
                }
                self.mem.set(a as usize, b);
            },
            Opcode::Call => {
                let a: u16 = self.next_value()?;
                self.stack.push(self.cursor as u16);
                self.cursor = a as usize;
            },
            Opcode::Ret => {
                match self.stack.pop() {
                    None => {
                        self.status = Status::Halted;
                    },
                    Some(a) => {
                        self.cursor = a as usize;
                    },
                }
            },
            Opcode::Out => {
                let a: u16 = self.next_value()?;
                self.stdout.push((a % 256) as u8);
            },
            Opcode::In => {
                if self.stdin.len() > 0 {
                    let a: u16 = self.next()?;
                    if a as usize >= MAX_VALUE + REGISTERS {
                        return Err(Fault::InvalidAddress { value: a as usize });
                    }
                    if let Some(value) = self.stdin.pop_front() {
                        self.write(a, value)?;
                    }
                } else {
                    self.status = Status::Paused;
                    self.cursor = start;
                }
            },
            Opcode::Noop => {},
        }
        Ok(())
    }

    /// One step of the machine. A machine that has halted or faulted stays
    /// as it is. An unforced step at the breakpoint pauses without
    /// executing. Otherwise the instruction under the cursor is executed;
    /// a fault leaves everything but the status as it was.
    pub fn step(&mut self, force: bool)
        requires
            old(self).wf(),
        ensures
            final(self).wf(),
            final(self)@ == old(self)@.step(force),
    {
        if self.status.terminal() {
            return ;
        }
        if !force {
            if let Some(at) = self.breakpoint {
                if at == self.cursor {
                    self.status = Status::Paused;
                    return ;
                }
            }
        }
        let start: usize = self.cursor;
        match self.execute() {
            Ok(()) => {},
            Err(f) => {
                self.cursor = start;
                self.status = Status::Faulted(f);
            },
        }
    }

    /// Steps until the machine pauses, halts or faults, or until `limit`
    /// steps are taken. With `force` the first step is forced, so that a
    /// run that starts on the breakpoint leaves it. The machine is still
    /// running afterwards only where the limit was reached.
    pub fn run(&mut self, force: bool, limit: u64)
        requires
            old(self).wf(),
        ensures
            final(self).wf(),
            final(self)@ == old(self)@.run(force, limit as nat),
    {
        let mut left: u64 = limit;
        if force {
            if left == 0 {
                return ;
            }
            self.step(true);
            left = left - 1;
        }
        while left > 0 && self.status.running()
            invariant
                self.wf(),
                self@.proceed(left as nat) == old(self)@.run(force, limit as nat),
            decreases left,
        {
            self.step(false);
            left = left - 1;
        }
    }
}

} // verus!
