//! The debugger: a session around one machine, with a breakpoint, forced
//! single steps, queued input and a read-only picture of the machine.

use vstd::prelude::*;
use crate::command::{Command, CommandView};
use crate::engine::Arch;
use crate::fault::{Fault, Status};
use crate::state::State;
use crate::word::MAX_VALUE;

verus! {

/// How many entries of the stack a snapshot shows.
pub const STACK_SHOWN: usize = 7;

/// How many words before the cursor a snapshot shows.
pub const WINDOW_BEFORE: usize = 5;

/// How many words from the cursor on a snapshot shows.
pub const WINDOW_AFTER: usize = 15;

/// The input word for a character: its code, cut to sixteen bits.
pub open spec fn char_word(c: char) -> u16 {
    (c as u32 % 0x1_0000) as u16
}

/// The input words for a line of text: one for each character, then one
/// for the line end.
pub open spec fn line_words(line: Seq<char>) -> Seq<u16> {
    Seq::new(line.len(), |i: int| char_word(line[i])).push(10u16)
}

/// The input words for the bytes of a file: one for each byte.
pub open spec fn byte_words(bytes: Seq<u8>) -> Seq<u16> {
    Seq::new(bytes.len(), |i: int| bytes[i] as u16)
}

/// The topmost entries of a stack, top first, `STACK_SHOWN` at most.
pub open spec fn stack_top(stack: Seq<u16>) -> Seq<u16> {
    Seq::new(
        if stack.len() < 7 {
            stack.len()
        } else {
            7
        },
        |i: int| stack[stack.len() - 1 - i],
    )
}

/// Where the memory window around `cursor` starts.
pub open spec fn window_start(cursor: int) -> int {
    if cursor >= 5 {
        cursor - 5
    } else {
        0
    }
}

/// Where the memory window around `cursor` ends.
pub open spec fn window_end(cursor: int) -> int {
    if cursor + 15 <= 32768 {
        cursor + 15
    } else {
        32768
    }
}

/// The memory window around `cursor`: the words from five before it to
/// fifteen from it on, as far as they lie inside the bank. A cursor far
/// outside the bank has an empty window.
pub open spec fn window(mem: Seq<u16>, cursor: int) -> Seq<u16> {
    if window_start(cursor) <= window_end(cursor) {
        mem.subrange(window_start(cursor), window_end(cursor))
    } else {
        Seq::empty()
    }
}

/// A picture of a machine at one moment.
#[derive(Debug, PartialEq, Eq)]
pub struct Snapshot {
    /// What the machine is doing.
    pub status: Status,
    /// True when the machine has halted or faulted.
    pub exit: bool,
    /// The address of the next instruction.
    pub cursor: usize,
    /// The eight registers.
    pub registers: Vec<u16>,
    /// The number of entries on the stack.
    pub depth: usize,
    /// The topmost entries of the stack, top first.
    pub stack: Vec<u16>,
    /// The address of the first word of `window`.
    pub window_at: usize,
    /// The memory around the cursor.
    pub window: Vec<u16>,
}

impl Snapshot {
    /// True when the snapshot shows the state `s`.
    pub open spec fn shows(&self, s: State) -> bool {
        &&& self.status == s.status
        &&& self.exit == s.status.is_terminal()
        &&& self.cursor == s.cursor
        &&& self.registers@ == s.reg
        &&& self.depth == s.stack.len()
        &&& self.stack@ == stack_top(s.stack)
        &&& self.window_at == window_start(s.cursor)
        &&& self.window@ == window(s.mem, s.cursor)
    }
}

/// What the caller is to do after a command.
#[derive(Clone, Copy, Debug, PartialEq, Eq, Structural)]
pub enum Reply {
    /// The command is carried out; ask for the next one.
    Done,
    /// End the session.
    Exit,
    /// Display a snapshot, then ask for the next command.
    Show,
    /// Queue the bytes of the file that the command names, then run.
    Read,
    /// The command cannot be carried out; nothing has changed.
    Refused,
}

/// A debugger session. `self@` is the state of its machine.
pub struct Debugger {
    machine: Arch,
}

impl View for Debugger {
    type V = State;

    closed spec fn view(&self) -> State {
        self.machine@
    }
}

impl Debugger {
    /// The machine is well formed.
    pub open spec fn wf(&self) -> bool {
        self@.wf()
    }

    /// The state after the command `cmd`, with `limit` steps at most for a
    /// command that runs the machine.
    pub open spec fn obey(s: State, cmd: CommandView, limit: nat) -> State {
        match cmd {
            CommandView::Run => s.run(true, limit),
            CommandView::Step => s.step(true),
            CommandView::Break(at) => State { breakpoint: Some(at), ..s },
            CommandView::Goto(at) => State { cursor: at, ..s },
            CommandView::Register(r, v) => if 0 <= r < 8 {
                State { reg: s.reg.update(r, v as u16), ..s }
            } else {
                s
            },
            CommandView::Text(line) => State { input: s.input + line_words(line), ..s }.run(
                true,
                limit,
            ),
            CommandView::Exit | CommandView::Show | CommandView::Read(_)
            | CommandView::Malformed => s,
        }
    }

    /// What the caller is to do after the command `cmd` in the state `s`.
    pub open spec fn reply(s: State, cmd: CommandView) -> Reply {
        match cmd {
            CommandView::Exit => Reply::Exit,
            CommandView::Show => Reply::Show,
            CommandView::Read(_) => Reply::Read,
            CommandView::Malformed => Reply::Refused,
            CommandView::Register(r, _) => if 0 <= r < 8 {
                Reply::Done
            } else {
                Reply::Refused
            },
            _ => Reply::Done,
        }
    }

    /// A session around `machine`.
    pub fn new(machine: Arch) -> (d: Debugger)
        ensures
            d@ == machine@,
    {
        Debugger { machine }
    }

    /// The machine of the session.
    pub fn machine(&self) -> (m: &Arch)
        ensures
            m@ == self@,
    {
        &self.machine
    }

    /// What the machine is doing.
    pub fn status(&self) -> (s: Status)
        ensures
            s == self@.status,
    {
        self.machine.status()
    }

    /// Executes exactly one instruction, across a breakpoint too.
    pub fn step(&mut self)
        requires
            old(self).wf(),
        ensures
            final(self).wf(),
            final(self)@ == old(self)@.step(true),
    {
        self.machine.step(true);
    }

    /// Resumes the machine until it pauses, halts or faults, or until
    /// `limit` steps are taken. The first step is forced, so that a run
    /// from a breakpoint leaves it. Returns what the machine is doing
    /// afterwards: it is still running only where the limit was reached.
    pub fn run(&mut self, limit: u64) -> (s: Status)
        requires
            old(self).wf(),
        ensures
            final(self).wf(),
            final(self)@ == old(self)@.run(true, limit as nat),
            s == final(self)@.status,
    {
        self.machine.run(true, limit);
        self.machine.status()
    }

    /// Goes on with a run that reached its limit: unforced steps while the
    /// machine is running, `limit` at most.
    pub fn proceed(&mut self, limit: u64) -> (s: Status)
        requires
            old(self).wf(),
        ensures
            final(self).wf(),
            final(self)@ == old(self)@.proceed(limit as nat),
            s == final(self)@.status,
    {
        self.machine.run(false, limit);
        self.machine.status()
    }

    /// Sets the breakpoint.
    pub fn set_breakpoint(&mut self, at: usize)
        ensures
            final(self)@ == (State { breakpoint: Some(at as int), ..old(self)@ }),
    {
        self.machine.set_breakpoint(Some(at));
    }

    /// Removes the breakpoint.
    pub fn clear_breakpoint(&mut self)
        ensures
            final(self)@ == (State { breakpoint: None, ..old(self)@ }),
    {
        self.machine.set_breakpoint(None);
    }

    /// Moves the cursor.
    pub fn goto(&mut self, at: usize)
        ensures
            final(self)@ == (State { cursor: at as int, ..old(self)@ }),
    {
        self.machine.set_cursor(at);
    }

    /// Overwrites register `r`. Nothing changes where there is no such
    /// register.
    pub fn set_register(&mut self, r: usize, value: u16) -> (res: Result<(), Fault>)
        requires
            old(self).wf(),
        ensures
            final(self).wf(),
            match res {
                Ok(()) => r < 8 && final(self)@ == (State {
                    reg: old(self)@.reg.update(r as int, value),
                    ..old(self)@
                }),
                Err(f) => r >= 8 && f == (Fault::InvalidAddress { value: r }) && final(self)@
                    == old(self)@,
            },
    {
        self.machine.set_register(r, value)
    }

    /// Appends words to the input queue.
    pub fn enqueue(&mut self, words: &[u16])
        ensures
            final(self)@ == (State { input: old(self)@.input + words@, ..old(self)@ }),
    {
        let mut i: usize = 0;
        while i < words.len()
            invariant
                i <= words@.len(),
                self@ == (State { input: old(self)@.input + words@.take(i as int), ..old(self)@ }),
            decreases words@.len() - i,
        {
            self.machine.push_input(words[i]);
            assert(words@.take(i + 1) =~= words@.take(i as int).push(words@[i as int]));
            assert(self@.input =~= old(self)@.input + words@.take(i + 1));
            i = i + 1;
        }
        assert(words@.take(i as int) =~= words@);
        assert(self@.input =~= old(self)@.input + words@);
    }

    /// Appends the bytes of a file to the input queue, one word for each.
    pub fn feed_bytes(&mut self, bytes: &[u8])
        ensures
            final(self)@ == (State { input: old(self)@.input + byte_words(bytes@), ..old(self)@ }),
    {
        let mut i: usize = 0;
        while i < bytes.len()
            invariant
                i <= bytes@.len(),
                self@ == (State {
                    input: old(self)@.input + byte_words(bytes@.take(i as int)),
                    ..old(self)@
                }),
            decreases bytes@.len() - i,
        {
            self.machine.push_input(bytes[i] as u16);
            assert(self@.input =~= old(self)@.input + byte_words(bytes@.take(i + 1)));
            i = i + 1;
        }
        assert(bytes@.take(i as int) =~= bytes@);
        assert(self@.input =~= old(self)@.input + byte_words(bytes@));
    }

    /// Appends a line of text to the input queue: one word for each
    /// character, then one for the line end.
    pub fn feed_line(&mut self, line: &str)
        ensures
            final(self)@ == (State { input: old(self)@.input + line_words(line@), ..old(self)@ }),
    {
        let chars = crate::command::chars_of(line);
        let mut i: usize = 0;
        while i < chars.len()
            invariant
                i <= chars@.len(),
                chars@ == line@,
                self@ == (State {
                    input: old(self)@.input + line_words(line@).take(i as int),
                    ..old(self)@
                }),
            decreases chars@.len() - i,
        {
            let word: u16 = (chars[i] as u32 % 0x1_0000) as u16;
            self.machine.push_input(word);
            assert(self@.input =~= old(self)@.input + line_words(line@).take(i + 1));
            i = i + 1;
        }
        self.machine.push_input(10);
        assert(self@.input =~= old(self)@.input + line_words(line@));
    }

    /// Takes the characters that the program has emitted so far.
    pub fn take_output(&mut self) -> (out: Vec<u8>)
        ensures
            out@ == old(self)@.output,
            final(self)@ == (State { output: Seq::empty(), ..old(self)@ }),
    {
        self.machine.take_output()
    }

    /// A picture of the machine: status, cursor, registers, the top of the
    /// stack and the memory around the cursor. The machine is not changed.
    pub fn snapshot(&self) -> (snap: Snapshot)
        requires
            self.wf(),
        ensures
            snap.shows(self@),
    {
        let status = self.machine.status();
        let cursor: usize = self.machine.cursor();
        let mut registers: Vec<u16> = Vec::new();
        let mut r: usize = 0;
        while r < 8
            invariant
                r <= 8,
                self.wf(),
                registers@ == self@.reg.take(r as int),
            decreases 8 - r,
        {
            match self.machine.register(r) {
                Some(v) => {
                    registers.push(v);
                },
                None => {},
            }
            assert(self@.reg.take(r + 1) =~= self@.reg.take(r as int).push(self@.reg[r as int]));
            r = r + 1;
        }
        assert(self@.reg.take(8) =~= self@.reg);
        let all = self.machine.stack();
        let depth: usize = all.len();
        let shown: usize = if depth < STACK_SHOWN {
            depth
        } else {
            STACK_SHOWN
        };
        let mut stack: Vec<u16> = Vec::new();
        let mut n: usize = 0;
        while n < shown
            invariant
                n <= shown <= depth,
                depth == all@.len(),
                stack@.len() == n,
                forall|i: int| 0 <= i < n ==> stack@[i] == all@[depth - 1 - i],
            decreases shown - n,
        {
            stack.push(all[depth - 1 - n]);
            n = n + 1;
        }
        assert(stack@ =~= stack_top(all@));
        let window_at: usize = if cursor >= WINDOW_BEFORE {
            cursor - WINDOW_BEFORE
        } else {
            0
        };
        let end: usize = if cursor <= MAX_VALUE - WINDOW_AFTER {
            cursor + WINDOW_AFTER
        } else {
            MAX_VALUE
        };
        let bank = self.machine.bank();
        let mut shown_mem: Vec<u16> = Vec::new();
        let mut at: usize = window_at;
        while at < end
            invariant
                window_at <= at,
                at <= end || (end < window_at && at == window_at),
                end <= 32768,
                bank@.len() == 32768,
                shown_mem@.len() == at - window_at,
                forall|i: int|
                    0 <= i < shown_mem@.len() ==> shown_mem@[i] == bank@[window_at + i],
            decreases end - at,
        {
            shown_mem.push(bank[at]);
            at = at + 1;
        }
        assert(shown_mem@ =~= window(self@.mem, cursor as int));
        Snapshot {
            status,
            exit: status.terminal(),
            cursor,
            registers,
            depth,
            stack,
            window_at,
            window: shown_mem,
        }
    }

    /// Carries out one command, with `limit` steps at most where it runs
    /// the machine, and says what the caller is to do next. `exit`, `show`
    /// and `read` change nothing here: they are the caller's to perform.
    pub fn obey_command(&mut self, cmd: &Command, limit: u64) -> (reply: Reply)
        requires
            old(self).wf(),
        ensures
            final(self).wf(),
            final(self)@ == Debugger::obey(old(self)@, cmd@, limit as nat),
            reply == Debugger::reply(old(self)@, cmd@),
    {
        match cmd {
            Command::Run => {
                self.machine.run(true, limit);
                Reply::Done
            },
            Command::Step => {
                self.machine.step(true);
                Reply::Done
            },
            Command::Exit => Reply::Exit,
            Command::Show => Reply::Show,
            Command::Break(at) => {
                self.machine.set_breakpoint(Some(*at));
                Reply::Done
            },
            Command::Goto(at) => {
                self.machine.set_cursor(*at);
                Reply::Done
            },
            Command::Register(r, v) => {
                match self.machine.set_register(*r, *v) {
                    Ok(()) => Reply::Done,
                    Err(_) => Reply::Refused,
                }
            },
            Command::Read(_) => Reply::Read,
            Command::Text(line) => {
                self.feed_line(line.as_str());
                self.machine.run(true, limit);
                Reply::Done
            },
            Command::Malformed => Reply::Refused,
        }
    }
}

} // verus!
