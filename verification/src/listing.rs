//! The disassembler: a linear walk over a buffer of words that decodes
//! what it can and passes over the rest as data. It executes nothing and
//! never fails.

use vstd::prelude::*;
use crate::fault::{Fault, Status};
use crate::opcode::Opcode;
use crate::state::State;

verus! {

/// An operand word as a listing shows it.
#[derive(Clone, Copy, Debug, PartialEq, Eq, Structural)]
pub enum Operand {
    /// A word below 32768: a literal value or a memory address.
    Literal(u16),
    /// A word from 32768 on, given by its distance from 32768. Distances
    /// below 8 are the registers.
    Register(u16),
}

/// One decoded instruction.
#[derive(Debug, PartialEq, Eq)]
pub struct Line {
    /// Where the instruction starts.
    pub address: usize,
    /// The instruction.
    pub opcode: Opcode,
    /// Its operands, in program order.
    pub operands: Vec<Operand>,
}

/// A decoded instruction as a mathematical value.
pub struct LineView {
    pub address: int,
    pub opcode: Opcode,
    pub operands: Seq<Operand>,
}

impl View for Line {
    type V = LineView;

    open spec fn view(&self) -> LineView {
        LineView {
            address: self.address as int,
            opcode: self.opcode,
            operands: self.operands@,
        }
    }
}

/// How the operand word `w` is shown.
pub open spec fn operand_of(w: u16) -> Operand {
    if w < 32768 {
        Operand::Literal(w)
    } else {
        Operand::Register((w - 32768) as u16)
    }
}

/// The instruction that starts at `at`, if the word there names one and
/// all its operands lie inside the buffer.
pub open spec fn decodes_at(mem: Seq<u16>, at: int) -> Option<Opcode> {
    if 0 <= at < mem.len() {
        match Opcode::spec_decode(mem[at] as int) {
            Some(op) => if at + op.spec_operands() < mem.len() {
                Some(op)
            } else {
                None
            },
            None => None,
        }
    } else {
        None
    }
}

/// The line for the instruction `op` that starts at `at`.
pub open spec fn line_at(mem: Seq<u16>, at: int, op: Opcode) -> LineView {
    LineView {
        address: at,
        opcode: op,
        operands: Seq::new(op.spec_operands() as nat, |k: int| operand_of(mem[at + 1 + k])),
    }
}

/// The lines of the walk that starts at `at`: an instruction gives a line
/// and the walk goes on behind its operands; any other word is passed over.
pub open spec fn listing_from(mem: Seq<u16>, at: int) -> Seq<LineView>
    decreases mem.len() - at,
{
    if at < 0 || at >= mem.len() {
        Seq::empty()
    } else {
        match decodes_at(mem, at) {
            Some(op) => seq![line_at(mem, at, op)] + listing_from(
                mem,
                at + 1 + op.spec_operands(),
            ),
            None => listing_from(mem, at + 1),
        }
    }
}

/// The listing of a whole buffer.
pub open spec fn listing(mem: Seq<u16>) -> Seq<LineView> {
    listing_from(mem, 0)
}

/// How the operand word `w` is shown.
pub fn operand(w: u16) -> (o: Operand)
    ensures
        o == operand_of(w),
{
    if w < 32768 {
        Operand::Literal(w)
    } else {
        Operand::Register(w - 32768)
    }
}

/// Decodes the instruction that starts at `at`. There is none where `at`
/// is outside the buffer, where the word there is no opcode, or where the
/// operands would reach beyond the buffer.
pub fn decode_at(mem: &[u16], at: usize) -> (line: Option<Line>)
    ensures
        match line {
            Some(l) => decodes_at(mem@, at as int) is Some && l@ == line_at(
                mem@,
                at as int,
                decodes_at(mem@, at as int)->Some_0,
            ),
            None => (decodes_at(mem@, at as int) is None),
        },
{
    if at >= mem.len() {
        return None;
    }
    let op = match Opcode::decode(mem[at]) {
        Some(op) => op,
        None => {
            return None;
        },
    };
    let count: usize = op.operands();
    if count >= mem.len() - at {
        return None;
    }
    let mut operands: Vec<Operand> = Vec::new();
    let mut k: usize = 0;
    while k < count
        invariant
            k <= count,
            at + count < mem@.len() <= usize::MAX,
            operands@.len() == k,
            forall|j: int| 0 <= j < k ==> operands@[j] == operand_of(mem@[at + 1 + j]),
        decreases count - k,
    {
        operands.push(operand(mem[at + 1 + k]));
        k = k + 1;
    }
    let line = Line { address: at, opcode: op, operands };
    assert(line@.operands =~= line_at(mem@, at as int, op).operands);
    Some(line)
}

/// The next line of the walk that starts at `from`, and the address at
/// which the walk goes on behind it; nothing when the walk finds no more
/// instruction. Calling it again with the address returned gives the
/// lines one by one; calling it again with `from` gives the same line.
pub fn next_line(mem: &[u16], from: usize) -> (next: Option<(Line, usize)>)
    ensures
        match next {
            Some((line, after)) => {
                &&& listing_from(mem@, from as int).len() > 0
                &&& line@ == listing_from(mem@, from as int)[0]
                &&& listing_from(mem@, after as int) == listing_from(
                    mem@,
                    from as int,
                ).drop_first()
                &&& from < after <= mem@.len()
                &&& after == line@.address + 1 + line@.operands.len()
            },
            None => listing_from(mem@, from as int).len() == 0,
        },
{
    let mut at: usize = from;
    while at < mem.len()
        invariant
            from <= at,
            listing_from(mem@, at as int) == listing_from(mem@, from as int),
        decreases mem@.len() - at,
    {
        match decode_at(mem, at) {
            Some(line) => {
                let after: usize = at + 1 + line.operands.len();
                assert(listing_from(mem@, after as int) =~= listing_from(
                    mem@,
                    at as int,
                ).drop_first());
                return Some((line, after));
            },
            None => {
                at = at + 1;
            },
        }
    }
    None
}

/// Disassembles a whole buffer. Every buffer has a listing: words that are
/// no instruction give no line.
pub fn disassemble(mem: &[u16]) -> (lines: Vec<Line>)
    ensures
        lines@.len() == listing(mem@).len(),
        forall|i: int| 0 <= i < lines@.len() ==> (#[trigger] lines@[i])@ == listing(mem@)[i],
{
    let mut lines: Vec<Line> = Vec::new();
    let mut at: usize = 0;
    loop
        invariant
            at <= mem@.len(),
            listing(mem@).len() == lines@.len() + listing_from(mem@, at as int).len(),
            forall|i: int| 0 <= i < lines@.len() ==> (#[trigger] lines@[i])@ == listing(mem@)[i],
            forall|i: int|
                0 <= i < listing_from(mem@, at as int).len() ==> listing(mem@)[lines@.len() + i]
                    == listing_from(mem@, at as int)[i],
        ensures
            lines@.len() == listing(mem@).len(),
            forall|i: int| 0 <= i < lines@.len() ==> (#[trigger] lines@[i])@ == listing(mem@)[i],
        decreases mem@.len() - at,
    {
        match next_line(mem, at) {
            Some((line, after)) => {
                lines.push(line);
                at = after;
            },
            None => {
                break ;
            },
        }
    }
    lines
}

/// The engine and the disassembler decode alike: where the listing has an
/// instruction at the cursor, the engine executes that instruction, and
/// where it has none, the engine faults. The one exception is an `in` in
/// the last cell of memory: the listing cannot show its operand, and the
/// engine, finding no input, pauses on it without reading the operand.
pub proof fn lemma_engine_decodes_as_listing(s: State)
    requires
        s.wf(),
    ensures
        decodes_at(s.mem, s.cursor) matches Some(op) ==> s.execute() == s.perform(op),
        decodes_at(s.mem, s.cursor) is None ==> {
            ||| s.execute() is Err
            ||| {
                &&& s.cursor == 32767
                &&& s.mem[s.cursor] == 20
                &&& s.input.len() == 0
                &&& s.execute() == Ok::<State, Fault>(State { status: Status::Paused, ..s })
            }
        },
{
}

/// A line starts inside the buffer, at or behind the start of the walk,
/// and holds as many operands as its instruction takes.
pub proof fn lemma_listing_lines(mem: Seq<u16>, at: int, i: int)
    requires
        0 <= at,
        0 <= i < listing_from(mem, at).len(),
    ensures
        at <= listing_from(mem, at)[i].address < mem.len(),
        decodes_at(mem, listing_from(mem, at)[i].address) == Some(listing_from(mem, at)[i].opcode),
        listing_from(mem, at)[i] == line_at(
            mem,
            listing_from(mem, at)[i].address,
            listing_from(mem, at)[i].opcode,
        ),
    decreases mem.len() - at,
{
    if at < mem.len() {
        match decodes_at(mem, at) {
            Some(op) => {
                if i > 0 {
                    lemma_listing_lines(mem, at + 1 + op.spec_operands(), i - 1);
                }
            },
            None => {
                lemma_listing_lines(mem, at + 1, i);
            },
        }
    }
}

} // verus!
