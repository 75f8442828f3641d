//! The instruction set: one table from opcode to mnemonic and operand count,
//! consulted by the engine and by the disassembler alike.

use vstd::prelude::*;

verus! {

/// Number of opcodes.
pub const OPCODES: u16 = 22;

/// An instruction of the machine.
#[derive(Clone, Copy, Debug, PartialEq, Eq, Structural)]
pub enum Opcode {
    /// Stops the machine.
    Halt,
    /// Stores a value in a destination.
    Assign,
    /// Pushes a value on the stack.
    Push,
    /// Pops the stack into a destination.
    Pop,
    /// Stores 1 when two values are equal, else 0.
    Eq,
    /// Stores 1 when the first value exceeds the second, else 0.
    Gt,
    /// Jumps to an address.
    Jmp,
    /// Jumps when a value is not zero.
    Jt,
    /// Jumps when a value is zero.
    Jf,
    /// Stores the wrapped sum of two values.
    Add,
    /// Stores the wrapped product of two values.
    Mult,
    /// Stores the remainder of two values.
    Mod,
    /// Stores the bitwise and of two values.
    And,
    /// Stores the bitwise or of two values.
    Or,
    /// Stores the fifteen-bit complement of a value.
    Not,
    /// Loads a word of memory into a destination.
    Rmem,
    /// Stores a value at a computed memory address.
    Wmem,
    /// Pushes the return address and jumps.
    Call,
    /// Returns to the address on top of the stack.
    Ret,
    /// Emits a value as one character.
    Out,
    /// Takes one word of input into a destination.
    In,
    /// Does nothing.
    Noop,
}

impl Opcode {
    /// The number by which a program names this instruction.
    pub open spec fn spec_code(self) -> int {
        match self {
            Opcode::Halt => 0,
            Opcode::Assign => 1,
            Opcode::Push => 2,
            Opcode::Pop => 3,
            Opcode::Eq => 4,
            Opcode::Gt => 5,
            Opcode::Jmp => 6,
            Opcode::Jt => 7,
            Opcode::Jf => 8,
            Opcode::Add => 9,
            Opcode::Mult => 10,
            Opcode::Mod => 11,
            Opcode::And => 12,
            Opcode::Or => 13,
            Opcode::Not => 14,
            Opcode::Rmem => 15,
            Opcode::Wmem => 16,
            Opcode::Call => 17,
            Opcode::Ret => 18,
            Opcode::Out => 19,
            Opcode::In => 20,
            Opcode::Noop => 21,
        }
    }

    /// The instruction that `word` names, if it names one.
    pub open spec fn spec_decode(word: int) -> Option<Opcode> {
        if word == 0 {
            Some(Opcode::Halt)
        } else if word == 1 {
            Some(Opcode::Assign)
        } else if word == 2 {
            Some(Opcode::Push)
        } else if word == 3 {
            Some(Opcode::Pop)
        } else if word == 4 {
            Some(Opcode::Eq)
        } else if word == 5 {
            Some(Opcode::Gt)
        } else if word == 6 {
            Some(Opcode::Jmp)
        } else if word == 7 {
            Some(Opcode::Jt)
        } else if word == 8 {
            Some(Opcode::Jf)
        } else if word == 9 {
            Some(Opcode::Add)
        } else if word == 10 {
            Some(Opcode::Mult)
        } else if word == 11 {
            Some(Opcode::Mod)
        } else if word == 12 {
            Some(Opcode::And)
        } else if word == 13 {
            Some(Opcode::Or)
        } else if word == 14 {
            Some(Opcode::Not)
        } else if word == 15 {
            Some(Opcode::Rmem)
        } else if word == 16 {
            Some(Opcode::Wmem)
        } else if word == 17 {
            Some(Opcode::Call)
        } else if word == 18 {
            Some(Opcode::Ret)
        } else if word == 19 {
            Some(Opcode::Out)
        } else if word == 20 {
            Some(Opcode::In)
        } else if word == 21 {
            Some(Opcode::Noop)
        } else {
            None
        }
    }

    /// The number of operand words that follow the opcode.
    pub open spec fn spec_operands(self) -> int {
        match self {
            Opcode::Halt | Opcode::Ret | Opcode::Noop => 0,
            Opcode::Push | Opcode::Pop | Opcode::Jmp | Opcode::Call | Opcode::Out | Opcode::In => 1,
            Opcode::Assign | Opcode::Jt | Opcode::Jf | Opcode::Not | Opcode::Rmem | Opcode::Wmem => 2,
            Opcode::Eq | Opcode::Gt | Opcode::Add | Opcode::Mult | Opcode::Mod | Opcode::And | Opcode::Or => 3,
        }
    }

    /// The mnemonic, as a sequence of characters.
    pub open spec fn spec_mnemonic(self) -> Seq<char> {
        match self {
            Opcode::Halt => "halt"@,
            Opcode::Assign => "set"@,
            Opcode::Push => "push"@,
            Opcode::Pop => "pop"@,
            Opcode::Eq => "eq"@,
            Opcode::Gt => "gt"@,
            Opcode::Jmp => "jmp"@,
            Opcode::Jt => "jt"@,
            Opcode::Jf => "jf"@,
            Opcode::Add => "add"@,
            Opcode::Mult => "mult"@,
            Opcode::Mod => "mod"@,
            Opcode::And => "and"@,
            Opcode::Or => "or"@,
            Opcode::Not => "not"@,
            Opcode::Rmem => "rmem"@,
            Opcode::Wmem => "wmem"@,
            Opcode::Call => "call"@,
            Opcode::Ret => "ret"@,
            Opcode::Out => "out"@,
            Opcode::In => "in"@,
            Opcode::Noop => "noop"@,
        }
    }

    /// Decodes one word of a program.
    pub fn decode(word: u16) -> (op: Option<Opcode>)
        ensures
            op == Opcode::spec_decode(word as int),
            op is Some <==> word < OPCODES,
    {
        match word {
            0 => Some(Opcode::Halt),
            1 => Some(Opcode::Assign),
            2 => Some(Opcode::Push),
            3 => Some(Opcode::Pop),
            4 => Some(Opcode::Eq),
            5 => Some(Opcode::Gt),
            6 => Some(Opcode::Jmp),
            7 => Some(Opcode::Jt),
            8 => Some(Opcode::Jf),
            9 => Some(Opcode::Add),
            10 => Some(Opcode::Mult),
            11 => Some(Opcode::Mod),
            12 => Some(Opcode::And),
            13 => Some(Opcode::Or),
            14 => Some(Opcode::Not),
            15 => Some(Opcode::Rmem),
            16 => Some(Opcode::Wmem),
            17 => Some(Opcode::Call),
            18 => Some(Opcode::Ret),
            19 => Some(Opcode::Out),
            20 => Some(Opcode::In),
            21 => Some(Opcode::Noop),
            _ => None,
        }
    }

    /// The number by which a program names this instruction.
    pub fn code(self) -> (word: u16)
        ensures
            word == self.spec_code(),
            word < OPCODES,
    {
        match self {
            Opcode::Halt => 0,
            Opcode::Assign => 1,
            Opcode::Push => 2,
            Opcode::Pop => 3,
            Opcode::Eq => 4,
            Opcode::Gt => 5,
            Opcode::Jmp => 6,
            Opcode::Jt => 7,
            Opcode::Jf => 8,
            Opcode::Add => 9,
            Opcode::Mult => 10,
            Opcode::Mod => 11,
            Opcode::And => 12,
            Opcode::Or => 13,
            Opcode::Not => 14,
            Opcode::Rmem => 15,
            Opcode::Wmem => 16,
            Opcode::Call => 17,
            Opcode::Ret => 18,
            Opcode::Out => 19,
            Opcode::In => 20,
            Opcode::Noop => 21,
        }
    }

    /// The number of operand words that follow the opcode.
    pub fn operands(self) -> (count: usize)
        ensures
            count == self.spec_operands(),
            count <= 3,
    {
        match self {
            Opcode::Halt | Opcode::Ret | Opcode::Noop => 0,
            Opcode::Push | Opcode::Pop | Opcode::Jmp | Opcode::Call | Opcode::Out | Opcode::In => 1,
            Opcode::Assign | Opcode::Jt | Opcode::Jf | Opcode::Not | Opcode::Rmem | Opcode::Wmem => 2,
            Opcode::Eq | Opcode::Gt | Opcode::Add | Opcode::Mult | Opcode::Mod | Opcode::And | Opcode::Or => 3,
        }
    }

    /// The mnemonic under which a listing shows this instruction.
    pub fn mnemonic(self) -> (name: &'static str)
        ensures
            name@ == self.spec_mnemonic(),
    {
        match self {
            Opcode::Halt => "halt",
            Opcode::Assign => "set",
            Opcode::Push => "push",
            Opcode::Pop => "pop",
            Opcode::Eq => "eq",
            Opcode::Gt => "gt",
            Opcode::Jmp => "jmp",
            Opcode::Jt => "jt",
            Opcode::Jf => "jf",
            Opcode::Add => "add",
            Opcode::Mult => "mult",
            Opcode::Mod => "mod",
            Opcode::And => "and",
            Opcode::Or => "or",
            Opcode::Not => "not",
            Opcode::Rmem => "rmem",
            Opcode::Wmem => "wmem",
            Opcode::Call => "call",
            Opcode::Ret => "ret",
            Opcode::Out => "out",
            Opcode::In => "in",
            Opcode::Noop => "noop",
        }
    }
}

/// Decoding undoes encoding: every instruction is named by exactly one word,
/// and that word is below the number of opcodes.
pub proof fn lemma_decode_code(op: Opcode)
    ensures
        Opcode::spec_decode(op.spec_code()) == Some(op),
        0 <= op.spec_code() < 22,
        0 <= op.spec_operands() <= 3,
{
}

/// A word names an instruction exactly when it is below the number of
/// opcodes, and then the instruction's code is that word.
pub proof fn lemma_code_decode(word: int)
    ensures
        Opcode::spec_decode(word) is Some <==> 0 <= word < 22,
        Opcode::spec_decode(word) matches Some(op) ==> op.spec_code() == word,
{
}

} // verus!
