//! The text of a listing: one line per instruction, with the address and
//! the mnemonic right-aligned and the operands behind them.

use vstd::prelude::*;
use crate::listing::{Line, LineView, Operand};

verus! {

/// Width of the address column.
pub const ADDRESS_WIDTH: usize = 6;

/// Width of the mnemonic column.
pub const MNEMONIC_WIDTH: usize = 4;

/// The character for the decimal digit `d`.
pub open spec fn digit(d: int) -> char {
    if d == 0 {
        '0'
    } else if d == 1 {
        '1'
    } else if d == 2 {
        '2'
    } else if d == 3 {
        '3'
    } else if d == 4 {
        '4'
    } else if d == 5 {
        '5'
    } else if d == 6 {
        '6'
    } else if d == 7 {
        '7'
    } else if d == 8 {
        '8'
    } else {
        '9'
    }
}

/// The decimal numeral of `n`, without leading zeros.
pub open spec fn decimal(n: nat) -> Seq<char>
    decreases n,
{
    if n < 10 {
        seq![digit(n as int)]
    } else {
        decimal(n / 10).push(digit((n % 10) as int))
    }
}

/// `n` spaces.
pub open spec fn spaces(n: nat) -> Seq<char> {
    Seq::new(n, |i: int| ' ')
}

/// `s` moved to the right edge of a column of the given width. A text
/// wider than the column is left as it is.
pub open spec fn pad_left(s: Seq<char>, width: nat) -> Seq<char> {
    if s.len() >= width {
        s
    } else {
        spaces((width - s.len()) as nat) + s
    }
}

/// The text of one operand: a literal as its numeral, a register as `$`
/// and its index.
pub open spec fn operand_text(o: Operand) -> Seq<char> {
    match o {
        Operand::Literal(v) => decimal(v as nat),
        Operand::Register(r) => seq!['$'] + decimal(r as nat),
    }
}

/// The texts of the operands, each followed by one space.
pub open spec fn operands_text(operands: Seq<Operand>) -> Seq<char>
    decreases operands.len(),
{
    if operands.len() == 0 {
        Seq::empty()
    } else {
        operands_text(operands.drop_last()) + operand_text(operands.last()) + seq![' ']
    }
}

/// The text of one line: the address in a column of six, a space, the
/// mnemonic in a column of four, a space, and the operands, each followed
/// by a space.
pub open spec fn line_text(line: LineView) -> Seq<char> {
    pad_left(decimal(line.address as nat), 6) + seq![' '] + pad_left(
        line.opcode.spec_mnemonic(),
        4,
    ) + seq![' '] + operands_text(line.operands)
}

/// The one-character text of the decimal digit `d`.
fn digit_str(d: usize) -> (s: &'static str)
    requires
        d < 10,
    ensures
        s@ == seq![digit(d as int)],
{
    proof {
        reveal_strlit("0");
        reveal_strlit("1");
        reveal_strlit("2");
        reveal_strlit("3");
        reveal_strlit("4");
        reveal_strlit("5");
        reveal_strlit("6");
        reveal_strlit("7");
        reveal_strlit("8");
        reveal_strlit("9");
    }
    let s = match d {
        0 => "0",
        1 => "1",
        2 => "2",
        3 => "3",
        4 => "4",
        5 => "5",
        6 => "6",
        7 => "7",
        8 => "8",
        _ => "9",
    };
    assert(s@ =~= seq![digit(d as int)]);
    s
}

/// The number of digits in the decimal numeral of `n`.
pub fn decimal_len(n: usize) -> (len: usize)
    ensures
        len == decimal(n as nat).len(),
        1 <= len <= 20,
    decreases n,
{
    if n < 10 {
        1
    } else {
        let rest: usize = decimal_len(n / 10);
        proof {
            lemma_decimal_len_bound(n as nat);
        }
        rest + 1
    }
}

/// A numeral of a number below 2^64 has at most twenty digits.
proof fn lemma_decimal_len_bound(n: nat)
    requires
        n <= 0xffff_ffff_ffff_ffff,
    ensures
        1 <= decimal(n).len() <= 20,
{
    reveal_with_fuel(decimal, 21);
}

/// Appends the decimal numeral of `n` to `out`.
pub fn push_decimal(out: &mut String, n: usize)
    ensures
        final(out)@ == old(out)@ + decimal(n as nat),
    decreases n,
{
    if n >= 10 {
        push_decimal(out, n / 10);
    }
    out.append(digit_str(n % 10));
    assert(out@ =~= old(out)@ + decimal(n as nat));
}

/// Appends `n` spaces to `out`.
pub fn push_spaces(out: &mut String, n: usize)
    ensures
        final(out)@ == old(out)@ + spaces(n as nat),
{
    proof {
        reveal_strlit(" ");
    }
    let mut i: usize = 0;
    while i < n
        invariant
            i <= n,
            " "@ == seq![' '],
            out@ == old(out)@ + spaces(i as nat),
        decreases n - i,
    {
        out.append(" ");
        i = i + 1;
        assert(out@ =~= old(out)@ + spaces(i as nat));
    }
}

/// Appends `s` to `out`, moved to the right edge of a column of the given
/// width.
pub fn push_padded(out: &mut String, s: &str, width: usize)
    ensures
        final(out)@ == old(out)@ + pad_left(s@, width as nat),
{
    let len: usize = s.unicode_len();
    if len < width {
        push_spaces(out, width - len);
    }
    out.append(s);
    assert(out@ =~= old(out)@ + pad_left(s@, width as nat));
}

/// Appends the text of one operand and the space behind it.
pub fn push_operand(out: &mut String, o: Operand)
    ensures
        final(out)@ == old(out)@ + operand_text(o) + seq![' '],
{
    proof {
        reveal_strlit(" ");
        reveal_strlit("$");
    }
    match o {
        Operand::Literal(v) => {
            push_decimal(out, v as usize);
        },
        Operand::Register(r) => {
            out.append("$");
            push_decimal(out, r as usize);
        },
    }
    out.append(" ");
    assert(out@ =~= old(out)@ + operand_text(o) + seq![' ']);
}

/// The text of one line of a listing.
pub fn render(line: &Line) -> (text: String)
    ensures
        text@ == line_text(line@),
{
    proof {
        reveal_strlit(" ");
    }
    let mut out = String::new();
    let width: usize = decimal_len(line.address);
    if width < ADDRESS_WIDTH {
        push_spaces(&mut out, ADDRESS_WIDTH - width);
    }
    push_decimal(&mut out, line.address);
    out.append(" ");
    push_padded(&mut out, line.opcode.mnemonic(), MNEMONIC_WIDTH);
    out.append(" ");
    let ghost head = out@;
    assert(head =~= pad_left(decimal(line@.address as nat), 6) + seq![' '] + pad_left(
        line@.opcode.spec_mnemonic(),
        4,
    ) + seq![' ']);
    let mut k: usize = 0;
    while k < line.operands.len()
        invariant
            k <= line.operands@.len(),
            out@ == head + operands_text(line.operands@.take(k as int)),
        decreases line.operands@.len() - k,
    {
        push_operand(&mut out, line.operands[k]);
        proof {
            let before = line.operands@.take(k as int);
            let now = line.operands@.take(k as int + 1);
            assert(now.drop_last() =~= before);
            assert(now.last() == line.operands@[k as int]);
            assert(out@ =~= head + operands_text(now));
        }
        k = k + 1;
    }
    assert(line.operands@.take(k as int) =~= line.operands@);
    out
}

/// The texts of the lines of a listing, in order.
pub fn render_all(lines: &[Line]) -> (texts: Vec<String>)
    ensures
        texts@.len() == lines@.len(),
        forall|i: int| 0 <= i < texts@.len() ==> (#[trigger] texts@[i])@ == line_text(lines@[i]@),
{
    let mut texts: Vec<String> = Vec::new();
    let mut i: usize = 0;
    while i < lines.len()
        invariant
            i <= lines@.len(),
            texts@.len() == i,
            forall|j: int| 0 <= j < i ==> (#[trigger] texts@[j])@ == line_text(lines@[j]@),
        decreases lines@.len() - i,
    {
        texts.push(render(&lines[i]));
        i = i + 1;
    }
    texts
}

} // verus!
