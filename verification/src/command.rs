//! The commands of a debugger session, and the grammar that reads one from
//! a line of text.

use vstd::prelude::*;

verus! {

/// A command of a debugger session.
#[derive(Debug, PartialEq, Eq)]
pub enum Command {
    /// `run`: resume until the machine pauses or ends.
    Run,
    /// `step`: execute exactly one instruction, across a breakpoint too.
    Step,
    /// `exit`: end the session.
    Exit,
    /// `show`: display the machine.
    Show,
    /// `break <address>`: set the breakpoint.
    Break(usize),
    /// `goto <address>`: move the cursor.
    Goto(usize),
    /// `set <register> <value>`: overwrite a register.
    Register(usize, u16),
    /// `read <path>`: queue the bytes of a file as input, then resume.
    Read(String),
    /// Any other line: queue its characters and a newline as input, then
    /// resume.
    Text(String),
    /// `set`, `break` or `goto` with an argument that is missing or is no
    /// number of the right size.
    Malformed,
}

/// A command as a mathematical value.
pub enum CommandView {
    Run,
    Step,
    Exit,
    Show,
    Break(int),
    Goto(int),
    Register(int, int),
    Read(Seq<char>),
    Text(Seq<char>),
    Malformed,
}

impl View for Command {
    type V = CommandView;

    open spec fn view(&self) -> CommandView {
        match self {
            Command::Run => CommandView::Run,
            Command::Step => CommandView::Step,
            Command::Exit => CommandView::Exit,
            Command::Show => CommandView::Show,
            Command::Break(at) => CommandView::Break(*at as int),
            Command::Goto(at) => CommandView::Goto(*at as int),
            Command::Register(r, v) => CommandView::Register(*r as int, *v as int),
            Command::Read(path) => CommandView::Read(path@),
            Command::Text(text) => CommandView::Text(text@),
            Command::Malformed => CommandView::Malformed,
        }
    }
}

/// True of the characters that separate the fields of a line: those with
/// the white-space characters of Unicode.
pub open spec fn is_space(c: char) -> bool {
    let u = c as u32;
    ||| 0x09 <= u <= 0x0d
    ||| u == 0x20
    ||| u == 0x85
    ||| u == 0xa0
    ||| u == 0x1680
    ||| 0x2000 <= u <= 0x200a
    ||| u == 0x2028
    ||| u == 0x2029
    ||| u == 0x202f
    ||| u == 0x205f
    ||| u == 0x3000
}

/// True of the ten decimal digits.
pub open spec fn is_digit(c: char) -> bool {
    0x30 <= c as u32 <= 0x39
}

/// The value of a decimal digit.
pub open spec fn digit_value(c: char) -> nat {
    (c as u32 - 0x30) as nat
}

/// True when every character of `s` is a decimal digit.
pub open spec fn all_digits(s: Seq<char>) -> bool {
    forall|i: int| 0 <= i < s.len() ==> is_digit(#[trigger] s[i])
}

/// The number that a sequence of decimal digits spells.
pub open spec fn digits_value(s: Seq<char>) -> nat
    decreases s.len(),
{
    if s.len() == 0 {
        0
    } else {
        10 * digits_value(s.drop_last()) + digit_value(s.last())
    }
}

/// The number that `s` spells, if it spells one that does not exceed
/// `max`: an optional `+`, then one decimal digit or more.
pub open spec fn number(s: Seq<char>, max: nat) -> Option<nat> {
    let body = if s.len() > 0 && s[0] == '+' {
        s.drop_first()
    } else {
        s
    };
    if body.len() > 0 && all_digits(body) && digits_value(body) <= max {
        Some(digits_value(body))
    } else {
        None
    }
}

/// The first position from `from` on that holds no separator, or the end
/// of the line.
pub open spec fn field_start(s: Seq<char>, from: int) -> int
    decreases s.len() - from,
{
    if from < 0 || from >= s.len() {
        s.len() as int
    } else if !is_space(s[from]) {
        from
    } else {
        field_start(s, from + 1)
    }
}

/// The first position from `from` on that holds a separator, or the end of
/// the line.
pub open spec fn field_end(s: Seq<char>, from: int) -> int
    decreases s.len() - from,
{
    if from < 0 || from >= s.len() {
        s.len() as int
    } else if is_space(s[from]) {
        from
    } else {
        field_end(s, from + 1)
    }
}

/// The first field that starts at `from` or later: the longest run of
/// characters without a separator. It is empty where only separators are
/// left.
pub open spec fn field(s: Seq<char>, from: int) -> Seq<char> {
    s.subrange(field_start(s, from), field_end(s, field_start(s, from)))
}

/// The position behind the field that `field(s, from)` gives.
pub open spec fn after_field(s: Seq<char>, from: int) -> int {
    field_end(s, field_start(s, from))
}

/// True when `s` begins with `word`.
pub open spec fn starts_with(s: Seq<char>, word: Seq<char>) -> bool {
    word.len() <= s.len() && s.subrange(0, word.len() as int) == word
}

/// The command that a line spells. The line is taken without its line
/// end. The first rule that applies decides:
/// a line that begins with `read ` names a file by the rest of the line;
/// one that begins with `set `, `break ` or `goto ` takes its numbers from
/// the fields that follow, and is malformed where they are missing or
/// wrong; `run`, `step`, `exit` and `show` stand alone; every other line
/// is text for the program.
pub open spec fn parse_line(s: Seq<char>) -> CommandView {
    if starts_with(s, "read "@) {
        CommandView::Read(s.skip(5))
    } else if starts_with(s, "set "@) {
        match (number(field(s, 4), usize::MAX as nat), number(field(s, after_field(s, 4)), 65535)) {
            (Some(r), Some(v)) => CommandView::Register(r as int, v as int),
            _ => CommandView::Malformed,
        }
    } else if starts_with(s, "break "@) {
        match number(field(s, 6), usize::MAX as nat) {
            Some(at) => CommandView::Break(at as int),
            None => CommandView::Malformed,
        }
    } else if starts_with(s, "goto "@) {
        match number(field(s, 5), usize::MAX as nat) {
            Some(at) => CommandView::Goto(at as int),
            None => CommandView::Malformed,
        }
    } else if s == "run"@ {
        CommandView::Run
    } else if s == "step"@ {
        CommandView::Step
    } else if s == "exit"@ {
        CommandView::Exit
    } else if s == "show"@ {
        CommandView::Show
    } else {
        CommandView::Text(s)
    }
}

/// The characters of a string, in order.
pub fn chars_of(line: &str) -> (v: Vec<char>)
    ensures
        v@ == line@,
{
    let mut v: Vec<char> = Vec::new();
    for c in it: line.chars()
        invariant
            v@ == it.seq().take(it.index() as int),
            it.seq() == line@,
    {
        v.push(c);
        assert(it.seq().take(it.index() + 1) =~= it.seq().take(it.index() as int).push(c));
    }
    assert(v@ =~= line@);
    v
}

/// True of the characters that separate the fields of a line.
pub fn space(c: char) -> (b: bool)
    ensures
        b == is_space(c),
{
    let u: u32 = c as u32;
    (0x09 <= u && u <= 0x0d) || u == 0x20 || u == 0x85 || u == 0xa0 || u == 0x1680 || (0x2000
        <= u && u <= 0x200a) || u == 0x2028 || u == 0x2029 || u == 0x202f || u == 0x205f || u
        == 0x3000
}

/// The first position from `from` on that holds no separator, or the end
/// of the line.
pub fn skip_spaces(line: &[char], from: usize) -> (at: usize)
    ensures
        at == field_start(line@, from as int),
        from <= at <= line@.len() || (from > line@.len() && at == line@.len()),
{
    let mut at: usize = from;
    while at < line.len() && space(line[at])
        invariant
            from <= at,
            field_start(line@, at as int) == field_start(line@, from as int),
        decreases line@.len() - at,
    {
        at = at + 1;
    }
    if at > line.len() {
        line.len()
    } else {
        at
    }
}

/// The first position from `from` on that holds a separator, or the end of
/// the line.
pub fn skip_field(line: &[char], from: usize) -> (at: usize)
    ensures
        at == field_end(line@, from as int),
        from <= at <= line@.len() || (from > line@.len() && at == line@.len()),
{
    let mut at: usize = from;
    while at < line.len() && !space(line[at])
        invariant
            from <= at,
            field_end(line@, at as int) == field_end(line@, from as int),
        decreases line@.len() - at,
    {
        at = at + 1;
    }
    if at > line.len() {
        line.len()
    } else {
        at
    }
}

/// The digits read so far never spell more than the whole numeral does.
pub proof fn lemma_digits_value_grows(s: Seq<char>, k: int)
    requires
        0 <= k <= s.len(),
    ensures
        digits_value(s.take(k)) <= digits_value(s),
    decreases s.len() - k,
{
    if k == s.len() {
        assert(s.take(k) =~= s);
    } else {
        lemma_digits_value_grows(s.drop_last(), k);
        assert(s.drop_last().take(k) =~= s.take(k));
    }
}

/// Reads the number that the characters from `from` up to `to` spell: an
/// optional `+`, then one decimal digit or more, the value `max` at most.
/// A range that does not lie inside the line spells no number.
pub fn parse_number(line: &[char], from: usize, to: usize, max: usize) -> (n: Option<usize>)
    ensures
        match n {
            Some(v) => from <= to <= line@.len() && number(
                line@.subrange(from as int, to as int),
                max as nat,
            ) == Some(v as nat),
            None => !(from <= to <= line@.len()) || number(
                line@.subrange(from as int, to as int),
                max as nat,
            ) is None,
        },
{
    if from > to || to > line.len() {
        return None;
    }
    let ghost s = line@.subrange(from as int, to as int);
    let mut i: usize = from;
    if i < to && line[i] == '+' {
        i = i + 1;
    }
    let start: usize = i;
    let ghost body = line@.subrange(start as int, to as int);
    assert(body =~= if s.len() > 0 && s[0] == '+' {
        s.drop_first()
    } else {
        s
    });
    if start == to {
        return None;
    }
    let mut acc: usize = 0;
    while i < to
        invariant
            start < to,
            start <= i <= to <= line@.len(),
            body == line@.subrange(start as int, to as int),
            number(line@.subrange(from as int, to as int), max as nat) == if all_digits(body)
                && digits_value(body) <= max {
                Some(digits_value(body))
            } else {
                None
            },
            all_digits(body.take(i - start)),
            acc == digits_value(body.take(i - start)),
            acc <= max,
        decreases to - i,
    {
        let u: u32 = line[i] as u32;
        if u < 0x30 || u > 0x39 {
            assert(!is_digit(body[i - start]));
            return None;
        }
        let d: usize = (u - 0x30) as usize;
        proof {
            let now = body.take(i - start + 1);
            assert(now.drop_last() =~= body.take(i - start));
            assert(now.last() == line@[i as int]);
            assert(digits_value(now) == 10 * acc + d);
            lemma_digits_value_grows(body, i - start + 1);
            assert forall|j: int| 0 <= j < now.len() implies is_digit(#[trigger] now[j]) by {
                if j < now.len() - 1 {
                    assert(body.take(i - start)[j] == now[j]);
                }
            }
        }
        if acc > max / 10 {
            return None;
        }
        let tens: usize = acc * 10;
        if d > max - tens {
            return None;
        }
        acc = tens + d;
        i = i + 1;
    }
    assert(body.take(i - start) =~= body);
    Some(acc)
}

/// True when the line begins with `word`.
pub fn has_prefix(line: &[char], word: &str) -> (b: bool)
    ensures
        b == starts_with(line@, word@),
{
    let w = chars_of(word);
    if w.len() > line.len() {
        return false;
    }
    let mut i: usize = 0;
    while i < w.len()
        invariant
            i <= w@.len() <= line@.len(),
            w@ == word@,
            line@.subrange(0, i as int) == w@.subrange(0, i as int),
        decreases w@.len() - i,
    {
        if line[i] != w[i] {
            assert(line@.subrange(0, w@.len() as int)[i as int] != w@[i as int]);
            return false;
        }
        assert(line@.subrange(0, i + 1) =~= line@.subrange(0, i as int).push(line@[i as int]));
        assert(w@.subrange(0, i + 1) =~= w@.subrange(0, i as int).push(w@[i as int]));
        i = i + 1;
    }
    assert(w@.subrange(0, i as int) =~= w@);
    true
}

/// True when the line is exactly `word`.
pub fn is_word(line: &[char], word: &str) -> (b: bool)
    ensures
        b == (line@ == word@),
{
    let same: bool = has_prefix(line, word);
    let len: usize = word.unicode_len();
    assert(line@.len() == word@.len() ==> line@.subrange(0, word@.len() as int) =~= line@);
    same && line.len() == len
}

impl Command {
    /// Reads the command that a line spells. The line is taken without its
    /// line end.
    pub fn parse(line: &str) -> (cmd: Command)
        ensures
            cmd@ == parse_line(line@),
    {
        proof {
            reveal_strlit("read ");
            reveal_strlit("set ");
            reveal_strlit("break ");
            reveal_strlit("goto ");
        }
        let chars = chars_of(line);
        let text: &[char] = chars.as_slice();
        let len: usize = text.len();
        if has_prefix(text, "read ") {
            let path = line.substring_char(5, len);
            assert(path@ =~= line@.skip(5));
            Command::Read(path.to_owned())
        } else if has_prefix(text, "set ") {
            let a: usize = skip_spaces(text, 4);
            let b: usize = skip_field(text, a);
            let c: usize = skip_spaces(text, b);
            let d: usize = skip_field(text, c);
            match parse_number(text, a, b, usize::MAX) {
                Some(r) => match parse_number(text, c, d, 65535) {
                    Some(v) => Command::Register(r, v as u16),
                    None => Command::Malformed,
                },
                None => Command::Malformed,
            }
        } else if has_prefix(text, "break ") {
            let a: usize = skip_spaces(text, 6);
            let b: usize = skip_field(text, a);
            match parse_number(text, a, b, usize::MAX) {
                Some(at) => Command::Break(at),
                None => Command::Malformed,
            }
        } else if has_prefix(text, "goto ") {
            let a: usize = skip_spaces(text, 5);
            let b: usize = skip_field(text, a);
            match parse_number(text, a, b, usize::MAX) {
                Some(at) => Command::Goto(at),
                None => Command::Malformed,
            }
        } else if is_word(text, "run") {
            Command::Run
        } else if is_word(text, "step") {
            Command::Step
        } else if is_word(text, "exit") {
            Command::Exit
        } else if is_word(text, "show") {
            Command::Show
        } else {
            Command::Text(line.to_owned())
        }
    }
}

} // verus!
