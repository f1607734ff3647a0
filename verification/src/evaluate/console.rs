//! The console that a program reads from and writes to.

use crate::lexer::lexer::characters;
use vstd::prelude::*;
use vstd::string::StringExecFns;

verus! {

/// The mathematical form of a console.
pub struct ConsoleView {
    /// The lines that can still be read, the next one first.
    pub pending: Seq<Seq<char>>,
    /// Everything written so far.
    pub output: Seq<char>,
}

/// The input and output that a program sees: lines to read, handed over
/// beforehand, and a buffer that collects what the program writes.
#[derive(Debug)]
pub struct Console {
    pub pending: Vec<String>,
    pub output: String,
}

/// Whether `c` is white space in the sense of Unicode's `White_Space` property.
pub open spec fn is_whitespace(c: char) -> bool {
    ||| '\u{9}' <= c <= '\u{d}'
    ||| c == ' '
    ||| c == '\u{85}'
    ||| c == '\u{a0}'
    ||| c == '\u{1680}'
    ||| '\u{2000}' <= c <= '\u{200a}'
    ||| c == '\u{2028}'
    ||| c == '\u{2029}'
    ||| c == '\u{202f}'
    ||| c == '\u{205f}'
    ||| c == '\u{3000}'
}

/// `text` without the white space it begins with.
pub open spec fn trimmed_start(text: Seq<char>) -> Seq<char>
    decreases text.len(),
{
    if text.len() > 0 && is_whitespace(text[0]) {
        trimmed_start(text.drop_first())
    } else {
        text
    }
}

/// `text` without the white space it ends with.
pub open spec fn trimmed_end(text: Seq<char>) -> Seq<char>
    decreases text.len(),
{
    if text.len() > 0 && is_whitespace(text.last()) {
        trimmed_end(text.drop_last())
    } else {
        text
    }
}

/// `text` without the white space at either end.
pub open spec fn trimmed(text: Seq<char>) -> Seq<char> {
    trimmed_end(trimmed_start(text))
}

/// Whether `c` is white space.
fn is_white(c: char) -> (white: bool)
    ensures
        white == is_whitespace(c),
{
    (c >= '\u{9}' && c <= '\u{d}') || c == ' ' || c == '\u{85}' || c == '\u{a0}' || c
        == '\u{1680}' || (c >= '\u{2000}' && c <= '\u{200a}') || c == '\u{2028}' || c
        == '\u{2029}' || c == '\u{202f}' || c == '\u{205f}' || c == '\u{3000}'
}

/// `line` without the white space at either end.
pub fn trim_line(line: &str) -> (text: String)
    ensures
        text@ == trimmed(line@),
{
    let chars = characters(line);
    let length = chars.len();
    let mut start: usize = 0;
    assert(chars@.skip(0) =~= chars@);
    while start < length && is_white(chars[start])
        invariant
            length == chars.len(),
            start <= length,
            trimmed_start(chars@.skip(start as int)) == trimmed_start(chars@),
        decreases length - start,
    {
        assert(chars@.skip(start as int).drop_first() =~= chars@.skip(start + 1));
        start = start + 1;
    }
    let ghost rest = chars@.skip(start as int);
    assert(trimmed_start(chars@) == rest);
    let mut end: usize = length;
    assert(rest.take(end - start) =~= rest);
    while end > start && is_white(chars[end - 1])
        invariant
            length == chars.len(),
            start <= end <= length,
            rest == chars@.skip(start as int),
            trimmed_end(rest.take(end - start)) == trimmed_end(rest),
        decreases end,
    {
        assert(rest.take(end - start).last() == chars[end - 1]);
        assert(rest.take(end - start).drop_last() =~= rest.take(end - start - 1));
        end = end - 1;
    }
    let ghost kept = rest.take(end - start);
    assert(trimmed_end(rest) == kept) by {
        if end > start {
            assert(kept.last() == chars[end - 1]);
        }
    }
    let mut text = String::new();
    let mut index: usize = start;
    assert(text@ =~= kept.take(0));
    while index < end
        invariant
            start <= index <= end <= length,
            length == chars.len(),
            kept == chars@.skip(start as int).take(end - start),
            text@ == kept.take(index - start),
        decreases end - index,
    {
        text.push(chars[index]);
        index = index + 1;
        assert(text@ =~= kept.take(index - start));
    }
    assert(kept.take(end - start) =~= kept);
    text
}

impl ConsoleView {
    /// The console after `text` was written.
    pub open spec fn write(self, text: Seq<char>) -> ConsoleView {
        ConsoleView { output: self.output + text, ..self }
    }

    /// The console after its first pending line was read.
    pub open spec fn after_read(self) -> ConsoleView {
        ConsoleView { pending: self.pending.drop_first(), ..self }
    }
}

impl Console {
    pub open spec fn view(&self) -> ConsoleView {
        ConsoleView {
            pending: self.pending@.map_values(|line: String| line@),
            output: self.output@,
        }
    }

    /// A console with the given lines to read and nothing written yet.
    pub fn new(input: Vec<String>) -> (console: Console)
        ensures
            console@.pending == input@.map_values(|line: String| line@),
            console@.output == Seq::<char>::empty(),
    {
        Console { pending: input, output: String::new() }
    }

    /// Appends `text` to what was written.
    pub fn write(&mut self, text: &str)
        ensures
            final(self)@ == old(self)@.write(text@),
    {
        self.output.append(text);
    }

    /// Takes the next pending line, if one is left.
    pub fn read_line(&mut self) -> (line: Option<String>)
        ensures
            match line {
                Some(text) => old(self)@.pending.len() > 0 && text@ == old(self)@.pending[0]
                    && final(self)@ == old(self)@.after_read(),
                None => old(self)@.pending.len() == 0 && final(self)@ == old(self)@,
            },
    {
        if self.pending.len() > 0 {
            let line = self.pending.remove(0);
            assert(self@.pending =~= old(self)@.pending.drop_first());
            Some(line)
        } else {
            None
        }
    }

    /// Everything written so far.
    pub fn output(&self) -> (text: &String)
        ensures
            text@ == self@.output,
    {
        &self.output
    }
}

} // verus!
