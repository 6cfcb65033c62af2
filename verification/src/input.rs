//! The classifier of input lines.
//!
//! A line is a command where nothing is pending, the session is in the
//! normal edit mode, and the line begins with a single `.`: the name runs
//! from there to the first blank, the argument text follows the blanks after
//! it. Every other line is source text. It is added to what is pending, and
//! the whole is a complete unit where every `(`, `[` and `{` in it is closed
//! in order and every string literal is ended; what stands inside a string
//! literal opens and closes nothing. Text with a delimiter or a string
//! literal still open wants more lines, and text that closes what was never
//! opened is an input error.

use vstd::prelude::*;
use vstd::string::*;

verus! {

/// How the session takes the next source unit.
#[derive(Clone, Copy, PartialEq, Eq, Debug, Structural)]
pub enum EditMode {
    /// The unit reads the carried state.
    Normal,
    /// The unit may change the carried state; lines are never commands.
    MutableBlock,
}

/// What the line source delivered.
#[derive(Debug)]
pub enum InputEvent {
    /// One line of text, without its line end.
    Line(String),
    /// The input has ended.
    Eof,
    /// Reading failed, with the reason.
    Error(String),
}

/// The classification of the input read so far.
#[derive(Debug)]
pub enum InputResult {
    /// A command: its name, and the argument text.
    Command(String, String),
    /// A complete source unit.
    Program(String),
    /// The unit is incomplete: more lines are needed.
    More,
    /// The input has ended.
    Eof,
    /// The input cannot be used, with the reason.
    InputError(String),
}

/// The mathematical value of an [`InputResult`].
pub ghost enum Classified {
    Command(Seq<char>, Seq<char>),
    Program(Seq<char>),
    More,
    Eof,
    InputError(Seq<char>),
}

impl View for InputResult {
    type V = Classified;

    open spec fn view(&self) -> Classified {
        match *self {
            InputResult::Command(name, rest) => Classified::Command(name@, rest@),
            InputResult::Program(text) => Classified::Program(text@),
            InputResult::More => Classified::More,
            InputResult::Eof => Classified::Eof,
            InputResult::InputError(message) => Classified::InputError(message@),
        }
    }
}

/// A blank: a space or a tab.
pub open spec fn is_blank(c: char) -> bool {
    c == ' ' || c == '\t'
}

/// A line that begins with one `.`, and not with two.
pub open spec fn is_command_line(line: Seq<char>) -> bool {
    line.len() >= 1 && line[0] == '.' && !(line.len() >= 2 && line[1] == '.')
}

/// The end of the run that starts at `from` and consists of blanks
/// (`blanks`) or of anything else (`!blanks`).
pub open spec fn run_end(line: Seq<char>, from: int, blanks: bool) -> int
    decreases line.len() - from,
{
    if from < 0 || from >= line.len() || is_blank(line[from]) != blanks {
        from
    } else {
        run_end(line, from + 1, blanks)
    }
}

/// The name of the command on a command line.
pub open spec fn command_name(line: Seq<char>) -> Seq<char> {
    line.subrange(1, run_end(line, 1, false))
}

/// The argument text of a command line: what follows the name and the blanks after it.
pub open spec fn command_rest(line: Seq<char>) -> Seq<char> {
    line.subrange(run_end(line, run_end(line, 1, false), true), line.len() as int)
}

/// The delimiter that closes `c`, where `c` opens one.
pub open spec fn closer_of(c: char) -> Option<char> {
    if c == '(' {
        Some(')')
    } else if c == '[' {
        Some(']')
    } else if c == '{' {
        Some('}')
    } else {
        None
    }
}

/// A closing delimiter.
pub open spec fn is_closer(c: char) -> bool {
    c == ')' || c == ']' || c == '}'
}

/// Where a scan of source text stands.
pub ghost struct Scan {
    /// The closers owed, innermost last.
    pub owed: Seq<char>,
    /// Whether a string literal is open.
    pub quoted: bool,
    /// Whether the character before was a backslash inside a string literal.
    pub escaped: bool,
}

/// Where a scan stands after `c`, given where it stood before; `None` once
/// a closer came that was not the one owed. Inside a string literal nothing
/// opens or closes but the quote that ends it, and a backslash takes the
/// character after it along.
pub open spec fn scan_step(state: Option<Scan>, c: char) -> Option<Scan> {
    match state {
        None => None,
        Some(s) => if s.quoted {
            if s.escaped {
                Some(Scan { escaped: false, ..s })
            } else if c == '\\' {
                Some(Scan { escaped: true, ..s })
            } else if c == '"' {
                Some(Scan { quoted: false, ..s })
            } else {
                Some(s)
            }
        } else if c == '"' {
            Some(Scan { quoted: true, ..s })
        } else {
            match closer_of(c) {
                Some(closer) => Some(Scan { owed: s.owed.push(closer), ..s }),
                None => if !is_closer(c) {
                    Some(s)
                } else if s.owed.len() > 0 && s.owed.last() == c {
                    Some(Scan { owed: s.owed.drop_last(), ..s })
                } else {
                    None
                },
            }
        },
    }
}

/// Where a scan stands after the first `n` characters of `text`.
pub open spec fn scan(text: Seq<char>, n: int) -> Option<Scan>
    decreases n,
{
    if n <= 0 {
        Some(Scan { owed: Seq::empty(), quoted: false, escaped: false })
    } else {
        scan_step(scan(text, n - 1), text[n - 1])
    }
}

/// Where a scan of the whole of `text` ends.
pub open spec fn open_delimiters(text: Seq<char>) -> Option<Scan> {
    scan(text, text.len() as int)
}

/// Whether a scan ended with something open: a delimiter or a string literal.
pub open spec fn is_unclosed(end: Scan) -> bool {
    end.owed.len() > 0 || end.quoted
}

/// The reason given for text that closes what was not open.
pub open spec fn unbalanced_text() -> Seq<char> {
    "unexpected closing delimiter"@
}

/// The classification of source text.
pub open spec fn classify_source(text: Seq<char>) -> Classified {
    match open_delimiters(text) {
        None => Classified::InputError(unbalanced_text()),
        Some(end) => if is_unclosed(end) {
            Classified::More
        } else {
            Classified::Program(text)
        },
    }
}

/// The classification of `line`, read while `pending` waits for more.
pub open spec fn classify(pending: Seq<char>, line: Seq<char>, mode: EditMode) -> Classified {
    if pending.len() == 0 && mode == EditMode::Normal && is_command_line(line) {
        Classified::Command(command_name(line), command_rest(line))
    } else {
        classify_source(pending + line + seq!['\n'])
    }
}

/// What waits for more once `line` is classified.
pub open spec fn pending_after(pending: Seq<char>, line: Seq<char>, mode: EditMode) -> Seq<char> {
    if classify(pending, line, mode) is More {
        pending + line + seq!['\n']
    } else {
        Seq::empty()
    }
}

/// The end of a run of blanks, or of other characters, that starts at `from`.
fn find_run_end(line: &str, from: usize, blanks: bool) -> (end: usize)
    requires
        from <= line@.len(),
    ensures
        end == run_end(line@, from as int, blanks),
        from <= end <= line@.len(),
{
    let len = line.unicode_len();
    let mut i: usize = from;
    while i < len
        invariant
            len == line@.len(),
            from <= i <= len,
            run_end(line@, from as int, blanks) == run_end(line@, i as int, blanks),
        decreases len - i,
    {
        let c = line.get_char(i);
        if (c == ' ' || c == '\t') != blanks {
            return i;
        }
        i += 1;
    }
    i
}

/// Classifies source text by the delimiters and string literals it leaves open.
pub fn classify_text(text: &str) -> (result: InputResult)
    ensures
        result@ == classify_source(text@),
{
    let len = text.unicode_len();
    let mut stack: Vec<char> = Vec::new();
    let mut quoted = false;
    let mut escaped = false;
    let mut broken = false;
    let mut i: usize = 0;
    while i < len
        invariant
            len == text@.len(),
            0 <= i <= len,
            scan(text@, i as int) == (if broken {
                None
            } else {
                Some(Scan { owed: stack@, quoted: quoted, escaped: escaped })
            }),
        decreases len - i,
    {
        let c = text.get_char(i);
        if !broken {
            if quoted {
                if escaped {
                    escaped = false;
                } else if c == '\\' {
                    escaped = true;
                } else if c == '"' {
                    quoted = false;
                }
            } else if c == '"' {
                quoted = true;
            } else if c == '(' {
                stack.push(')');
            } else if c == '[' {
                stack.push(']');
            } else if c == '{' {
                stack.push('}');
            } else if c == ')' || c == ']' || c == '}' {
                if stack.len() > 0 && stack[stack.len() - 1] == c {
                    stack.pop();
                } else {
                    broken = true;
                }
            }
        }
        i += 1;
    }
    if broken {
        InputResult::InputError(String::from_str("unexpected closing delimiter"))
    } else if stack.len() > 0 || quoted {
        InputResult::More
    } else {
        InputResult::Program(String::from_str(text))
    }
}

/// Accumulates the lines of a unit until it is complete.
#[derive(Debug)]
pub struct InputReader {
    /// The lines read so far of a unit that is not yet complete.
    pub buffer: String,
}

impl InputReader {
    /// A reader with nothing pending.
    pub fn new() -> (reader: Self)
        ensures
            reader.buffer@.len() == 0,
    {
        InputReader { buffer: String::new() }
    }

    /// Whether a unit waits for more lines.
    pub fn is_pending(&self) -> (pending: bool)
        ensures
            pending == (self.buffer@.len() > 0),
    {
        self.buffer.as_str().unicode_len() > 0
    }

    /// Classifies one line, given what is pending and the edit mode.
    pub fn handle_line(&mut self, line: &str, mode: EditMode) -> (result: InputResult)
        ensures
            result@ == classify(old(self).buffer@, line@, mode),
            final(self).buffer@ == pending_after(old(self).buffer@, line@, mode),
    {
        proof {
            reveal_strlit("\n");
        }
        assert("\n"@ =~= seq!['\n']);
        let len = line.unicode_len();
        let fresh = self.buffer.as_str().unicode_len() == 0;
        let normal = match mode {
            EditMode::Normal => true,
            EditMode::MutableBlock => false,
        };
        if fresh && normal && len >= 1 && line.get_char(0) == '.' && !(len >= 2 && line.get_char(1)
            == '.') {
            let name_end = find_run_end(line, 1, false);
            let rest_start = find_run_end(line, name_end, true);
            let name = String::from_str(line.substring_char(1, name_end));
            let rest = String::from_str(line.substring_char(rest_start, len));
            InputResult::Command(name, rest)
        } else {
            self.buffer.append(line);
            self.buffer.append("\n");
            let result = classify_text(self.buffer.as_str());
            match result {
                InputResult::More => {},
                _ => {
                    self.buffer = String::new();
                },
            }
            result
        }
    }

    /// Classifies what the line source delivered. The end of the input and a
    /// failure to read are passed on, and drop what was pending.
    pub fn handle_event(&mut self, event: InputEvent, mode: EditMode) -> (result: InputResult)
        ensures
            result@ == classify_event(old(self).buffer@, event, mode),
            final(self).buffer@ == pending_after_event(old(self).buffer@, event, mode),
    {
        match event {
            InputEvent::Line(line) => self.handle_line(line.as_str(), mode),
            InputEvent::Eof => {
                self.buffer = String::new();
                InputResult::Eof
            },
            InputEvent::Error(message) => {
                self.buffer = String::new();
                InputResult::InputError(message)
            },
        }
    }
}

/// The classification of an event of the line source.
pub open spec fn classify_event(pending: Seq<char>, event: InputEvent, mode: EditMode) -> Classified {
    match event {
        InputEvent::Line(line) => classify(pending, line@, mode),
        InputEvent::Eof => Classified::Eof,
        InputEvent::Error(message) => Classified::InputError(message@),
    }
}

/// What waits for more once an event of the line source is classified.
pub open spec fn pending_after_event(pending: Seq<char>, event: InputEvent, mode: EditMode) -> Seq<
    char,
> {
    match event {
        InputEvent::Line(line) => pending_after(pending, line@, mode),
        _ => Seq::empty(),
    }
}

/// The closers owed after `n` characters depend on those characters alone.
pub proof fn lemma_scan_prefix(a: Seq<char>, b: Seq<char>, n: int)
    requires
        n <= a.len(),
        n <= b.len(),
        forall|i: int| 0 <= i < n ==> a[i] == b[i],
    ensures
        scan(a, n) == scan(b, n),
    decreases n,
{
    if n > 0 {
        lemma_scan_prefix(a, b, n - 1);
    }
}

/// Text that leaves a delimiter or a string literal open is incomplete: it
/// is classified as wanting more, never as a complete unit and never as an error.
pub proof fn lemma_unclosed_is_incomplete(text: Seq<char>)
    requires
        open_delimiters(text) matches Some(end) && is_unclosed(end),
    ensures
        classify_source(text) is More,
{
}

/// A line of source text that leaves a delimiter or a string literal open
/// in what was read of the unit is classified as wanting more, and the unit
/// stays pending with that line added.
pub proof fn lemma_unclosed_line_is_incomplete(pending: Seq<char>, line: Seq<char>, mode: EditMode)
    requires
        !(pending.len() == 0 && mode == EditMode::Normal && is_command_line(line)),
        open_delimiters(pending + line + seq!['\n']) matches Some(end) && is_unclosed(end),
    ensures
        classify(pending, line, mode) is More,
        pending_after(pending, line, mode) == pending + line + seq!['\n'],
{
}

/// Opening a block at the end of text that closes nothing unopened, and
/// outside a string literal, leaves the text incomplete, however many
/// delimiters were open before.
pub proof fn lemma_opened_block_is_incomplete(text: Seq<char>, opener: char)
    requires
        open_delimiters(text) matches Some(end) && !end.quoted,
        closer_of(opener) is Some,
    ensures
        classify_source(text.push(opener)) is More,
{
    lemma_scan_prefix(text, text.push(opener), text.len() as int);
}

/// What is pending is never empty, and only a unit that wants more is pending.
pub proof fn lemma_pending_is_not_empty(pending: Seq<char>, line: Seq<char>, mode: EditMode)
    ensures
        classify(pending, line, mode) is More <==> pending_after(pending, line, mode).len() > 0,
{
}

} // verus!
