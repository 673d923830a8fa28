use vstd::prelude::*;
use vstd::std_specs::iter::IteratorSpec;
use vstd::string::StrSliceExecFns;

verus! {

broadcast use vstd::string::group_string_axioms;

/// The pattern of a line that opens the code section.
pub const SECTION_PATTERN: &'static str = r"^section .text";

/// The pattern of a line that exports a name.
pub const GLOBAL_PATTERN: &'static str = r"^\s+global .*$";

/// The pattern of a line that begins with a label.
pub const LABEL_PATTERN: &'static str = r"^\w+:";

/// Whether a pattern, as the `regex` crate reads it, matches somewhere in a
/// text; `None` where the crate refuses the pattern.
pub uninterp spec fn regex_is_match(pattern: Seq<char>, haystack: Seq<char>) -> Option<bool>;

/// Compiles the pattern with `regex::Regex::new` and asks the compiled
/// pattern's `is_match` about the text. The answer is taken to depend on
/// the two strings alone; nothing else is claimed of it.
#[verifier::external_body]
fn is_match(pattern: &str, haystack: &str) -> (found: Option<bool>)
    ensures
        found == regex_is_match(pattern@, haystack@),
{
    match regex::Regex::new(pattern) {
        Ok(compiled) => Some(compiled.is_match(haystack)),
        Err(_) => None,
    }
}

/// What the assembler knows of one line of code.
#[derive(Debug)]
pub struct Token {
    /// The code of the line, without its comment.
    pub line: String,
    pub function: String,
    pub args: String,
    /// The line opens the code section.
    pub section: bool,
    /// The line exports a name.
    pub global: bool,
    /// The line begins with a label.
    pub label: bool,
}

/// The assembler's first pass over a program text.
pub struct Assembler;

/// Where the comment of a line begins, looking from `from` on: at its first
/// semicolon, or at the end of the line if it has none.
pub open spec fn comment_start_from(line: Seq<char>, from: int) -> int
    decreases line.len() - from,
{
    if from < 0 || from >= line.len() {
        line.len() as int
    } else if line[from] == ';' {
        from
    } else {
        comment_start_from(line, from + 1)
    }
}

/// The part of a line before its comment.
pub open spec fn code_of(line: Seq<char>) -> Seq<char> {
    line.take(comment_start_from(line, 0))
}

/// Whether a text takes more than one byte in UTF-8: it has more than one
/// character, or its one character lies outside ASCII.
pub open spec fn longer_than_a_byte(text: Seq<char>) -> bool {
    text.len() > 1 || (text.len() == 1 && text[0] as u32 > 0x7F)
}

/// The code of a line, if there is more than one byte of it.
pub open spec fn reformatted(line: Seq<char>) -> Option<Seq<char>> {
    if longer_than_a_byte(code_of(line)) {
        Some(code_of(line))
    } else {
        None
    }
}

/// A text cut at its line feeds. A text with `k` line feeds has `k + 1`
/// lines, of which any may be empty.
pub open spec fn split_lines(text: Seq<char>) -> Seq<Seq<char>>
    decreases text.len(),
{
    if text.len() == 0 {
        seq![Seq::<char>::empty()]
    } else {
        let before = split_lines(text.drop_last());
        if text.last() == '\n' {
            before.push(Seq::<char>::empty())
        } else {
            before.drop_last().push(before.last().push(text.last()))
        }
    }
}

/// The code of those lines that have more than one byte of it, in order.
pub open spec fn kept_code(lines: Seq<Seq<char>>) -> Seq<Seq<char>>
    decreases lines.len(),
{
    if lines.len() == 0 {
        Seq::<Seq<char>>::empty()
    } else {
        match reformatted(lines.last()) {
            Some(code) => kept_code(lines.drop_last()).push(code),
            None => kept_code(lines.drop_last()),
        }
    }
}

impl Token {
    /// Whether the token is the one that belongs to a line with this code.
    pub open spec fn describes(self, code: Seq<char>) -> bool {
        &&& self.line@ == code
        &&& self.function@ == Seq::<char>::empty()
        &&& self.args@ == Seq::<char>::empty()
        &&& self.section == (regex_is_match(SECTION_PATTERN@, code) == Some(true))
        &&& self.global == (regex_is_match(GLOBAL_PATTERN@, code) == Some(true))
        &&& self.label == (regex_is_match(LABEL_PATTERN@, code) == Some(true))
    }

    /// The token of a line, from what the three patterns said of it. A
    /// pattern that was refused counts as one that did not match.
    pub fn new(
        line: String,
        section: Option<bool>,
        global: Option<bool>,
        label: Option<bool>,
    ) -> (token: Token)
        ensures
            token.line == line,
            token.function@ == Seq::<char>::empty(),
            token.args@ == Seq::<char>::empty(),
            token.section == (section == Some(true)),
            token.global == (global == Some(true)),
            token.label == (label == Some(true)),
    {
        Token {
            line,
            function: String::new(),
            args: String::new(),
            section: match section {
                Some(found) => found,
                None => false,
            },
            global: match global {
                Some(found) => found,
                None => false,
            },
            label: match label {
                Some(found) => found,
                None => false,
            },
        }
    }
}

impl Assembler {
    /// Cuts the comment off a line. A line with at most one byte of code
    /// left is dropped.
    pub fn reformat(line: &str) -> (code: Option<&str>)
        ensures
            reformatted(line@) == match code {
                Some(text) => Some(text@),
                None => None,
            },
    {
        let n = line.unicode_len();
        let mut it = line.chars();
        let mut first: Option<char> = None;
        let mut i: usize = 0;
        loop
            invariant_except_break
                it.obeys_prophetic_iter_laws(),
                it.decrease() is Some,
                line@.take(i as int) + it.remaining() == line@,
                comment_start_from(line@, 0) == comment_start_from(line@, i as int),
            invariant
                i <= n == line@.len(),
                i > 0 ==> first == Some(line@[0]),
            ensures
                i <= n == line@.len(),
                comment_start_from(line@, 0) == i,
                i > 0 ==> first == Some(line@[0]),
            decreases it.decrease()->0,
        {
            match it.next() {
                Some(c) => {
                    assert(it.remaining().len() + 1 + i == line@.len());
                    assert(c == line@[i as int]);
                    if c == ';' {
                        break;
                    }
                    if i == 0 {
                        first = Some(c);
                    }
                    i = i + 1;
                },
                None => {
                    assert(i == n);
                    break;
                },
            }
        }
        let code = line.substring_char(0, i);
        assert(code@ == code_of(line@));
        let long = i > 1 || (i == 1 && match first {
            Some(c) => c as u32 > 0x7F,
            None => false,
        });
        if long {
            Some(code)
        } else {
            None
        }
    }

    /// Matches a line of code against the three patterns.
    pub fn tokenize(code: &str) -> (token: Token)
        ensures
            token.describes(code@),
    {
        let section = is_match(SECTION_PATTERN, code);
        let global = is_match(GLOBAL_PATTERN, code);
        let label = is_match(LABEL_PATTERN, code);
        Token::new(code.to_owned(), section, global, label)
    }

    /// Takes one line of the program: where code is left of it, its token
    /// joins the others.
    fn take_line(tokens: &mut Vec<Token>, line: &str, Ghost(code): Ghost<Seq<Seq<char>>>)
        requires
            old(tokens)@.len() == code.len(),
            forall|k: int| 0 <= k < code.len() ==> (#[trigger] old(tokens)@[k]).describes(code[k]),
        ensures
            ({
                let now = match reformatted(line@) {
                    Some(text) => code.push(text),
                    None => code,
                };
                &&& final(tokens)@.len() == now.len()
                &&& forall|k: int|
                    0 <= k < now.len() ==> (#[trigger] final(tokens)@[k]).describes(now[k])
            }),
    {
        match Assembler::reformat(line) {
            Some(text) => {
                let token = Assembler::tokenize(text);
                tokens.push(token);
            },
            None => {},
        }
    }

    /// Reads a program text line by line: drops comments and the lines
    /// that are empty without them, and gives the token of every line that
    /// is left, in order.
    pub fn assemble(program: &str) -> (tokens: Vec<Token>)
        ensures
            tokens@.len() == kept_code(split_lines(program@)).len(),
            forall|k: int|
                0 <= k < tokens@.len() ==> (#[trigger] tokens@[k]).describes(
                    kept_code(split_lines(program@))[k],
                ),
    {
        let n = program.unicode_len();
        let mut tokens: Vec<Token> = Vec::new();
        let mut it = program.chars();
        let mut start: usize = 0;
        let mut i: usize = 0;
        let ghost mut finished: Seq<Seq<char>> = Seq::empty();
        assert(split_lines(program@.take(0)) =~~= finished.push(program@.subrange(0, 0)));
        loop
            invariant
                start <= i <= n == program@.len(),
                it.obeys_prophetic_iter_laws(),
                it.decrease() is Some,
                program@.take(i as int) + it.remaining() == program@,
                split_lines(program@.take(i as int)) == finished.push(
                    program@.subrange(start as int, i as int),
                ),
                tokens@.len() == kept_code(finished).len(),
                forall|k: int|
                    0 <= k < tokens@.len() ==> (#[trigger] tokens@[k]).describes(
                        kept_code(finished)[k],
                    ),
            ensures
                start <= i == n == program@.len(),
                split_lines(program@) == finished.push(program@.subrange(start as int, i as int)),
                tokens@.len() == kept_code(finished).len(),
                forall|k: int|
                    0 <= k < tokens@.len() ==> (#[trigger] tokens@[k]).describes(
                        kept_code(finished)[k],
                    ),
            decreases it.decrease()->0,
        {
            match it.next() {
                Some(c) => {
                    assert(it.remaining().len() + 1 + i == program@.len());
                    assert(c == program@[i as int]);
                    let ghost line = program@.subrange(start as int, i as int);
                    proof {
                        let upto = program@.take(i + 1);
                        assert(upto.drop_last() =~= program@.take(i as int));
                        assert(upto.last() == c);
                    }
                    if c == '\n' {
                        let text = program.substring_char(start, i);
                        Assembler::take_line(&mut tokens, text, Ghost(kept_code(finished)));
                        proof {
                            assert(finished.push(line).drop_last() =~= finished);
                            finished = finished.push(line);
                            assert(program@.subrange(i + 1, i + 1) =~= Seq::<char>::empty());
                        }
                        start = i + 1;
                    } else {
                        proof {
                            assert(finished.push(line).drop_last() =~= finished);
                            assert(program@.subrange(start as int, i + 1) =~= line.push(c));
                        }
                    }
                    i = i + 1;
                },
                None => {
                    assert(i == n);
                    assert(program@.take(i as int) =~= program@);
                    break;
                },
            }
        }
        let text = program.substring_char(start, i);
        Assembler::take_line(&mut tokens, text, Ghost(kept_code(finished)));
        proof {
            assert(finished.push(text@).drop_last() =~= finished);
        }
        tokens
    }
}

} // verus!
