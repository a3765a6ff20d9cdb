//! From a matched command line to an instruction.
//!
//! The command line has four subcommands: `print`, `add <NEW>`, `rm <NUM>`
//! and `modify <NUM> --new <NEW>`. Whatever splits the arguments hands over
//! the name of the subcommand and the values of `NUM` and `NEW`, as far as
//! they were given; `parse` says which instruction that is.

use crate::api::Instruction;
use vstd::prelude::*;

verus! {

/// Why a command line is no instruction.
#[derive(Debug, Clone, Copy, PartialEq, Eq, Structural)]
pub enum ParseError {
    /// No subcommand was given.
    NoCommand,
    /// The subcommand is none of the four.
    UnknownCommand,
    /// `rm` or `modify` came without a position.
    MissingIndex,
    /// The position is no positive whole number that fits in a `usize`.
    InvalidIndex,
    /// `add` or `modify` came without a text.
    MissingText,
}

/// The value of a decimal digit.
pub open spec fn digit(c: char) -> Option<nat> {
    if c == '0' {
        Some(0)
    } else if c == '1' {
        Some(1)
    } else if c == '2' {
        Some(2)
    } else if c == '3' {
        Some(3)
    } else if c == '4' {
        Some(4)
    } else if c == '5' {
        Some(5)
    } else if c == '6' {
        Some(6)
    } else if c == '7' {
        Some(7)
    } else if c == '8' {
        Some(8)
    } else if c == '9' {
        Some(9)
    } else {
        None
    }
}

/// One or more decimal digits and nothing else.
pub open spec fn is_numeral(s: Seq<char>) -> bool {
    s.len() > 0 && forall|i: int| 0 <= i < s.len() ==> digit(#[trigger] s[i]) is Some
}

/// The number that a row of decimal digits stands for. A character that is
/// no digit counts as 0.
pub open spec fn numeral_value(s: Seq<char>) -> nat
    decreases s.len(),
{
    if s.len() == 0 {
        0
    } else {
        let last = match digit(s.last()) {
            Some(d) => d,
            None => 0,
        };
        numeral_value(s.drop_last()) * 10 + last
    }
}

/// The position that a text names: decimal digits, with or without a `+` in
/// front, whose value is at least 1 and fits in a `usize`.
pub open spec fn index_of(s: Seq<char>) -> Option<usize> {
    let numeral = if s.len() > 0 && s[0] == '+' {
        s.drop_first()
    } else {
        s
    };
    if is_numeral(numeral) && 1 <= numeral_value(numeral) <= usize::MAX {
        Some(numeral_value(numeral) as usize)
    } else {
        None
    }
}

/// The position that the value of `NUM` names.
pub open spec fn index_in(num: Option<String>) -> Result<usize, ParseError> {
    match num {
        None => Err(ParseError::MissingIndex),
        Some(text) => match index_of(text@) {
            Some(index) => Ok(index),
            None => Err(ParseError::InvalidIndex),
        },
    }
}

/// What was found on the command line.
#[derive(Debug, PartialEq, Eq)]
pub struct Matches {
    /// The name of the subcommand, if there was one.
    pub subcommand: Option<String>,
    /// The value of `NUM`, the position of a task.
    pub num: Option<String>,
    /// The value of `NEW`, the text of a task.
    pub new: Option<String>,
}

impl Matches {
    /// The instruction that the command line means, over the characters of
    /// its text. `modify` looks at the position first, then at the text. A
    /// value that the subcommand has no use for is passed over.
    pub open spec fn meaning(self) -> Result<Instruction<Seq<char>>, ParseError> {
        match self.subcommand {
            None => Err(ParseError::NoCommand),
            Some(name) => {
                if name@ == "add"@ {
                    match self.new {
                        Some(text) => Ok(Instruction::Add(text@)),
                        None => Err(ParseError::MissingText),
                    }
                } else if name@ == "rm"@ {
                    match index_in(self.num) {
                        Ok(index) => Ok(Instruction::Remove(index)),
                        Err(e) => Err(e),
                    }
                } else if name@ == "modify"@ {
                    match (index_in(self.num), self.new) {
                        (Err(e), _) => Err(e),
                        (Ok(_), None) => Err(ParseError::MissingText),
                        (Ok(index), Some(text)) => Ok(Instruction::Modify(index, text@)),
                    }
                } else if name@ == "print"@ {
                    Ok(Instruction::Print)
                } else {
                    Err(ParseError::UnknownCommand)
                }
            },
        }
    }
}

/// A longer row of digits stands for no smaller number than its beginning.
proof fn lemma_numeral_grows(s: Seq<char>, n: int)
    requires
        0 <= n <= s.len(),
    ensures
        numeral_value(s.take(n)) <= numeral_value(s),
    decreases s.len(),
{
    if n == s.len() {
        assert(s.take(n) =~= s);
    } else {
        lemma_numeral_grows(s.drop_last(), n);
        assert(s.drop_last().take(n) =~= s.take(n));
    }
}

fn digit_of(c: char) -> (d: Option<usize>)
    ensures
        match d {
            Some(v) => digit(c) == Some(v as nat),
            None => digit(c) is None,
        },
{
    match c {
        '0' => Some(0),
        '1' => Some(1),
        '2' => Some(2),
        '3' => Some(3),
        '4' => Some(4),
        '5' => Some(5),
        '6' => Some(6),
        '7' => Some(7),
        '8' => Some(8),
        '9' => Some(9),
        _ => None,
    }
}

/// Reads a position: `"3"` and `"+3"` are 3; `""`, `"0"`, `"-1"`, `"3a"` and a
/// number too large for a `usize` are none.
pub fn parse_index(text: &str) -> (index: Option<usize>)
    ensures
        index == index_of(text@),
{
    let ghost start: int = if text@.len() > 0 && text@[0] == '+' {
        1
    } else {
        0
    };
    let ghost numeral = text@.skip(start);
    assert(numeral =~= if text@.len() > 0 && text@[0] == '+' {
        text@.drop_first()
    } else {
        text@
    });
    let mut first = true;
    let mut value: usize = 0;
    for c in it: text.chars()
        invariant
            it.seq() == text@,
            first == (it.index() == 0),
            start == if text@.len() > 0 && text@[0] == '+' {
                1int
            } else {
                0int
            },
            numeral == text@.skip(start),
            numeral == if text@.len() > 0 && text@[0] == '+' {
                text@.drop_first()
            } else {
                text@
            },
            forall|j: int| 0 <= j < it.index() - start ==> digit(#[trigger] numeral[j]) is Some,
            it.index() >= start ==> value == numeral_value(numeral.take(it.index() - start)),
            it.index() < start ==> value == 0,
    {
        if first && c == '+' {
        } else {
            let ghost seen = numeral.take(it.index() - start + 1);
            assert(seen.drop_last() =~= numeral.take(it.index() - start));
            assert(seen.last() == c);
            let d = match digit_of(c) {
                Some(d) => d,
                None => {
                    assert(digit(numeral[it.index() - start]) is None);
                    return None;
                },
            };
            if value > (usize::MAX - d) / 10 {
                proof {
                    lemma_numeral_grows(numeral, it.index() - start + 1);
                }
                return None;
            }
            value = value * 10 + d;
        }
        first = false;
    }
    assert(numeral.take(text@.len() - start) =~= numeral);
    if value == 0 {
        None
    } else {
        Some(value)
    }
}

fn is_word(text: &String, word: &str) -> (same: bool)
    ensures
        same == (text@ == word@),
{
    let word = word.to_owned();
    *text == word
}

fn read_index(num: &Option<String>) -> (result: Result<usize, ParseError>)
    ensures
        result == index_in(*num),
{
    match num {
        None => Err(ParseError::MissingIndex),
        Some(text) => match parse_index(text.as_str()) {
            Some(index) => Ok(index),
            None => Err(ParseError::InvalidIndex),
        },
    }
}

/// The instruction that a command line means, or why it means none.
pub fn parse(matches: &Matches) -> (result: Result<Instruction<String>, ParseError>)
    ensures
        match result {
            Ok(inst) => matches.meaning() == Ok::<Instruction<Seq<char>>, ParseError>(inst@),
            Err(e) => matches.meaning() == Err::<Instruction<Seq<char>>, ParseError>(e),
        },
{
    let name = match &matches.subcommand {
        None => {
            return Err(ParseError::NoCommand);
        },
        Some(name) => name,
    };
    if is_word(name, "add") {
        match &matches.new {
            Some(text) => Ok(Instruction::Add(text.clone())),
            None => Err(ParseError::MissingText),
        }
    } else if is_word(name, "rm") {
        match read_index(&matches.num) {
            Ok(index) => Ok(Instruction::Remove(index)),
            Err(e) => Err(e),
        }
    } else if is_word(name, "modify") {
        let index = match read_index(&matches.num) {
            Ok(index) => index,
            Err(e) => {
                return Err(e);
            },
        };
        match &matches.new {
            Some(text) => Ok(Instruction::Modify(index, text.clone())),
            None => Err(ParseError::MissingText),
        }
    } else if is_word(name, "print") {
        Ok(Instruction::Print)
    } else {
        Err(ParseError::UnknownCommand)
    }
}

} // verus!
