//! Reading a line of the operator into a command: a verb, and after it the
//! number of an entry where the verb takes one, separated by white space.

use vstd::prelude::*;
use vstd::string::*;
use crate::command::{CommandError, CommandUser};

verus! {

/// Why a line of the operator was not read into a command.
#[derive(Debug, Clone, Copy, PartialEq, Eq, Structural)]
pub enum LineError {
    /// What follows the verb is not a number that names an entry.
    InvalidNumber,
    /// The verb and its number make no command.
    Command(CommandError),
}

/// Whether a character is white space.
pub open spec fn is_space(c: char) -> bool {
    let u = c as u32;
    ||| 0x09 <= u <= 0x0d
    ||| u == 0x20
    ||| u == 0x85
    ||| u == 0xa0
    ||| u == 0x1680
    ||| 0x2000 <= u <= 0x200a
    ||| u == 0x2028
    ||| u == 0x2029
    ||| u == 0x202f
    ||| u == 0x205f
    ||| u == 0x3000
}

/// Whether a character is a decimal digit.
pub open spec fn is_digit(c: char) -> bool {
    0x30 <= c as u32 <= 0x39
}

/// Where the first token at or after `from` begins: the place of the first
/// character that is no white space, or the end of the line.
pub open spec fn token_start(line: Seq<char>, from: int) -> int
    decreases line.len() - from,
{
    if from >= line.len() {
        line.len() as int
    } else if !is_space(line[from]) {
        from
    } else {
        token_start(line, from + 1)
    }
}

/// Where the token that begins at `from` ends: the place of the first white
/// space at or after `from`, or the end of the line.
pub open spec fn token_end(line: Seq<char>, from: int) -> int
    decreases line.len() - from,
{
    if from >= line.len() {
        line.len() as int
    } else if is_space(line[from]) {
        from
    } else {
        token_end(line, from + 1)
    }
}

/// The number that a sequence of decimal digits writes.
pub open spec fn digits_value(digits: Seq<char>) -> nat
    decreases digits.len(),
{
    if digits.len() == 0 {
        0
    } else {
        digits_value(digits.drop_last()) * 10 + (digits.last() as u32 - 0x30) as nat
    }
}

/// The number that decimal digits write: there is at least one digit and
/// nothing else, and the value names an entry.
pub open spec fn unsigned_number(digits: Seq<char>) -> Option<u32> {
    if digits.len() > 0 && (forall|i: int| 0 <= i < digits.len() ==> is_digit(#[trigger] digits[i]))
        && digits_value(digits) <= u32::MAX {
        Some(digits_value(digits) as u32)
    } else {
        None
    }
}

/// The number that a token writes: decimal digits with a plus sign in front
/// of them or none.
pub open spec fn number(token: Seq<char>) -> Option<u32> {
    if token.len() > 0 && token[0] == '+' {
        unsigned_number(token.drop_first())
    } else {
        unsigned_number(token)
    }
}

/// The command that a line stands for. A line of white space alone stands for
/// none. The first token is the verb; the second, where there is one, has to
/// be a number; what follows them is not read.
pub open spec fn line_command(line: Seq<char>) -> Result<Option<CommandUser>, LineError> {
    let verb_start = token_start(line, 0);
    let verb_end = token_end(line, verb_start);
    let number_start = token_start(line, verb_end);
    let number_end = token_end(line, number_start);
    if verb_start >= line.len() {
        Ok(None)
    } else if number_start < line.len() && number(line.subrange(number_start, number_end)) is None {
        Err(LineError::InvalidNumber)
    } else {
        let index = if number_start < line.len() {
            number(line.subrange(number_start, number_end))
        } else {
            None
        };
        match CommandUser::parsed(line.subrange(verb_start, verb_end), index) {
            Ok(command) => Ok(Some(command)),
            Err(e) => Err(LineError::Command(e)),
        }
    }
}

fn space(c: char) -> (r: bool)
    ensures
        r == is_space(c),
{
    let u = c as u32;
    (0x09 <= u && u <= 0x0d) || u == 0x20 || u == 0x85 || u == 0xa0 || u == 0x1680 || (0x2000 <= u && u
        <= 0x200a) || u == 0x2028 || u == 0x2029 || u == 0x202f || u == 0x205f || u == 0x3000
}

fn characters(line: &str) -> (r: Vec<char>)
    ensures
        r@ == line@,
{
    let mut r: Vec<char> = Vec::new();
    for c in it: line.chars()
        invariant
            it.seq() == line@,
            r@ == line@.take(it.index() as int),
    {
        r.push(c);
        assert(r@ =~= line@.take(it.index() + 1));
    }
    assert(line@.take(line@.len() as int) =~= line@);
    r
}

fn find_token_start(line: &Vec<char>, from: usize) -> (start: usize)
    requires
        from <= line@.len(),
    ensures
        start == token_start(line@, from as int),
        from <= start <= line@.len(),
{
    let mut start = from;
    while start < line.len() && space(line[start])
        invariant
            from <= start <= line@.len(),
            token_start(line@, from as int) == token_start(line@, start as int),
        decreases line@.len() - start,
    {
        start += 1;
    }
    start
}

fn find_token_end(line: &Vec<char>, from: usize) -> (end: usize)
    requires
        from <= line@.len(),
    ensures
        end == token_end(line@, from as int),
        from <= end <= line@.len(),
{
    let mut end = from;
    while end < line.len() && !space(line[end])
        invariant
            from <= end <= line@.len(),
            token_end(line@, from as int) == token_end(line@, end as int),
        decreases line@.len() - end,
    {
        end += 1;
    }
    end
}

/// A longer sequence of digits writes no smaller number than its beginning.
proof fn digits_value_grows(digits: Seq<char>, k: int)
    requires
        0 <= k <= digits.len(),
        forall|i: int| 0 <= i < digits.len() ==> is_digit(#[trigger] digits[i]),
    ensures
        digits_value(digits.take(k)) <= digits_value(digits),
    decreases digits.len() - k,
{
    if k < digits.len() {
        digits_value_grows(digits, k + 1);
        assert(digits.take(k + 1).drop_last() =~= digits.take(k));
        assert(digits.take(k + 1).last() == digits[k]);
        assert(is_digit(digits[k]));
    } else {
        assert(digits.take(k) =~= digits);
    }
}

/// Reads the number that the characters from `from` to `to` write.
fn read_number(line: &Vec<char>, from: usize, to: usize) -> (r: Option<u32>)
    requires
        from <= to <= line@.len(),
    ensures
        r == number(line@.subrange(from as int, to as int)),
{
    let ghost token = line@.subrange(from as int, to as int);
    let first = if from < to && line[from] == '+' {
        from + 1
    } else {
        from
    };
    let ghost digits = line@.subrange(first as int, to as int);
    proof {
        if first > from {
            assert(token[0] == '+');
            assert(token.drop_first() =~= digits);
        } else {
            assert(token =~= digits);
            if token.len() > 0 {
                assert(token[0] == line@[from as int]);
            }
        }
    }
    if first == to {
        return None;
    }
    let mut value: u64 = 0;
    let mut i = first;
    proof {
        assert(digits.take(0) =~= Seq::empty());
    }
    while i < to
        invariant
            first <= i <= to <= line@.len(),
            first < to,
            digits == line@.subrange(first as int, to as int),
            number(line@.subrange(from as int, to as int)) == unsigned_number(digits),
            forall|k: int| 0 <= k < i - first ==> is_digit(#[trigger] digits[k]),
            value == digits_value(digits.take(i - first)),
            value <= u32::MAX,
        decreases to - i,
    {
        let u = line[i] as u32;
        assert(line@[i as int] == digits[i - first]);
        if u < 0x30 || u > 0x39 {
            return None;
        }
        let grown = value * 10 + (u - 0x30) as u64;
        proof {
            assert(digits.take(i - first + 1).drop_last() =~= digits.take(i - first));
            assert(digits.take(i - first + 1).last() == digits[i - first]);
            assert(grown == digits_value(digits.take(i - first + 1)));
        }
        if grown > u32::MAX as u64 {
            proof {
                if forall|k: int| 0 <= k < digits.len() ==> is_digit(#[trigger] digits[k]) {
                    digits_value_grows(digits, i - first + 1);
                }
            }
            return None;
        }
        value = grown;
        i += 1;
    }
    proof {
        assert(digits.take(digits.len() as int) =~= digits);
    }
    Some(value as u32)
}

/// Reads a line of the operator into a command. A line of white space alone
/// gives no command. It fails with `InvalidNumber` where a second token is
/// there and writes no number, and otherwise with the error of
/// [`CommandUser::try_from`] where the verb and the number make no command.
pub fn read_command(line: &str) -> (r: Result<Option<CommandUser>, LineError>)
    ensures
        r == line_command(line@),
{
    let chars = characters(line);
    let verb_start = find_token_start(&chars, 0);
    if verb_start >= chars.len() {
        return Ok(None);
    }
    let verb_end = find_token_end(&chars, verb_start);
    let number_start = find_token_start(&chars, verb_end);
    let index = if number_start < chars.len() {
        let number_end = find_token_end(&chars, number_start);
        match read_number(&chars, number_start, number_end) {
            Some(index) => Some(index),
            None => {
                return Err(LineError::InvalidNumber);
            },
        }
    } else {
        None
    };
    let verb = line.substring_char(verb_start, verb_end);
    match CommandUser::try_from((verb, index)) {
        Ok(command) => Ok(Some(command)),
        Err(e) => Err(LineError::Command(e)),
    }
}

} // verus!
