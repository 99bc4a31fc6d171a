//! What the operator can ask for, and how a line of input chooses it.

use vstd::prelude::*;
use vstd::string::*;

use crate::tag::is_digit;
use crate::text::{trim, trimmed};

verus! {

/// One action of the tool.
#[derive(Clone, Copy, Debug, PartialEq, Eq, Structural)]
pub enum Command {
    Upload,
    Download,
    Deploy,
    Exit,
}

/// Why a line of input chooses no command.
#[derive(Clone, Copy, Debug, PartialEq, Eq, Structural)]
pub enum ChoiceError {
    /// The line is no number that fits 32 bits.
    NotANumber,
    /// The number stands for no command.
    NoSuchOption,
}

/// The command that stands under `number` in the menu.
pub open spec fn command_numbered(number: u32) -> Option<Command> {
    if number == 1 {
        Some(Command::Upload)
    } else if number == 2 {
        Some(Command::Download)
    } else if number == 3 {
        Some(Command::Deploy)
    } else if number == 4 {
        Some(Command::Exit)
    } else {
        None
    }
}

/// The value of a decimal digit.
pub open spec fn digit_value(c: char) -> nat {
    (c as u32 - '0' as u32) as nat
}

/// The number that a sequence of decimal digits writes.
pub open spec fn decimal(digits: Seq<char>) -> nat
    decreases digits.len(),
{
    if digits.len() == 0 {
        0
    } else {
        decimal(digits.drop_last()) * 10 + digit_value(digits.last())
    }
}

/// Whether every character is a decimal digit.
pub open spec fn all_digits(s: Seq<char>) -> bool {
    forall|i: int| 0 <= i < s.len() ==> is_digit(#[trigger] s[i])
}

/// The digits of a number text: what follows the optional plus sign.
pub open spec fn digits_of(s: Seq<char>) -> Seq<char> {
    if s.len() > 0 && s[0] == '+' {
        s.drop_first()
    } else {
        s
    }
}

/// The unsigned number that `s` writes: an optional plus sign and at least
/// one decimal digit, with a value that fits 32 bits.
pub open spec fn unsigned_of(s: Seq<char>) -> Option<u32> {
    let digits = digits_of(s);
    if digits.len() > 0 && all_digits(digits) && decimal(digits) <= u32::MAX {
        Some(decimal(digits) as u32)
    } else {
        None
    }
}

/// The command that a line of input chooses: the line is trimmed, read as a
/// number, and the number looked up in the menu.
pub open spec fn choice_of(line: Seq<char>) -> Result<Command, ChoiceError> {
    match unsigned_of(trimmed(line)) {
        None => Err(ChoiceError::NotANumber),
        Some(number) => match command_numbered(number) {
            Some(command) => Ok(command),
            None => Err(ChoiceError::NoSuchOption),
        },
    }
}

/// More digits never write a smaller number.
proof fn lemma_decimal_grows(digits: Seq<char>, shorter: int)
    requires
        0 <= shorter <= digits.len(),
    ensures
        decimal(digits.take(shorter)) <= decimal(digits),
    decreases digits.len(),
{
    if shorter < digits.len() {
        lemma_decimal_grows(digits.drop_last(), shorter);
        assert(digits.drop_last().take(shorter) == digits.take(shorter));
    } else {
        assert(digits.take(shorter) == digits);
    }
}

/// Reads `text` as an unsigned number of 32 bits.
pub fn parse_unsigned(text: &str) -> (number: Option<u32>)
    ensures
        number == unsigned_of(text@),
{
    let n: usize = text.unicode_len();
    let first: usize = if n > 0 && text.get_char(0) == '+' {
        1
    } else {
        0
    };
    if first == n {
        return None;
    }
    let ghost digits = digits_of(text@);
    let mut value: u64 = 0;
    let mut i: usize = first;
    while i < n
        invariant
            first <= i <= n,
            n == text@.len(),
            digits == digits_of(text@),
            digits == text@.subrange(first as int, n as int),
            forall|j: int| 0 <= j < i - first ==> is_digit(#[trigger] digits[j]),
            value == decimal(digits.take(i - first)),
            value <= u32::MAX,
        decreases n - i,
    {
        let c = text.get_char(i);
        if !('0' <= c && c <= '9') {
            assert(!is_digit(digits[i - first]));
            return None;
        }
        let digit: u64 = (c as u32 - '0' as u32) as u64;
        let ghost longer = digits.take(i - first + 1);
        assert(longer.drop_last() == digits.take(i - first));
        value = value * 10 + digit;
        if value > u32::MAX as u64 {
            proof {
                lemma_decimal_grows(digits, i - first + 1);
            }
            return None;
        }
        i = i + 1;
    }
    assert(digits.take(n - first) == digits);
    Some(value as u32)
}

impl Command {
    /// The command chosen by its number in the menu, 1 to 4.
    pub fn from_number(number: u32) -> (command: Option<Command>)
        ensures
            command == command_numbered(number),
    {
        match number {
            1 => Some(Command::Upload),
            2 => Some(Command::Download),
            3 => Some(Command::Deploy),
            4 => Some(Command::Exit),
            _ => None,
        }
    }

    /// The command that a line of input chooses.
    pub fn parse(line: &str) -> (choice: Result<Command, ChoiceError>)
        ensures
            choice == choice_of(line@),
    {
        let text = trim(line);
        match parse_unsigned(text.as_str()) {
            None => Err(ChoiceError::NotANumber),
            Some(number) => match Command::from_number(number) {
                Some(command) => Ok(command),
                None => Err(ChoiceError::NoSuchOption),
            },
        }
    }
}

} // verus!
