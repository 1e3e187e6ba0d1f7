//! The error taxonomy of the machine: a flat set of fatal conditions, each
//! carrying enough data (opcode text, index, address) for the host to render
//! a precise diagnostic.

use vstd::prelude::*;

verus! {

/// A fatal condition raised by a component or by the execution engine.
/// None of these is retried or recovered internally; every one surfaces
/// immediately to the host.
#[derive(Debug)]
pub enum MachineError {
    /// The decoded opcode has no defined behavior. Carries the opcode as
    /// four uppercase hexadecimal digits.
    UnknownInstruction(String),
    /// A push was attempted on a call stack already at capacity.
    StackOverflow,
    /// A pop was attempted on an empty call stack.
    StackUnderflow,
    /// A register index at or beyond the register count.
    RegisterIndexOutOfBounds(u8),
    /// A memory address at or beyond the memory capacity.
    MemoryOutOfBounds(u16),
}

/// The mathematical model of a `MachineError`: the same variants, with the
/// opcode text abstracted to its character sequence.
pub enum ErrorModel {
    UnknownInstruction(Seq<char>),
    StackOverflow,
    StackUnderflow,
    RegisterIndexOutOfBounds(u8),
    MemoryOutOfBounds(u16),
}

impl View for MachineError {
    type V = ErrorModel;

    open spec fn view(&self) -> ErrorModel {
        match self {
            MachineError::UnknownInstruction(text) => ErrorModel::UnknownInstruction(text@),
            MachineError::StackOverflow => ErrorModel::StackOverflow,
            MachineError::StackUnderflow => ErrorModel::StackUnderflow,
            MachineError::RegisterIndexOutOfBounds(index) => ErrorModel::RegisterIndexOutOfBounds(
                *index,
            ),
            MachineError::MemoryOutOfBounds(addr) => ErrorModel::MemoryOutOfBounds(*addr),
        }
    }
}

/// The character for one value below sixteen, in uppercase hexadecimal.
pub open spec fn spec_hex_digit(value: int) -> char {
    if value == 0 {
        '0'
    } else if value == 1 {
        '1'
    } else if value == 2 {
        '2'
    } else if value == 3 {
        '3'
    } else if value == 4 {
        '4'
    } else if value == 5 {
        '5'
    } else if value == 6 {
        '6'
    } else if value == 7 {
        '7'
    } else if value == 8 {
        '8'
    } else if value == 9 {
        '9'
    } else if value == 10 {
        'A'
    } else if value == 11 {
        'B'
    } else if value == 12 {
        'C'
    } else if value == 13 {
        'D'
    } else if value == 14 {
        'E'
    } else {
        'F'
    }
}

/// A 16-bit value as exactly four uppercase hexadecimal digits.
pub open spec fn spec_hex_u16(value: u16) -> Seq<char> {
    seq![
        spec_hex_digit(value as int / 0x1000),
        spec_hex_digit((value as int / 0x100) % 16),
        spec_hex_digit((value as int / 16) % 16),
        spec_hex_digit(value as int % 16),
    ]
}

/// An 8-bit value in decimal, without leading zeros.
pub open spec fn spec_decimal_u8(value: u8) -> Seq<char> {
    if value < 10 {
        seq![spec_hex_digit(value as int)]
    } else if value < 100 {
        seq![spec_hex_digit(value as int / 10), spec_hex_digit(value as int % 10)]
    } else {
        seq![
            spec_hex_digit(value as int / 100),
            spec_hex_digit((value as int / 10) % 10),
            spec_hex_digit(value as int % 10),
        ]
    }
}

/// The diagnostic text of an error.
pub open spec fn spec_message(e: ErrorModel) -> Seq<char> {
    match e {
        ErrorModel::UnknownInstruction(text) => "Unknown instruction: "@ + text,
        ErrorModel::StackOverflow => "Stack overflow"@,
        ErrorModel::StackUnderflow => "Stack underflow"@,
        ErrorModel::RegisterIndexOutOfBounds(index) => "Register index out of bounds: "@
            + spec_decimal_u8(index),
        ErrorModel::MemoryOutOfBounds(addr) => "Memory out of bounds: "@ + spec_hex_u16(addr),
    }
}

fn hex_digit_str(value: u8) -> (r: &'static str)
    requires
        value < 16,
    ensures
        r@ == seq![spec_hex_digit(value as int)],
{
    proof {
        reveal_strlit("0");
        reveal_strlit("1");
        reveal_strlit("2");
        reveal_strlit("3");
        reveal_strlit("4");
        reveal_strlit("5");
        reveal_strlit("6");
        reveal_strlit("7");
        reveal_strlit("8");
        reveal_strlit("9");
        reveal_strlit("A");
        reveal_strlit("B");
        reveal_strlit("C");
        reveal_strlit("D");
        reveal_strlit("E");
        reveal_strlit("F");
    }
    let r = match value {
        0 => "0",
        1 => "1",
        2 => "2",
        3 => "3",
        4 => "4",
        5 => "5",
        6 => "6",
        7 => "7",
        8 => "8",
        9 => "9",
        10 => "A",
        11 => "B",
        12 => "C",
        13 => "D",
        14 => "E",
        _ => "F",
    };
    proof {
        assert(r@ =~= seq![spec_hex_digit(value as int)]);
    }
    r
}

/// A 16-bit value rendered as four uppercase hexadecimal digits, as the
/// engine stores it inside `MachineError::UnknownInstruction`.
pub fn hex_u16_string(value: u16) -> (r: String)
    ensures
        r@ == spec_hex_u16(value),
{
    let mut s = String::new();
    s.append(hex_digit_str((value / 0x1000) as u8));
    s.append(hex_digit_str(((value / 0x100) % 16) as u8));
    s.append(hex_digit_str(((value / 16) % 16) as u8));
    s.append(hex_digit_str((value % 16) as u8));
    proof {
        assert(s@ =~= spec_hex_u16(value));
    }
    s
}

fn append_decimal_u8(s: &mut String, value: u8)
    ensures
        final(s)@ == old(s)@ + spec_decimal_u8(value),
{
    if value >= 100 {
        s.append(hex_digit_str(value / 100));
        s.append(hex_digit_str((value / 10) % 10));
        s.append(hex_digit_str(value % 10));
    } else if value >= 10 {
        s.append(hex_digit_str(value / 10));
        s.append(hex_digit_str(value % 10));
    } else {
        s.append(hex_digit_str(value));
    }
    proof {
        assert(s@ =~= old(s)@ + spec_decimal_u8(value));
    }
}

impl MachineError {
    /// The diagnostic text of this error, exactly as `spec_message` states it.
    pub fn message(&self) -> (r: String)
        ensures
            r@ == spec_message(self@),
    {
        match self {
            MachineError::UnknownInstruction(text) => {
                let mut s = String::from_str("Unknown instruction: ");
                s.append(text.as_str());
                s
            },
            MachineError::StackOverflow => String::from_str("Stack overflow"),
            MachineError::StackUnderflow => String::from_str("Stack underflow"),
            MachineError::RegisterIndexOutOfBounds(index) => {
                let mut s = String::from_str("Register index out of bounds: ");
                append_decimal_u8(&mut s, *index);
                s
            },
            MachineError::MemoryOutOfBounds(addr) => {
                let mut s = String::from_str("Memory out of bounds: ");
                let hex = hex_u16_string(*addr);
                s.append(hex.as_str());
                s
            },
        }
    }
}

} // verus!
