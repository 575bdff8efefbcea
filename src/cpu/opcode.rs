//! The sixteen operation codes, held in bits 15..12 of an instruction.

use vstd::prelude::*;

verus! {

/// An operation code.
#[derive(Debug, Copy, Clone, PartialEq, Eq, Structural)]
pub enum OpCode {
    BR,
    ADD,
    LD,
    ST,
    JSR,
    AND,
    LDR,
    STR,
    RTI,
    NOT,
    LDI,
    STI,
    JMP,
    RES,
    LEA,
    TRAP,
}

impl OpCode {
    /// The numeric code of this operation.
    pub open spec fn code(self) -> int {
        match self {
            OpCode::BR => 0,
            OpCode::ADD => 1,
            OpCode::LD => 2,
            OpCode::ST => 3,
            OpCode::JSR => 4,
            OpCode::AND => 5,
            OpCode::LDR => 6,
            OpCode::STR => 7,
            OpCode::RTI => 8,
            OpCode::NOT => 9,
            OpCode::LDI => 10,
            OpCode::STI => 11,
            OpCode::JMP => 12,
            OpCode::RES => 13,
            OpCode::LEA => 14,
            OpCode::TRAP => 15,
        }
    }

    /// The operation with code `val`, if `val` is one of the sixteen codes.
    pub fn from_u16(val: u16) -> (r: Option<OpCode>)
        ensures
            r.is_some() <==> val < 16,
            r.is_some() ==> r.unwrap().code() == val as int,
    {
        match val {
            0 => Some(OpCode::BR),
            1 => Some(OpCode::ADD),
            2 => Some(OpCode::LD),
            3 => Some(OpCode::ST),
            4 => Some(OpCode::JSR),
            5 => Some(OpCode::AND),
            6 => Some(OpCode::LDR),
            7 => Some(OpCode::STR),
            8 => Some(OpCode::RTI),
            9 => Some(OpCode::NOT),
            10 => Some(OpCode::LDI),
            11 => Some(OpCode::STI),
            12 => Some(OpCode::JMP),
            13 => Some(OpCode::RES),
            14 => Some(OpCode::LEA),
            15 => Some(OpCode::TRAP),
            _ => None,
        }
    }

    /// The operation with code `val`, if `val` is one of the sixteen codes.
    pub fn from_usize(val: usize) -> (r: Option<OpCode>)
        ensures
            r.is_some() <==> val < 16,
            r.is_some() ==> r.unwrap().code() == val as int,
    {
        match val {
            0 => Some(OpCode::BR),
            1 => Some(OpCode::ADD),
            2 => Some(OpCode::LD),
            3 => Some(OpCode::ST),
            4 => Some(OpCode::JSR),
            5 => Some(OpCode::AND),
            6 => Some(OpCode::LDR),
            7 => Some(OpCode::STR),
            8 => Some(OpCode::RTI),
            9 => Some(OpCode::NOT),
            10 => Some(OpCode::LDI),
            11 => Some(OpCode::STI),
            12 => Some(OpCode::JMP),
            13 => Some(OpCode::RES),
            14 => Some(OpCode::LEA),
            15 => Some(OpCode::TRAP),
            _ => None,
        }
    }
}

} // verus!
