//! The trap vectors, held in the low eight bits of a TRAP instruction.

use vstd::prelude::*;

verus! {

/// A trap routine.
#[derive(Debug, Copy, Clone, PartialEq, Eq, Structural)]
pub enum TrapCode {
    GETC,
    OUT,
    PUTS,
    IN,
    PUTSP,
    HALT,
}

impl TrapCode {
    /// The vector of this routine.
    pub open spec fn vector(self) -> int {
        match self {
            TrapCode::GETC => 0x20,
            TrapCode::OUT => 0x21,
            TrapCode::PUTS => 0x22,
            TrapCode::IN => 0x23,
            TrapCode::PUTSP => 0x24,
            TrapCode::HALT => 0x25,
        }
    }

    /// The routine with vector `val`, if there is one.
    pub fn from_u16(val: u16) -> (r: Option<TrapCode>)
        ensures
            r.is_some() <==> 0x20 <= val <= 0x25,
            r.is_some() ==> r.unwrap().vector() == val as int,
    {
        match val {
            0x20 => Some(TrapCode::GETC),
            0x21 => Some(TrapCode::OUT),
            0x22 => Some(TrapCode::PUTS),
            0x23 => Some(TrapCode::IN),
            0x24 => Some(TrapCode::PUTSP),
            0x25 => Some(TrapCode::HALT),
            _ => None,
        }
    }
}

} // verus!
