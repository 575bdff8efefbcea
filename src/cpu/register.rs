//! Register tags and the register file.

use vstd::prelude::*;
use crate::word::{FLAG_ZRO, is_flag};

verus! {

/// The value of PC when a CPU is created.
pub const PC_START: u16 = 0x3000;

/// The number of registers in the file: R0 to R7, PC and COND.
pub const REGISTER_COUNT: usize = 10;

/// The index of PC in the register file.
pub const PC_INDEX: usize = 8;

/// The index of COND in the register file.
pub const COND_INDEX: usize = 9;

/// A register of the file.
#[derive(Debug, Copy, Clone, PartialEq, Eq, Structural)]
pub enum Register {
    R0,
    R1,
    R2,
    R3,
    R4,
    R5,
    R6,
    R7,
    PC,
    COND,
}

impl Register {
    /// The index of this register in the file.
    pub open spec fn idx(self) -> int {
        match self {
            Register::R0 => 0,
            Register::R1 => 1,
            Register::R2 => 2,
            Register::R3 => 3,
            Register::R4 => 4,
            Register::R5 => 5,
            Register::R6 => 6,
            Register::R7 => 7,
            Register::PC => 8,
            Register::COND => 9,
        }
    }

    /// The index of this register in the file.
    pub fn index(self) -> (r: usize)
        ensures
            r as int == self.idx(),
            r < REGISTER_COUNT,
    {
        match self {
            Register::R0 => 0,
            Register::R1 => 1,
            Register::R2 => 2,
            Register::R3 => 3,
            Register::R4 => 4,
            Register::R5 => 5,
            Register::R6 => 6,
            Register::R7 => 7,
            Register::PC => 8,
            Register::COND => 9,
        }
    }

    /// The register with index `val`, if there is one.
    pub fn from_usize(val: usize) -> (r: Option<Register>)
        ensures
            r.is_some() <==> val < REGISTER_COUNT,
            r.is_some() ==> r.unwrap().idx() == val as int,
    {
        match val {
            0 => Some(Register::R0),
            1 => Some(Register::R1),
            2 => Some(Register::R2),
            3 => Some(Register::R3),
            4 => Some(Register::R4),
            5 => Some(Register::R5),
            6 => Some(Register::R6),
            7 => Some(Register::R7),
            8 => Some(Register::PC),
            9 => Some(Register::COND),
            _ => None,
        }
    }

    /// The register with index `val`, if there is one.
    pub fn from_u16(val: u16) -> (r: Option<Register>)
        ensures
            r.is_some() <==> (val as int) < REGISTER_COUNT as int,
            r.is_some() ==> r.unwrap().idx() == val as int,
    {
        match val {
            0 => Some(Register::R0),
            1 => Some(Register::R1),
            2 => Some(Register::R2),
            3 => Some(Register::R3),
            4 => Some(Register::R4),
            5 => Some(Register::R5),
            6 => Some(Register::R6),
            7 => Some(Register::R7),
            8 => Some(Register::PC),
            9 => Some(Register::COND),
            _ => None,
        }
    }

    /// The general-purpose register named by a 3-bit field of an instruction.
    pub fn general(val: u16) -> (r: Register)
        requires
            val < 8,
        ensures
            r.idx() == val as int,
    {
        match val {
            0 => Register::R0,
            1 => Register::R1,
            2 => Register::R2,
            3 => Register::R3,
            4 => Register::R4,
            5 => Register::R5,
            6 => Register::R6,
            _ => Register::R7,
        }
    }
}

/// The register file: ten words indexed by [`Register`].
pub struct RegisterGroup {
    reg: Vec<u16>,
}

impl View for RegisterGroup {
    type V = Seq<u16>;

    closed spec fn view(&self) -> Seq<u16> {
        self.reg@
    }
}

impl RegisterGroup {
    /// The file holds one word per register.
    pub open spec fn wf(&self) -> bool {
        self@.len() == REGISTER_COUNT
    }

    /// A file with every register zero but PC, which holds [`PC_START`], and
    /// COND, which holds ZRO.
    pub fn new() -> (r: Self)
        ensures
            r.wf(),
            r@ == seq![0u16, 0, 0, 0, 0, 0, 0, 0, PC_START, FLAG_ZRO],
            is_flag(r@[COND_INDEX as int]),
    {
        let mut regs = RegisterGroup { reg: vec![0u16; REGISTER_COUNT] };
        regs.write(Register::PC, PC_START);
        regs.write(Register::COND, FLAG_ZRO);
        assert(regs@ =~= seq![0u16, 0, 0, 0, 0, 0, 0, 0, PC_START, FLAG_ZRO]);
        regs
    }

    /// Stores `value` in `reg`.
    pub fn write(&mut self, reg: Register, value: u16)
        requires
            old(self).wf(),
        ensures
            final(self).wf(),
            final(self)@ == old(self)@.update(reg.idx(), value),
    {
        let i = reg.index();
        self.reg.set(i, value);
    }

    /// The word held in `reg`.
    pub fn read(&self, reg: Register) -> (r: u16)
        requires
            self.wf(),
        ensures
            r == self@[reg.idx()],
    {
        self.reg[reg.index()]
    }

    /// Advances PC by one, modulo 2^16.
    pub fn add_pc(&mut self)
        requires
            old(self).wf(),
        ensures
            final(self).wf(),
            final(self)@ == old(self)@.update(PC_INDEX as int, crate::word::add16(old(self)@[PC_INDEX as int], 1)),
    {
        let pc = self.read(Register::PC);
        self.write(Register::PC, crate::word::add_mod_u16(pc, 1));
    }
}

} // verus!
