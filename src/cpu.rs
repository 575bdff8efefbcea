//! The CPU: register file, instruction set and trap routines.

pub mod isa;
pub mod laws;
pub mod opcode;
pub mod register;
pub mod traps;

use vstd::prelude::*;
use crate::error::VmError;
use crate::memory::{MemState, Memory};
use crate::word::{FlagBit, add_mod_u16, flag_of, sign_extend};
use isa::{
    Effect, Machine, add_regs, and_regs, base_rel, br_regs, execute, indirect, indirect_target, packed_chars, jmp_regs,
    jsr_regs, lea_regs, load, not_regs, operand2, pc_rel, puts_run, putsp_run, set_with_flags,
    STRING_READ_LIMIT,
    store, trap_step,
};
use opcode::OpCode;
use register::{PC_START, Register, RegisterGroup};
use traps::TrapCode;

verus! {

/// What the host is asked to do after an instruction.
#[derive(Debug, Clone, PartialEq, Eq)]
pub enum Action {
    /// Nothing: fetch the next instruction.
    Continue,
    /// Write these bytes to the console and flush.
    Output(Vec<u8>),
    /// Write these bytes and flush, then read one byte from the console and
    /// hand it to [`Cpu::deliver_char`].
    Input(Vec<u8>),
}

impl Action {
    /// The request, as a value of the model.
    pub open spec fn effect(&self) -> Effect {
        match self {
            Action::Continue => Effect::Continue,
            Action::Output(v) => Effect::Output(v@),
            Action::Input(v) => Effect::Input(v@),
        }
    }
}

/// The outcome of an instruction, as a value of the model.
pub open spec fn outcome(r: Result<Action, VmError>) -> Result<Effect, VmError> {
    match r {
        Ok(a) => Ok(a.effect()),
        Err(e) => Err(e),
    }
}

/// The CPU: its register file and whether it is running.
pub struct Cpu {
    reg: RegisterGroup,
    running: bool,
}

/// The register named by the three bits of `ins` that start at bit `shift`.
fn reg_field(ins: u16, shift: u16) -> (r: Register)
    requires
        shift <= 9,
    ensures
        r.idx() == ((ins >> shift) & 7) as int,
{
    let v = (ins >> shift) & 7;
    assert((ins >> shift) & 7u16 < 8u16) by (bit_vector);
    Register::general(v)
}

impl Cpu {
    /// R0..R7, PC and COND, by index.
    pub closed spec fn regs(&self) -> Seq<u16> {
        self.reg@
    }

    /// Whether the CPU is running.
    pub closed spec fn spec_running(&self) -> bool {
        self.running
    }

    /// The register file holds its ten words.
    pub open spec fn wf(&self) -> bool {
        self.regs().len() == 10
    }

    /// The machine made of this CPU and a memory.
    pub open spec fn machine(&self, mem: MemState) -> Machine {
        Machine { regs: self.regs(), mem, running: self.spec_running() }
    }

    /// A stopped CPU whose registers are zero but PC, at [`PC_START`], and
    /// COND, at ZRO.
    pub fn new() -> (r: Cpu)
        ensures
            r.wf(),
            r.regs() == seq![0u16, 0, 0, 0, 0, 0, 0, 0, PC_START, crate::word::FLAG_ZRO],
            !r.spec_running(),
    {
        Cpu { reg: RegisterGroup::new(), running: false }
    }

    /// Stores `value` in `reg`.
    pub fn set_reg(&mut self, reg: Register, value: u16)
        requires
            old(self).wf(),
        ensures
            final(self).wf(),
            final(self).regs() == old(self).regs().update(reg.idx(), value),
            final(self).spec_running() == old(self).spec_running(),
    {
        self.reg.write(reg, value);
    }

    /// The word held in `reg`.
    pub fn get_reg(&self, reg: Register) -> (r: u16)
        requires
            self.wf(),
        ensures
            r == self.regs()[reg.idx()],
    {
        self.reg.read(reg)
    }

    /// Advances PC by one, modulo 2^16.
    pub fn add_pc(&mut self)
        requires
            old(self).wf(),
        ensures
            final(self).wf(),
            final(self).regs() == old(self).regs().update(8, crate::word::add16(old(self).regs()[8], 1)),
            final(self).spec_running() == old(self).spec_running(),
    {
        self.reg.add_pc();
    }

    /// Hands the CPU the byte that an [`Action::Input`] asked for: R0 takes it.
    pub fn deliver_char(&mut self, byte: u8)
        requires
            old(self).wf(),
        ensures
            final(self).wf(),
            final(self).regs() == old(self).regs().update(0, byte as u16),
            final(self).spec_running() == old(self).spec_running(),
    {
        self.reg.write(Register::R0, byte as u16);
    }

    /// Sets COND from the word in `reg`.
    fn update_flags(&mut self, reg: Register)
        requires
            old(self).wf(),
        ensures
            final(self).wf(),
            final(self).regs() == old(self).regs().update(9, flag_of(old(self).regs()[reg.idx()])),
            final(self).spec_running() == old(self).spec_running(),
    {
        let val = self.reg.read(reg);
        let flag = FlagBit::of_word(val);
        self.reg.write(Register::COND, flag.value());
    }

    /// Writes `value` to `reg` and sets COND from it.
    fn write_with_flags(&mut self, reg: Register, value: u16)
        requires
            old(self).wf(),
        ensures
            final(self).wf(),
            final(self).regs() == set_with_flags(old(self).regs(), reg.idx(), value),
            final(self).spec_running() == old(self).spec_running(),
    {
        self.reg.write(reg, value);
        self.update_flags(reg);
    }

    /// BR: branches by the PC-relative offset when a tested flag is set.
    pub fn br(&mut self, ins: u16)
        requires
            old(self).wf(),
        ensures
            final(self).wf(),
            final(self).regs() == br_regs(old(self).regs(), ins),
            final(self).spec_running() == old(self).spec_running(),
    {
        let pc_offset = sign_extend(ins & 0x1FF, 9);
        let cond_flag = (ins >> 9) & 0x7;
        let cond_reg = self.get_reg(Register::COND);
        if (cond_flag & cond_reg) != 0 {
            let pc = self.reg.read(Register::PC);
            self.set_reg(Register::PC, add_mod_u16(pc, pc_offset));
        }
    }

    /// The second operand of ADD and AND: a register or a sign-extended
    /// immediate.
    fn operand2(&self, ins: u16) -> (r: u16)
        requires
            self.wf(),
        ensures
            r == operand2(self.regs(), ins),
    {
        if (ins >> 5) & 0x1 != 0 {
            sign_extend(ins & 0x1F, 5)
        } else {
            assert((ins >> 0u16) & 7u16 == ins & 7u16) by (bit_vector);
            self.reg.read(reg_field(ins, 0))
        }
    }

    /// ADD: the destination takes the sum modulo 2^16; flags are set.
    pub fn add(&mut self, ins: u16)
        requires
            old(self).wf(),
        ensures
            final(self).wf(),
            final(self).regs() == add_regs(old(self).regs(), ins),
            final(self).spec_running() == old(self).spec_running(),
    {
        let dr = reg_field(ins, 9);
        let sr1 = reg_field(ins, 6);
        let b = self.operand2(ins);
        let val = add_mod_u16(self.reg.read(sr1), b);
        self.write_with_flags(dr, val);
    }

    /// LD: the destination takes the word at PC plus the offset; flags are set.
    pub fn ld(&mut self, ins: u16, mem: &mut Memory)
        requires
            old(self).wf(),
            old(mem).wf(),
        ensures
            final(self).wf(),
            final(mem).wf(),
            final(self).machine(final(mem)@) == load(
                old(self).machine(old(mem)@),
                ins,
                pc_rel(old(self).regs(), ins),
            ),
    {
        let dr = reg_field(ins, 9);
        let pc_offset = sign_extend(ins & 0x1FF, 9);
        let addr = add_mod_u16(self.reg.read(Register::PC), pc_offset);
        let val = mem.read(addr);
        self.write_with_flags(dr, val);
    }

    /// ST: the source register goes to PC plus the offset.
    pub fn st(&mut self, ins: u16, mem: &mut Memory)
        requires
            old(self).wf(),
            old(mem).wf(),
        ensures
            final(self).wf(),
            final(mem).wf(),
            final(self).machine(final(mem)@) == store(
                old(self).machine(old(mem)@),
                ins,
                pc_rel(old(self).regs(), ins),
            ),
    {
        let sr = reg_field(ins, 9);
        let pc_offset = sign_extend(ins & 0x1FF, 9);
        let addr = add_mod_u16(self.reg.read(Register::PC), pc_offset);
        mem.write(addr, self.reg.read(sr));
    }

    /// JSR and JSRR: R7 takes PC, then PC takes PC plus the offset or the
    /// base register.
    pub fn jsr(&mut self, ins: u16)
        requires
            old(self).wf(),
        ensures
            final(self).wf(),
            final(self).regs() == jsr_regs(old(self).regs(), ins),
            final(self).spec_running() == old(self).spec_running(),
    {
        let pc = self.reg.read(Register::PC);
        self.reg.write(Register::R7, pc);
        if ((ins >> 11) & 0x0001) == 1 {
            let pc_offset = sign_extend(ins & 0x07FF, 11);
            self.reg.write(Register::PC, add_mod_u16(pc, pc_offset));
        } else {
            let base = reg_field(ins, 6);
            let val = self.reg.read(base);
            self.reg.write(Register::PC, val);
        }
    }

    /// AND: the destination takes the bitwise and; flags are set.
    pub fn and(&mut self, ins: u16)
        requires
            old(self).wf(),
        ensures
            final(self).wf(),
            final(self).regs() == and_regs(old(self).regs(), ins),
            final(self).spec_running() == old(self).spec_running(),
    {
        let dr = reg_field(ins, 9);
        let sr1 = reg_field(ins, 6);
        let b = self.operand2(ins);
        let val = self.reg.read(sr1) & b;
        self.write_with_flags(dr, val);
    }

    /// LDR: the destination takes the word at the base register plus the
    /// offset; flags are set.
    pub fn ldr(&mut self, ins: u16, mem: &mut Memory)
        requires
            old(self).wf(),
            old(mem).wf(),
        ensures
            final(self).wf(),
            final(mem).wf(),
            final(self).machine(final(mem)@) == load(
                old(self).machine(old(mem)@),
                ins,
                base_rel(old(self).regs(), ins),
            ),
    {
        let dr = reg_field(ins, 9);
        let base = reg_field(ins, 6);
        let offset6 = sign_extend(ins & 0x003F, 6);
        let addr = add_mod_u16(self.reg.read(base), offset6);
        let val = mem.read(addr);
        self.write_with_flags(dr, val);
    }

    /// STR: the source register goes to the base register plus the offset.
    pub fn str(&mut self, ins: u16, mem: &mut Memory)
        requires
            old(self).wf(),
            old(mem).wf(),
        ensures
            final(self).wf(),
            final(mem).wf(),
            final(self).machine(final(mem)@) == store(
                old(self).machine(old(mem)@),
                ins,
                base_rel(old(self).regs(), ins),
            ),
    {
        let sr = reg_field(ins, 9);
        let base = reg_field(ins, 6);
        let offset6 = sign_extend(ins & 0x003F, 6);
        let addr = add_mod_u16(self.reg.read(base), offset6);
        mem.write(addr, self.reg.read(sr));
    }

    /// NOT: the destination takes the bitwise complement; flags are set.
    pub fn not(&mut self, ins: u16)
        requires
            old(self).wf(),
        ensures
            final(self).wf(),
            final(self).regs() == not_regs(old(self).regs(), ins),
            final(self).spec_running() == old(self).spec_running(),
    {
        let dr = reg_field(ins, 9);
        let sr = reg_field(ins, 6);
        let val = !self.reg.read(sr);
        self.write_with_flags(dr, val);
    }

    /// LDI: the destination takes the word whose address is at PC plus the
    /// offset; flags are set.
    pub fn ldi(&mut self, ins: u16, mem: &mut Memory)
        requires
            old(self).wf(),
            old(mem).wf(),
        ensures
            final(self).wf(),
            final(mem).wf(),
            final(self).machine(final(mem)@) == load(
                indirect(old(self).machine(old(mem)@), ins),
                ins,
                indirect_target(old(self).machine(old(mem)@), ins),
            ),
    {
        let dr = reg_field(ins, 9);
        let pc_offset = sign_extend(ins & 0x1FF, 9);
        let addr = add_mod_u16(self.reg.read(Register::PC), pc_offset);
        let target = mem.read(addr);
        let val = mem.read(target);
        self.write_with_flags(dr, val);
    }

    /// STI: the source register goes to the address held at PC plus the
    /// offset.
    pub fn sti(&mut self, ins: u16, mem: &mut Memory)
        requires
            old(self).wf(),
            old(mem).wf(),
        ensures
            final(self).wf(),
            final(mem).wf(),
            final(self).machine(final(mem)@) == store(
                indirect(old(self).machine(old(mem)@), ins),
                ins,
                indirect_target(old(self).machine(old(mem)@), ins),
            ),
    {
        let sr = reg_field(ins, 9);
        let pc_offset = sign_extend(ins & 0x1FF, 9);
        let addr = add_mod_u16(self.reg.read(Register::PC), pc_offset);
        let target = mem.read(addr);
        mem.write(target, self.reg.read(sr));
    }

    /// JMP: PC takes the base register.
    pub fn jmp(&mut self, ins: u16)
        requires
            old(self).wf(),
        ensures
            final(self).wf(),
            final(self).regs() == jmp_regs(old(self).regs(), ins),
            final(self).spec_running() == old(self).spec_running(),
    {
        let base = reg_field(ins, 6);
        let value = self.reg.read(base);
        self.reg.write(Register::PC, value);
    }

    /// LEA: the destination takes PC plus the offset; flags are set.
    pub fn lea(&mut self, ins: u16)
        requires
            old(self).wf(),
        ensures
            final(self).wf(),
            final(self).regs() == lea_regs(old(self).regs(), ins),
            final(self).spec_running() == old(self).spec_running(),
    {
        let dr = reg_field(ins, 9);
        let pc_offset = sign_extend(ins & 0x1FF, 9);
        let val = add_mod_u16(pc_offset, self.reg.read(Register::PC));
        self.write_with_flags(dr, val);
    }

    /// Whether the CPU is running.
    pub fn is_running(&self) -> (r: bool)
        ensures
            r == self.spec_running(),
    {
        self.running
    }

    /// Starts or stops the CPU.
    pub fn set_running(&mut self, running: bool)
        requires
            old(self).wf(),
        ensures
            final(self).wf(),
            final(self).regs() == old(self).regs(),
            final(self).spec_running() == running,
    {
        self.running = running;
    }

    /// A trap routine that reads a character into R0, after writing `prompt`.
    fn read_char(&mut self, mem: &mut Memory, prompt: Vec<u8>) -> (r: Action)
        requires
            old(self).wf(),
            old(mem).wf(),
        ensures
            final(self).wf(),
            final(mem).wf(),
            (final(self).machine(final(mem)@), Ok::<Effect, VmError>(r.effect())) == isa::read_char(
                old(self).machine(old(mem)@),
                prompt@,
            ),
    {
        match mem.take_key() {
            Some(b) => {
                self.reg.write(Register::R0, b as u16);
                if prompt.len() == 0 {
                    Action::Continue
                } else {
                    Action::Output(prompt)
                }
            },
            None => Action::Input(prompt),
        }
    }

    /// GETC: reads one character into R0, without echo.
    fn trap_getc(&mut self, mem: &mut Memory) -> (r: Action)
        requires
            old(self).wf(),
            old(mem).wf(),
        ensures
            final(self).wf(),
            final(mem).wf(),
            (final(self).machine(final(mem)@), Ok::<Effect, VmError>(r.effect())) == isa::read_char(
                old(self).machine(old(mem)@),
                seq![],
            ),
    {
        let prompt: Vec<u8> = Vec::new();
        assert(prompt@ =~= Seq::<u8>::empty());
        self.read_char(mem, prompt)
    }

    /// IN: writes a prompt, then reads one character into R0.
    fn trap_in(&mut self, mem: &mut Memory) -> (r: Action)
        requires
            old(self).wf(),
            old(mem).wf(),
        ensures
            final(self).wf(),
            final(mem).wf(),
            (final(self).machine(final(mem)@), Ok::<Effect, VmError>(r.effect())) == isa::read_char(
                old(self).machine(old(mem)@),
                isa::in_prompt(),
            ),
    {
        let prompt: Vec<u8> = vec![69u8, 110, 116, 101, 114, 32, 97, 32, 99, 104, 97, 114, 97, 99, 116, 101, 114, 58, 32];
        proof {
            assert(prompt@ =~= isa::in_prompt());
        }
        self.read_char(mem, prompt)
    }

    /// OUT: writes the low byte of R0.
    fn trap_out(&self) -> (r: Action)
        requires
            self.wf(),
        ensures
            r.effect() == Effect::Output(seq![self.regs()[0] as u8]),
    {
        let c = self.reg.read(Register::R0) as u8;
        let mut out: Vec<u8> = Vec::new();
        out.push(c);
        proof {
            assert(out@ =~= seq![self.regs()[0] as u8]);
        }
        Action::Output(out)
    }

    /// PUTS: the characters of the string at R0, one per word, up to the
    /// first zero word, the address wrapping past 0xFFFF.
    fn trap_puts(&self, mem: &mut Memory) -> (r: Vec<u8>)
        requires
            self.wf(),
            old(mem).wf(),
        ensures
            final(mem).wf(),
            (final(mem)@, r@) == puts_run(old(mem)@, self.regs()[0], STRING_READ_LIMIT as nat),
    {
        let mut addr: u16 = self.reg.read(Register::R0);
        let mut left: u32 = STRING_READ_LIMIT;
        let mut out: Vec<u8> = Vec::new();
        let ghost m0 = mem@;
        let ghost start = addr;
        proof {
            assert(out@ + puts_run(m0, start, left as nat).1 =~= puts_run(m0, start, left as nat).1);
        }
        loop
            invariant_except_break
                puts_run(m0, start, STRING_READ_LIMIT as nat) == (
                    puts_run(mem@, addr, left as nat).0,
                    out@ + puts_run(mem@, addr, left as nat).1,
                ),
            invariant
                mem.wf(),
            ensures
                puts_run(m0, start, STRING_READ_LIMIT as nat) == (mem@, out@),
            decreases left,
        {
            if left == 0 {
                assert(out@ + Seq::<u8>::empty() =~= out@);
                break;
            }
            let ghost before = mem@;
            let ghost out0 = out@;
            let ch = mem.read(addr);
            if ch == 0 {
                assert(out@ + Seq::<u8>::empty() =~= out@);
                break;
            }
            let next = add_mod_u16(addr, 1);
            let ghost rest = puts_run(mem@, next, (left - 1) as nat);
            assert(puts_run(before, addr, left as nat) == (rest.0, seq![ch as u8] + rest.1));
            out.push(ch as u8);
            assert(out0 + (seq![ch as u8] + rest.1) =~= out@ + rest.1);
            addr = next;
            left = left - 1;
        }
        out
    }

    /// PUTSP: the characters of the packed string at R0, two per word, up to
    /// the first zero word, the address wrapping past 0xFFFF.
    fn trap_putsp(&self, mem: &mut Memory) -> (r: Vec<u8>)
        requires
            self.wf(),
            old(mem).wf(),
        ensures
            final(mem).wf(),
            (final(mem)@, r@) == putsp_run(old(mem)@, self.regs()[0], STRING_READ_LIMIT as nat),
    {
        let mut addr: u16 = self.reg.read(Register::R0);
        let mut left: u32 = STRING_READ_LIMIT;
        let mut out: Vec<u8> = Vec::new();
        let ghost m0 = mem@;
        let ghost start = addr;
        proof {
            assert(out@ + putsp_run(m0, start, left as nat).1 =~= putsp_run(m0, start, left as nat).1);
        }
        loop
            invariant_except_break
                putsp_run(m0, start, STRING_READ_LIMIT as nat) == (
                    putsp_run(mem@, addr, left as nat).0,
                    out@ + putsp_run(mem@, addr, left as nat).1,
                ),
            invariant
                mem.wf(),
            ensures
                putsp_run(m0, start, STRING_READ_LIMIT as nat) == (mem@, out@),
            decreases left,
        {
            if left == 0 {
                assert(out@ + Seq::<u8>::empty() =~= out@);
                break;
            }
            let ghost before = mem@;
            let ghost out0 = out@;
            let ch = mem.read(addr);
            if ch == 0 {
                assert(out@ + Seq::<u8>::empty() =~= out@);
                break;
            }
            let next = add_mod_u16(addr, 1);
            let ghost rest = putsp_run(mem@, next, (left - 1) as nat);
            assert(putsp_run(before, addr, left as nat) == (rest.0, packed_chars(ch) + rest.1));
            let low_byte = (ch & 0xFF) as u8;
            let high_byte = (ch >> 8) as u8;
            out.push(low_byte);
            if high_byte != 0 {
                out.push(high_byte);
            }
            assert(out0 + (packed_chars(ch) + rest.1) =~= out@ + rest.1);
            addr = next;
            left = left - 1;
        }
        out
    }

    /// TRAP: runs the routine named by the low eight bits of `ins`; an
    /// unknown vector is refused.
    pub fn trap(&mut self, ins: u16, mem: &mut Memory) -> (r: Result<Action, VmError>)
        requires
            old(self).wf(),
            old(mem).wf(),
        ensures
            final(self).wf(),
            final(mem).wf(),
            (final(self).machine(final(mem)@), outcome(r)) == trap_step(old(self).machine(old(mem)@), ins),
    {
        match TrapCode::from_u16(ins & 0xFF) {
            Some(TrapCode::GETC) => Ok(self.trap_getc(mem)),
            Some(TrapCode::OUT) => Ok(self.trap_out()),
            Some(TrapCode::IN) => Ok(self.trap_in(mem)),
            Some(TrapCode::PUTS) => Ok(Action::Output(self.trap_puts(mem))),
            Some(TrapCode::PUTSP) => Ok(Action::Output(self.trap_putsp(mem))),
            Some(TrapCode::HALT) => {
                let line: Vec<u8> = vec![72u8, 65, 76, 84, 10];
                assert(line@ =~= isa::halt_line());
                self.running = false;
                Ok(Action::Output(line))
            },
            None => Err(VmError::UnknownTrap),
        }
    }

    /// RTI: not supported.
    pub fn rti(&self) -> (r: Result<Action, VmError>)
        ensures
            r == Err::<Action, VmError>(VmError::UnsupportedInstruction),
    {
        Err(VmError::UnsupportedInstruction)
    }

    /// RES: the reserved operation, which does nothing.
    pub fn res(&mut self)
        requires
            old(self).wf(),
        ensures
            *final(self) == *old(self),
    {
    }

    /// Executes `ins`, PC already advanced past it, as [`execute`] says.
    pub fn op(&mut self, ins: u16, mem: &mut Memory) -> (r: Result<Action, VmError>)
        requires
            old(self).wf(),
            old(mem).wf(),
        ensures
            final(self).wf(),
            final(mem).wf(),
            (final(self).machine(final(mem)@), outcome(r)) == execute(old(self).machine(old(mem)@), ins),
    {
        match OpCode::from_u16(ins >> 12) {
            Some(OpCode::BR) => {
                self.br(ins);
                Ok(Action::Continue)
            },
            Some(OpCode::ADD) => {
                self.add(ins);
                Ok(Action::Continue)
            },
            Some(OpCode::LD) => {
                self.ld(ins, mem);
                Ok(Action::Continue)
            },
            Some(OpCode::ST) => {
                self.st(ins, mem);
                Ok(Action::Continue)
            },
            Some(OpCode::JSR) => {
                self.jsr(ins);
                Ok(Action::Continue)
            },
            Some(OpCode::AND) => {
                self.and(ins);
                Ok(Action::Continue)
            },
            Some(OpCode::LDR) => {
                self.ldr(ins, mem);
                Ok(Action::Continue)
            },
            Some(OpCode::STR) => {
                self.str(ins, mem);
                Ok(Action::Continue)
            },
            Some(OpCode::RTI) => self.rti(),
            Some(OpCode::NOT) => {
                self.not(ins);
                Ok(Action::Continue)
            },
            Some(OpCode::LDI) => {
                self.ldi(ins, mem);
                Ok(Action::Continue)
            },
            Some(OpCode::STI) => {
                self.sti(ins, mem);
                Ok(Action::Continue)
            },
            Some(OpCode::JMP) => {
                self.jmp(ins);
                Ok(Action::Continue)
            },
            Some(OpCode::RES) => {
                self.res();
                Ok(Action::Continue)
            },
            Some(OpCode::LEA) => {
                self.lea(ins);
                Ok(Action::Continue)
            },
            Some(OpCode::TRAP) => self.trap(ins, mem),
            None => {
                assert((ins >> 12u16) < 16u16) by (bit_vector);
                Err(VmError::UnknownOpcode)
            },
        }
    }
}

} // verus!
