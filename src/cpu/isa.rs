//! The meaning of each instruction, as spec functions over the state of the
//! machine: the register file, the memory and the running flag.

use vstd::prelude::*;
use crate::error::VmError;
use crate::memory::{MemState, read_effect, read_value};
use crate::word::{add16, flag_of, sext};

verus! {

/// The state of the machine.
pub struct Machine {
    /// R0..R7, PC and COND, by index.
    pub regs: Seq<u16>,
    pub mem: MemState,
    pub running: bool,
}

/// A machine whose register file and memory have their sizes.
pub open spec fn machine_wf(s: Machine) -> bool {
    s.regs.len() == 10 && s.mem.data.len() == 0x10000
}

/// What an instruction asks of the console.
pub enum Effect {
    /// Nothing.
    Continue,
    /// Write these bytes and flush.
    Output(Seq<u8>),
    /// Write these bytes, flush, then read one byte into R0.
    Input(Seq<u8>),
}

/// The prompt that the IN trap writes.
pub open spec fn in_prompt() -> Seq<u8> {
    seq![69u8, 110, 116, 101, 114, 32, 97, 32, 99, 104, 97, 114, 97, 99, 116, 101, 114, 58, 32]
}

/// The line that the HALT trap writes.
pub open spec fn halt_line() -> Seq<u8> {
    seq![72u8, 65, 76, 84, 10]
}

/// Bits 15..12: the operation code.
pub open spec fn opcode_of(ins: u16) -> int {
    (ins >> 12u16) as int
}

/// Bits 11..9: the destination (or source) register.
pub open spec fn dr_of(ins: u16) -> int {
    ((ins >> 9u16) & 7) as int
}

/// Bits 8..6: the first source register, or the base register.
pub open spec fn sr1_of(ins: u16) -> int {
    ((ins >> 6u16) & 7) as int
}

/// Bits 2..0: the second source register.
pub open spec fn sr2_of(ins: u16) -> int {
    (ins & 7) as int
}

/// Bit 5: whether ADD and AND take an immediate operand.
pub open spec fn imm_flag(ins: u16) -> bool {
    (ins >> 5u16) & 1 != 0
}

/// Bits 4..0, sign-extended.
pub open spec fn imm5(ins: u16) -> u16 {
    sext(ins & 0x1F, 5)
}

/// Bits 5..0, sign-extended.
pub open spec fn off6(ins: u16) -> u16 {
    sext(ins & 0x3F, 6)
}

/// Bits 8..0, sign-extended.
pub open spec fn off9(ins: u16) -> u16 {
    sext(ins & 0x1FF, 9)
}

/// Bits 10..0, sign-extended.
pub open spec fn off11(ins: u16) -> u16 {
    sext(ins & 0x7FF, 11)
}

/// Bits 7..0: the trap vector.
pub open spec fn trap_vector(ins: u16) -> int {
    (ins & 0xFF) as int
}

/// Writes `v` to register `r` and sets COND from it.
pub open spec fn set_with_flags(regs: Seq<u16>, r: int, v: u16) -> Seq<u16> {
    regs.update(r, v).update(9, flag_of(v))
}

/// BR: adds the offset to PC when one of the tested flags is set in COND.
pub open spec fn br_regs(regs: Seq<u16>, ins: u16) -> Seq<u16> {
    if ((ins >> 9u16) & 7) & regs[9] != 0 {
        regs.update(8, add16(regs[8], off9(ins)))
    } else {
        regs
    }
}

/// The second operand of ADD and AND.
pub open spec fn operand2(regs: Seq<u16>, ins: u16) -> u16 {
    if imm_flag(ins) {
        imm5(ins)
    } else {
        regs[sr2_of(ins)]
    }
}

/// ADD: the sum of the operands modulo 2^16, with flags.
pub open spec fn add_regs(regs: Seq<u16>, ins: u16) -> Seq<u16> {
    set_with_flags(regs, dr_of(ins), add16(regs[sr1_of(ins)], operand2(regs, ins)))
}

/// AND: the bitwise and of the operands, with flags.
pub open spec fn and_regs(regs: Seq<u16>, ins: u16) -> Seq<u16> {
    set_with_flags(regs, dr_of(ins), regs[sr1_of(ins)] & operand2(regs, ins))
}

/// NOT: the bitwise complement of the source, with flags.
pub open spec fn not_regs(regs: Seq<u16>, ins: u16) -> Seq<u16> {
    set_with_flags(regs, dr_of(ins), !regs[sr1_of(ins)])
}

/// JSR and JSRR: R7 takes PC, then PC takes the target.
pub open spec fn jsr_regs(regs: Seq<u16>, ins: u16) -> Seq<u16> {
    let linked = regs.update(7, regs[8]);
    if (ins >> 11u16) & 1 == 1 {
        linked.update(8, add16(regs[8], off11(ins)))
    } else {
        linked.update(8, linked[sr1_of(ins)])
    }
}

/// JMP: PC takes the base register.
pub open spec fn jmp_regs(regs: Seq<u16>, ins: u16) -> Seq<u16> {
    regs.update(8, regs[sr1_of(ins)])
}

/// LEA: the destination takes PC plus the offset, with flags.
pub open spec fn lea_regs(regs: Seq<u16>, ins: u16) -> Seq<u16> {
    set_with_flags(regs, dr_of(ins), add16(regs[8], off9(ins)))
}

/// The address that LD, ST, LDI and STI start from: PC plus the offset.
pub open spec fn pc_rel(regs: Seq<u16>, ins: u16) -> u16 {
    add16(regs[8], off9(ins))
}

/// The address of LDR and STR: the base register plus the offset.
pub open spec fn base_rel(regs: Seq<u16>, ins: u16) -> u16 {
    add16(regs[sr1_of(ins)], off6(ins))
}

/// Loads the word at `addr` into the destination register, with flags.
pub open spec fn load(s: Machine, ins: u16, addr: u16) -> Machine {
    Machine {
        regs: set_with_flags(s.regs, dr_of(ins), read_value(s.mem, addr)),
        mem: read_effect(s.mem, addr),
        running: s.running,
    }
}

/// Stores the source register at `addr`.
pub open spec fn store(s: Machine, ins: u16, addr: u16) -> Machine {
    Machine {
        regs: s.regs,
        mem: MemState { data: s.mem.data.update(addr as int, s.regs[dr_of(ins)]), key: s.mem.key },
        running: s.running,
    }
}

/// Reads the indirection word of LDI and STI; the machine after the read.
pub open spec fn indirect(s: Machine, ins: u16) -> Machine {
    Machine { regs: s.regs, mem: read_effect(s.mem, pc_rel(s.regs, ins)), running: s.running }
}

/// The address that the indirection word of LDI and STI holds.
pub open spec fn indirect_target(s: Machine, ins: u16) -> u16 {
    read_value(s.mem, pc_rel(s.regs, ins))
}

/// The most words that PUTS and PUTSP read. No walk reaches it (see
/// `lemma_string_walk_ends`): the first read of an address other than KBSR
/// sets KBSR to zero, so a walk meets a zero word at KBSR by its second time
/// round memory.
pub const STRING_READ_LIMIT: u32 = 0x20001;

/// The output and the memory after writing the string that starts at `addr`,
/// one character per word, up to the first zero word. The address advances
/// modulo 2^16; at most `fuel` words are read.
pub open spec fn puts_run(m: MemState, addr: u16, fuel: nat) -> (MemState, Seq<u8>)
    decreases fuel,
{
    if fuel == 0 {
        (m, seq![])
    } else {
        let w = read_value(m, addr);
        let m1 = read_effect(m, addr);
        if w == 0 {
            (m1, seq![])
        } else {
            let rest = puts_run(m1, add16(addr, 1), (fuel - 1) as nat);
            (rest.0, seq![w as u8] + rest.1)
        }
    }
}

/// The characters of one word of a packed string: the low byte, then the
/// high byte unless it is zero.
pub open spec fn packed_chars(w: u16) -> Seq<u8> {
    let lo = (w & 0xFF) as u8;
    let hi = (w >> 8u16) as u8;
    if hi != 0 {
        seq![lo, hi]
    } else {
        seq![lo]
    }
}

/// The output and the memory after writing the packed string that starts at
/// `addr`, two characters per word, up to the first zero word. The address
/// advances modulo 2^16; at most `fuel` words are read.
pub open spec fn putsp_run(m: MemState, addr: u16, fuel: nat) -> (MemState, Seq<u8>)
    decreases fuel,
{
    if fuel == 0 {
        (m, seq![])
    } else {
        let w = read_value(m, addr);
        let m1 = read_effect(m, addr);
        if w == 0 {
            (m1, seq![])
        } else {
            let rest = putsp_run(m1, add16(addr, 1), (fuel - 1) as nat);
            (rest.0, packed_chars(w) + rest.1)
        }
    }
}

/// A trap routine that reads a character: a key that the keyboard has ready
/// goes to R0 at once; otherwise the console is asked for one.
pub open spec fn read_char(s: Machine, prompt: Seq<u8>) -> (Machine, Result<Effect, VmError>) {
    match s.mem.key {
        Some(b) => (
            Machine {
                regs: s.regs.update(0, b as u16),
                mem: MemState { data: s.mem.data, key: None },
                running: s.running,
            },
            Ok(if prompt.len() == 0 { Effect::Continue } else { Effect::Output(prompt) }),
        ),
        None => (s, Ok(Effect::Input(prompt))),
    }
}

/// TRAP: the routine named by the vector.
pub open spec fn trap_step(s: Machine, ins: u16) -> (Machine, Result<Effect, VmError>) {
    let v = trap_vector(ins);
    if v == 0x20 {
        read_char(s, seq![])
    } else if v == 0x21 {
        (s, Ok(Effect::Output(seq![s.regs[0] as u8])))
    } else if v == 0x22 {
        let run = puts_run(s.mem, s.regs[0], STRING_READ_LIMIT as nat);
        (Machine { regs: s.regs, mem: run.0, running: s.running }, Ok(Effect::Output(run.1)))
    } else if v == 0x23 {
        read_char(s, in_prompt())
    } else if v == 0x24 {
        let run = putsp_run(s.mem, s.regs[0], STRING_READ_LIMIT as nat);
        (Machine { regs: s.regs, mem: run.0, running: s.running }, Ok(Effect::Output(run.1)))
    } else if v == 0x25 {
        (Machine { regs: s.regs, mem: s.mem, running: false }, Ok(Effect::Output(halt_line())))
    } else {
        (s, Err(VmError::UnknownTrap))
    }
}

/// Executes one instruction, PC already advanced past it: the next state and
/// what the console is asked to do.
pub open spec fn execute(s: Machine, ins: u16) -> (Machine, Result<Effect, VmError>) {
    let op = opcode_of(ins);
    let regs_only = |r: Seq<u16>| (Machine { regs: r, mem: s.mem, running: s.running }, Ok(Effect::Continue));
    if op == 0 {
        regs_only(br_regs(s.regs, ins))
    } else if op == 1 {
        regs_only(add_regs(s.regs, ins))
    } else if op == 2 {
        (load(s, ins, pc_rel(s.regs, ins)), Ok(Effect::Continue))
    } else if op == 3 {
        (store(s, ins, pc_rel(s.regs, ins)), Ok(Effect::Continue))
    } else if op == 4 {
        regs_only(jsr_regs(s.regs, ins))
    } else if op == 5 {
        regs_only(and_regs(s.regs, ins))
    } else if op == 6 {
        (load(s, ins, base_rel(s.regs, ins)), Ok(Effect::Continue))
    } else if op == 7 {
        (store(s, ins, base_rel(s.regs, ins)), Ok(Effect::Continue))
    } else if op == 8 {
        (s, Err(VmError::UnsupportedInstruction))
    } else if op == 9 {
        regs_only(not_regs(s.regs, ins))
    } else if op == 10 {
        let t = indirect(s, ins);
        (load(t, ins, indirect_target(s, ins)), Ok(Effect::Continue))
    } else if op == 11 {
        let t = indirect(s, ins);
        (store(t, ins, indirect_target(s, ins)), Ok(Effect::Continue))
    } else if op == 12 {
        regs_only(jmp_regs(s.regs, ins))
    } else if op == 13 {
        (s, Ok(Effect::Continue))
    } else if op == 14 {
        regs_only(lea_regs(s.regs, ins))
    } else {
        trap_step(s, ins)
    }
}

/// Fetches the instruction at PC: the machine after the read, with PC
/// advanced by one modulo 2^16, and the instruction.
pub open spec fn fetch(s: Machine) -> (Machine, u16) {
    let pc = s.regs[8];
    (
        Machine { regs: s.regs.update(8, add16(pc, 1)), mem: read_effect(s.mem, pc), running: s.running },
        read_value(s.mem, pc),
    )
}

/// One cycle of the machine: fetch, then execute.
pub open spec fn step(s: Machine) -> (Machine, Result<Effect, VmError>) {
    let f = fetch(s);
    execute(f.0, f.1)
}

/// Whether a walk of reads that starts at `addr` meets a zero word within
/// `fuel` reads, the address advancing modulo 2^16.
pub open spec fn walk_ends(m: MemState, addr: u16, fuel: nat) -> bool
    decreases fuel,
{
    if fuel == 0 {
        false
    } else if read_value(m, addr) == 0 {
        true
    } else {
        walk_ends(read_effect(m, addr), add16(addr, 1), (fuel - 1) as nat)
    }
}

} // verus!
