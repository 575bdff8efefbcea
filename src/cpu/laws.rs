//! Laws of the instruction set, proved over [`execute`].

use vstd::prelude::*;
use crate::cpu::isa::{
    Machine, STRING_READ_LIMIT, dr_of, execute, machine_wf, walk_ends, imm5, imm_flag, off9, opcode_of, operand2, pc_rel, sr1_of, sr2_of,
};
use crate::memory::{KBSR, MemState, read_effect};
use crate::word::{add16, flag_of, is_flag, lemma_flag_of_word, lemma_sext_signed, pow2_16, signed_field};

verus! {

/// The operation codes of the instructions that write a general-purpose
/// register and set the flags: ADD, LD, AND, LDR, NOT, LDI and LEA.
pub open spec fn sets_flags(op: int) -> bool {
    op == 1 || op == 2 || op == 5 || op == 6 || op == 9 || op == 10 || op == 14
}

proof fn lemma_fields(ins: u16)
    ensures
        0 <= dr_of(ins) < 8,
        0 <= sr1_of(ins) < 8,
        0 <= sr2_of(ins) < 8,
        0 <= opcode_of(ins) < 16,
{
    assert((ins >> 9u16) & 7u16 < 8u16) by (bit_vector);
    assert((ins >> 6u16) & 7u16 < 8u16) by (bit_vector);
    assert(ins & 7u16 < 8u16) by (bit_vector);
    assert(ins >> 12u16 < 16u16) by (bit_vector);
}

/// Every instruction that sets the flags leaves in COND exactly one of POS,
/// ZRO and NEG, the one that the new value of its destination register
/// calls for.
pub proof fn lemma_flags_follow_destination(s: Machine, ins: u16)
    requires
        machine_wf(s),
        sets_flags(opcode_of(ins)),
    ensures
        is_flag(execute(s, ins).0.regs[9]),
        execute(s, ins).0.regs[9] == flag_of(execute(s, ins).0.regs[dr_of(ins)]),
{
    lemma_fields(ins);
    let v = execute(s, ins).0.regs[dr_of(ins)];
    lemma_flag_of_word(v);
}

/// ADD with a register operand adds modulo 2^16; with an immediate operand
/// it adds the sign-extended immediate modulo 2^16.
pub proof fn lemma_add_is_modular(s: Machine, ins: u16)
    requires
        machine_wf(s),
        opcode_of(ins) == 1,
    ensures
        !imm_flag(ins) ==> execute(s, ins).0.regs[dr_of(ins)] as int
            == (s.regs[sr1_of(ins)] as int + s.regs[sr2_of(ins)] as int) % 0x10000,
        imm_flag(ins) ==> execute(s, ins).0.regs[dr_of(ins)] as int
            == (s.regs[sr1_of(ins)] as int + imm5(ins) as int) % 0x10000,
{
    lemma_fields(ins);
}

/// AND takes the bitwise and of its operands.
pub proof fn lemma_and_is_bitwise(s: Machine, ins: u16)
    requires
        machine_wf(s),
        opcode_of(ins) == 5,
    ensures
        execute(s, ins).0.regs[dr_of(ins)] == s.regs[sr1_of(ins)] & operand2(s.regs, ins),
{
    lemma_fields(ins);
}

/// NOT takes the exclusive or of its operand with 0xFFFF.
pub proof fn lemma_not_is_xor(s: Machine, ins: u16)
    requires
        machine_wf(s),
        opcode_of(ins) == 9,
    ensures
        execute(s, ins).0.regs[dr_of(ins)] == s.regs[sr1_of(ins)] ^ 0xFFFFu16,
{
    lemma_fields(ins);
    let a = s.regs[sr1_of(ins)];
    assert(!a == a ^ 0xFFFFu16) by (bit_vector);
}

/// The fields of an instruction assembled from an operation code, a register
/// and a 9-bit offset.
proof fn lemma_assemble(op: u16, r: u16, off: u16)
    requires
        op < 16,
        r < 8,
        off < 0x200,
    ensures
        opcode_of(((op << 12u16) | (r << 9u16) | off) as u16) == op as int,
        dr_of(((op << 12u16) | (r << 9u16) | off) as u16) == r as int,
        off9(((op << 12u16) | (r << 9u16) | off) as u16) == off9(off),
{
    assert((((op << 12u16) | (r << 9u16) | off) >> 12u16) == op) by (bit_vector)
        requires
            op < 16,
            r < 8,
            off < 0x200,
    ;
    assert(((((op << 12u16) | (r << 9u16) | off) >> 9u16) & 7u16) == r) by (bit_vector)
        requires
            op < 16,
            r < 8,
            off < 0x200,
    ;
    assert((((op << 12u16) | (r << 9u16) | off) & 0x1FFu16) == (off & 0x1FFu16)) by (bit_vector)
        requires
            op < 16,
            r < 8,
            off < 0x200,
    ;
}

/// ST of register `r` at offset `off`, then LD of the same offset into
/// register `r2` with PC unchanged, leaves in `r2` the word that `r` held.
/// The address must not be KBSR while a key is ready, since that read
/// returns the keyboard's status instead.
pub proof fn lemma_store_then_load(s: Machine, r: u16, r2: u16, off: u16)
    requires
        machine_wf(s),
        r < 8,
        r2 < 8,
        off < 0x200,
        pc_rel(s.regs, off) != KBSR || s.mem.key is None,
    ensures
        ({
            let st = ((3u16 << 12u16) | (r << 9u16) | off) as u16;
            let ld = ((2u16 << 12u16) | (r2 << 9u16) | off) as u16;
            execute(execute(s, st).0, ld).0.regs[r2 as int] == s.regs[r as int]
        }),
{
    lemma_assemble(3, r, off);
    lemma_assemble(2, r2, off);
    assert(off9(off) == off9(off & 0x1FF)) by {
        assert(off & 0x1FFu16 == off & 0x1FFu16 & 0x1FFu16) by (bit_vector);
    }
}

/// STI of register `r` through the indirection word at offset `off`, then
/// LDI through the same word into register `r2` with PC unchanged, leaves in
/// `r2` the word that `r` held: both reach the address that the indirection
/// word holds. The indirection word must not be KBSR, must not point at
/// KBSR, and must not point at itself, since STI would then overwrite it.
pub proof fn lemma_store_then_load_indirect(s: Machine, r: u16, r2: u16, off: u16)
    requires
        machine_wf(s),
        r < 8,
        r2 < 8,
        off < 0x200,
        pc_rel(s.regs, off) != KBSR,
        s.mem.data[pc_rel(s.regs, off) as int] != KBSR,
        s.mem.data[pc_rel(s.regs, off) as int] != pc_rel(s.regs, off),
    ensures
        ({
            let sti = ((11u16 << 12u16) | (r << 9u16) | off) as u16;
            let ldi = ((10u16 << 12u16) | (r2 << 9u16) | off) as u16;
            execute(execute(s, sti).0, ldi).0.regs[r2 as int] == s.regs[r as int]
        }),
{
    lemma_assemble(11, r, off);
    lemma_assemble(10, r2, off);
}

/// After LEA the destination holds PC plus the sign-extended offset, modulo
/// 2^16.
pub proof fn lemma_lea_target(s: Machine, ins: u16)
    requires
        machine_wf(s),
        opcode_of(ins) == 14,
    ensures
        execute(s, ins).0.regs[dr_of(ins)] == add16(s.regs[8], off9(ins)),
        execute(s, ins).0.regs[dr_of(ins)] as int
            == (s.regs[8] as int + signed_field(ins & 0x1FF, 9)) % 0x10000,
{
    lemma_fields(ins);
    assert(ins & 0x1FFu16 < 0x200u16) by (bit_vector);
    reveal_with_fuel(pow2_16, 10);
    lemma_sext_signed(ins & 0x1FF, 9);
}

/// How many reads forward KBSR lies from `addr`, modulo 2^16.
spec fn status_distance(addr: u16) -> int {
    (KBSR as int - addr as int + 0x10000) % 0x10000
}

/// A bound on the reads that a walk from `addr` needs to meet a zero word.
spec fn walk_bound(m: MemState, addr: u16) -> int {
    match m.key {
        Some(_) => status_distance(addr) + 0x10001,
        None => if addr != KBSR {
            status_distance(addr) + 1
        } else if m.data[KBSR as int] == 0 {
            1
        } else {
            0x10001
        },
    }
}

proof fn lemma_walk_ends_within_bound(m: MemState, addr: u16, fuel: nat)
    requires
        m.data.len() == 0x10000,
        fuel >= walk_bound(m, addr),
    ensures
        walk_ends(m, addr, fuel),
    decreases fuel,
{
    let m1 = read_effect(m, addr);
    let next = add16(addr, 1);
    if fuel > 0 && crate::memory::read_value(m, addr) != 0 {
        assert(next as int == (addr as int + 1) % 0x10000);
        if addr != KBSR {
            assert(status_distance(next) == status_distance(addr) - 1);
        } else {
            assert(status_distance(next) == 0xFFFF);
        }
        lemma_walk_ends_within_bound(m1, next, (fuel - 1) as nat);
    }
}

/// A walk of reads that PUTS or PUTSP makes meets a zero word within
/// `STRING_READ_LIMIT` reads, from any memory and any start: the first read of
/// an address other than KBSR clears KBSR, and a read of KBSR consumes the
/// key that the keyboard had ready.
pub proof fn lemma_string_walk_ends(m: MemState, addr: u16)
    requires
        m.data.len() == 0x10000,
    ensures
        walk_ends(m, addr, STRING_READ_LIMIT as nat),
{
    lemma_walk_ends_within_bound(m, addr, STRING_READ_LIMIT as nat);
}

} // verus!
