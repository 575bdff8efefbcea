use lc3::cpu::opcode::OpCode;
use lc3::cpu::register::{Register, RegisterGroup, PC_START};
use lc3::cpu::traps::TrapCode;
use lc3::cpu::{Action, Cpu};
use lc3::error::VmError;
use lc3::memory::{Memory, KBDR, KBSR};
use lc3::vm::Vm;
use lc3::word::{add_mod_u16, sign_extend, FlagBit, FLAG_NEG, FLAG_POS, FLAG_ZRO};

#[test]
fn sign_extend_fields() {
    assert_eq!(sign_extend(0x0F, 5), 0x000F);
    assert_eq!(sign_extend(0x1F, 5), 0xFFFF);
    assert_eq!(sign_extend(0x10, 5), 0xFFF0);
    assert_eq!(sign_extend(0x20, 6), 0xFFE0);
    assert_eq!(sign_extend(0x1F, 6), 0x001F);
    assert_eq!(sign_extend(0x0FF, 9), 0x00FF);
    assert_eq!(sign_extend(0x1FF, 9), 0xFFFF);
    assert_eq!(sign_extend(0x100, 9), 0xFF00);
    assert_eq!(sign_extend(0x400, 11), 0xFC00);
    assert_eq!(sign_extend(0x3FF, 11), 0x03FF);
}

#[test]
fn add_wraps_modulo() {
    assert_eq!(add_mod_u16(0xFFFF, 1), 0);
    assert_eq!(add_mod_u16(0x3000, 0xFFFE), 0x2FFE);
    assert_eq!(add_mod_u16(2, 3), 5);
}

#[test]
fn flag_of_words() {
    assert_eq!(FlagBit::of_word(0), FlagBit::ZRO);
    assert_eq!(FlagBit::of_word(0x8000), FlagBit::NEG);
    assert_eq!(FlagBit::of_word(0x7FFF), FlagBit::POS);
    assert_eq!(FlagBit::POS.value(), 1);
    assert_eq!(FlagBit::ZRO.value(), 2);
    assert_eq!(FlagBit::NEG.value(), 4);
}

#[test]
fn decode_tags() {
    assert_eq!(OpCode::from_u16(0), Some(OpCode::BR));
    assert_eq!(OpCode::from_u16(15), Some(OpCode::TRAP));
    assert_eq!(OpCode::from_u16(16), None);
    assert_eq!(OpCode::from_usize(10), Some(OpCode::LDI));
    assert_eq!(OpCode::from_usize(99), None);
    assert_eq!(Register::from_u16(8), Some(Register::PC));
    assert_eq!(Register::from_usize(9), Some(Register::COND));
    assert_eq!(Register::from_u16(10), None);
    assert_eq!(Register::from_usize(10), None);
    assert_eq!(TrapCode::from_u16(0x25), Some(TrapCode::HALT));
    assert_eq!(TrapCode::from_u16(0x20), Some(TrapCode::GETC));
    assert_eq!(TrapCode::from_u16(0x26), None);
    assert_eq!(TrapCode::from_u16(0x1F), None);
}

#[test]
fn register_file_starts_at_pc_start() {
    let mut regs = RegisterGroup::new();
    assert_eq!(regs.read(Register::PC), PC_START);
    assert_eq!(regs.read(Register::R3), 0);
    assert_eq!(regs.read(Register::COND), FLAG_ZRO);
    regs.write(Register::R3, 7);
    assert_eq!(regs.read(Register::R3), 7);
    regs.write(Register::PC, 0xFFFF);
    regs.add_pc();
    assert_eq!(regs.read(Register::PC), 0);
}

#[test]
fn read_clears_keyboard_status() {
    let mut mem = Memory::new();
    mem.write(KBSR, 0x8000);
    mem.write(0x1234, 9);
    assert_eq!(mem.read(0x1234), 9);
    assert_eq!(mem.read(KBSR), 0);
}

#[test]
fn keyboard_status_read_takes_key() {
    let mut mem = Memory::new();
    assert_eq!(mem.read(KBSR), 0);
    mem.press_key(b'a');
    assert!(mem.key_ready());
    assert_eq!(mem.read(KBSR), 0x8000);
    assert!(!mem.key_ready());
    assert_eq!(mem.read(KBDR), 0x61);
    assert_eq!(mem.read(KBSR), 0);
}

#[test]
fn load_places_words_at_origin() {
    let mut mem = Memory::new();
    mem.write(0x3002, 0xAAAA);
    assert_eq!(mem.load_img(&[0x30, 0x00, 0x12, 0x34, 0xAB, 0xCD]), Ok(()));
    assert_eq!(mem.read(0x3000), 0x1234);
    assert_eq!(mem.read(0x3001), 0xABCD);
    assert_eq!(mem.read(0x3002), 0xAAAA);
}

#[test]
fn load_pads_odd_payload() {
    let mut mem = Memory::new();
    assert_eq!(mem.load_img(&[0x40, 0x00, 0x12, 0x34, 0x56]), Ok(()));
    assert_eq!(mem.read(0x4000), 0x1234);
    assert_eq!(mem.read(0x4001), 0x5600);
}

#[test]
fn load_stops_at_end_of_memory() {
    let mut mem = Memory::new();
    assert_eq!(mem.load_img(&[0xFF, 0xFF, 0x11, 0x11, 0x22, 0x22]), Ok(()));
    assert_eq!(mem.read(0xFFFF), 0x1111);
    assert_eq!(mem.read(0x0000), 0);
}

#[test]
fn load_refuses_short_image() {
    let mut mem = Memory::new();
    assert_eq!(mem.load_img(&[0x30]), Err(VmError::InvalidImage));
    assert_eq!(mem.load_img(&[]), Err(VmError::InvalidImage));
    let mut vm = Vm::new();
    assert_eq!(vm.load_image(&[0x30]), Err(VmError::InvalidImage));
}

#[test]
fn load_of_origin_only_changes_nothing() {
    let mut mem = Memory::new();
    assert_eq!(mem.load_img(&[0x30, 0x00]), Ok(()));
    assert_eq!(mem.read(0x3000), 0);
}

#[test]
fn store_then_load_round_trip() {
    let mut cpu = Cpu::new();
    let mut mem = Memory::new();
    cpu.set_reg(Register::R3, 0xBEEF);
    // ST R3, #5 then LD R6, #5
    cpu.op(0x3605, &mut mem).unwrap();
    cpu.op(0x2C05, &mut mem).unwrap();
    assert_eq!(cpu.get_reg(Register::R6), 0xBEEF);
    assert_eq!(cpu.get_reg(Register::COND), FLAG_NEG);
}

#[test]
fn store_then_load_register_relative() {
    let mut cpu = Cpu::new();
    let mut mem = Memory::new();
    cpu.set_reg(Register::R1, 0x5000);
    cpu.set_reg(Register::R2, 0x0042);
    // STR R2, R1, #-1 then LDR R4, R1, #-1
    cpu.op(0x747F, &mut mem).unwrap();
    assert_eq!(mem.read(0x4FFF), 0x0042);
    cpu.op(0x687F, &mut mem).unwrap();
    assert_eq!(cpu.get_reg(Register::R4), 0x0042);
    assert_eq!(cpu.get_reg(Register::COND), FLAG_POS);
}

#[test]
fn store_then_load_indirect_round_trip() {
    let mut cpu = Cpu::new();
    let mut mem = Memory::new();
    mem.write(0x3010, 0x5000);
    cpu.set_reg(Register::R2, 0x1357);
    // STI R2, #0x10 then LDI R5, #0x10
    cpu.op(0xB410, &mut mem).unwrap();
    assert_eq!(mem.read(0x5000), 0x1357);
    cpu.op(0xAA10, &mut mem).unwrap();
    assert_eq!(cpu.get_reg(Register::R5), 0x1357);
}

#[test]
fn lea_adds_signed_offset() {
    let mut cpu = Cpu::new();
    let mut mem = Memory::new();
    // LEA R1, #-2
    cpu.op(0xE3FE, &mut mem).unwrap();
    assert_eq!(cpu.get_reg(Register::R1), 0x2FFE);
    assert_eq!(cpu.get_reg(Register::COND), FLAG_POS);
}

#[test]
fn add_registers_wraps() {
    let mut cpu = Cpu::new();
    let mut mem = Memory::new();
    cpu.set_reg(Register::R1, 0xFFFF);
    cpu.set_reg(Register::R2, 0x0002);
    // ADD R0, R1, R2
    cpu.op(0x1042, &mut mem).unwrap();
    assert_eq!(cpu.get_reg(Register::R0), 1);
    assert_eq!(cpu.get_reg(Register::COND), FLAG_POS);
}

#[test]
fn and_sets_flags() {
    let mut cpu = Cpu::new();
    let mut mem = Memory::new();
    cpu.set_reg(Register::R1, 0xF0F0);
    cpu.set_reg(Register::R2, 0x0F0F);
    cpu.set_reg(Register::COND, FLAG_POS);
    // AND R0, R1, R2
    cpu.op(0x5042, &mut mem).unwrap();
    assert_eq!(cpu.get_reg(Register::R0), 0);
    assert_eq!(cpu.get_reg(Register::COND), FLAG_ZRO);
    // AND R0, R1, #-16
    cpu.op(0x5070, &mut mem).unwrap();
    assert_eq!(cpu.get_reg(Register::R0), 0xF0F0);
    assert_eq!(cpu.get_reg(Register::COND), FLAG_NEG);
}

#[test]
fn br_not_taken_keeps_pc() {
    let mut cpu = Cpu::new();
    let mut mem = Memory::new();
    cpu.set_reg(Register::COND, FLAG_POS);
    cpu.op(0x0802, &mut mem).unwrap();
    assert_eq!(cpu.get_reg(Register::PC), 0x3000);
    // BRnzp #-1
    cpu.op(0x0FFF, &mut mem).unwrap();
    assert_eq!(cpu.get_reg(Register::PC), 0x2FFF);
}

#[test]
fn jsr_and_jmp_link_and_jump() {
    let mut cpu = Cpu::new();
    let mut mem = Memory::new();
    // JSR #4
    cpu.op(0x4804, &mut mem).unwrap();
    assert_eq!(cpu.get_reg(Register::R7), 0x3000);
    assert_eq!(cpu.get_reg(Register::PC), 0x3004);
    // JSRR R3
    cpu.set_reg(Register::R3, 0x6000);
    cpu.op(0x40C0, &mut mem).unwrap();
    assert_eq!(cpu.get_reg(Register::R7), 0x3004);
    assert_eq!(cpu.get_reg(Register::PC), 0x6000);
    // RET
    cpu.op(0xC1C0, &mut mem).unwrap();
    assert_eq!(cpu.get_reg(Register::PC), 0x3004);
}

#[test]
fn rti_is_unsupported() {
    let mut cpu = Cpu::new();
    let mut mem = Memory::new();
    assert_eq!(cpu.op(0x8000, &mut mem), Err(VmError::UnsupportedInstruction));
    assert_eq!(cpu.rti(), Err(VmError::UnsupportedInstruction));
}

#[test]
fn reserved_does_nothing() {
    let mut cpu = Cpu::new();
    let mut mem = Memory::new();
    assert_eq!(cpu.op(0xD123, &mut mem), Ok(Action::Continue));
    assert_eq!(cpu.get_reg(Register::PC), 0x3000);
    cpu.res();
    assert_eq!(cpu.get_reg(Register::R0), 0);
}

#[test]
fn unknown_trap_is_refused() {
    let mut cpu = Cpu::new();
    let mut mem = Memory::new();
    assert_eq!(cpu.op(0xF026, &mut mem), Err(VmError::UnknownTrap));
    assert_eq!(cpu.trap(0xF000, &mut mem), Err(VmError::UnknownTrap));
}

#[test]
fn out_writes_low_byte() {
    let mut cpu = Cpu::new();
    let mut mem = Memory::new();
    cpu.set_reg(Register::R0, 0x1241);
    assert_eq!(cpu.op(0xF021, &mut mem), Ok(Action::Output(vec![0x41])));
}

#[test]
fn getc_asks_for_a_byte() {
    let mut cpu = Cpu::new();
    let mut mem = Memory::new();
    assert_eq!(cpu.op(0xF020, &mut mem), Ok(Action::Input(Vec::new())));
    cpu.deliver_char(b'x');
    assert_eq!(cpu.get_reg(Register::R0), 0x78);
}

#[test]
fn getc_takes_ready_key() {
    let mut cpu = Cpu::new();
    let mut mem = Memory::new();
    mem.press_key(b'q');
    assert_eq!(cpu.op(0xF020, &mut mem), Ok(Action::Continue));
    assert_eq!(cpu.get_reg(Register::R0), 0x71);
    assert!(!mem.key_ready());
}

#[test]
fn in_prompts_then_reads() {
    let mut cpu = Cpu::new();
    let mut mem = Memory::new();
    let act = cpu.op(0xF023, &mut mem);
    assert_eq!(act, Ok(Action::Input(b"Enter a character: ".to_vec())));
    mem.press_key(b'z');
    let act = cpu.op(0xF023, &mut mem);
    assert_eq!(act, Ok(Action::Output(b"Enter a character: ".to_vec())));
    assert_eq!(cpu.get_reg(Register::R0), 0x7A);
}

#[test]
fn puts_wraps_past_end_of_memory() {
    let mut cpu = Cpu::new();
    let mut mem = Memory::new();
    mem.write(0xFFFF, 0x41);
    mem.write(0x0000, 0x42);
    mem.write(0x0001, 0x00);
    cpu.set_reg(Register::R0, 0xFFFF);
    assert_eq!(cpu.op(0xF022, &mut mem), Ok(Action::Output(b"AB".to_vec())));
}

#[test]
fn putsp_wraps_past_end_of_memory() {
    let mut cpu = Cpu::new();
    let mut mem = Memory::new();
    mem.write(0xFFFF, 0x6241);
    mem.write(0x0000, 0x0043);
    mem.write(0x0001, 0x0000);
    cpu.set_reg(Register::R0, 0xFFFF);
    assert_eq!(cpu.op(0xF024, &mut mem), Ok(Action::Output(b"AbC".to_vec())));
}

#[test]
fn puts_with_no_terminator_ends_at_status_register() {
    let mut cpu = Cpu::new();
    let mut mem = Memory::new();
    for a in 0u32..0x10000 {
        mem.write(a as u16, 0x41);
    }
    cpu.set_reg(Register::R0, 0xFE01);
    match cpu.op(0xF022, &mut mem) {
        Ok(Action::Output(out)) => assert_eq!(out.len(), 0xFFFF),
        other => panic!("unexpected {:?}", other),
    }
}

#[test]
fn putsp_keeps_zero_low_byte() {
    let mut cpu = Cpu::new();
    let mut mem = Memory::new();
    mem.write(0x4000, 0x4100);
    cpu.set_reg(Register::R0, 0x4000);
    assert_eq!(cpu.op(0xF024, &mut mem), Ok(Action::Output(vec![0x00, 0x41])));
}

#[test]
fn vm_keyboard_polling() {
    let mut vm = Vm::new();
    // LDI R0, #1 ; the indirection word holds KBSR
    assert_eq!(vm.load_image(&[0x30, 0x00, 0xA0, 0x01, 0x00, 0x00, 0xFE, 0x00]), Ok(()));
    vm.start();
    assert!(vm.is_running());
    assert!(vm.press_key(b'k'));
    assert!(!vm.press_key(b'j'));
    assert!(vm.key_ready());
    assert_eq!(vm.step(), Ok(Action::Continue));
    assert_eq!(vm.get_reg(Register::R0), 0x8000);
    assert!(!vm.key_ready());
    vm.deliver_char(b'a');
    assert_eq!(vm.get_reg(Register::R0), 0x61);
}

#[test]
fn error_messages() {
    assert_eq!(VmError::InvalidImage.message(), "invalid image");
    assert_eq!(VmError::UnknownTrap.message(), "unknown trap vector");
    let _ = FLAG_POS;
}
