use lc3::cpu::register::Register;
use lc3::cpu::{Action, Cpu};
use lc3::memory::Memory;
use lc3::vm::Vm;
use lc3::word::{FLAG_NEG, FLAG_POS, FLAG_ZRO};

fn run_one(cpu: &mut Cpu, mem: &mut Memory, ins: u16) -> Action {
    cpu.op(ins, mem).expect("instruction should succeed")
}

#[test]
fn add_immediate_sign_extends() {
    let mut cpu = Cpu::new();
    let mut mem = Memory::new();
    mem.write(0x3000, 0x127F);
    cpu.set_reg(Register::R1, 5);
    let ins = mem.read(cpu.get_reg(Register::PC));
    cpu.add_pc();
    assert_eq!(run_one(&mut cpu, &mut mem, ins), Action::Continue);
    assert_eq!(cpu.get_reg(Register::R1), 4);
    assert_eq!(cpu.get_reg(Register::COND), FLAG_POS);
}

#[test]
fn add_immediate_to_zero() {
    let mut cpu = Cpu::new();
    let mut mem = Memory::new();
    cpu.set_reg(Register::R1, 1);
    run_one(&mut cpu, &mut mem, 0x127F);
    assert_eq!(cpu.get_reg(Register::R1), 0);
    assert_eq!(cpu.get_reg(Register::COND), FLAG_ZRO);
}

#[test]
fn not_complements() {
    let mut cpu = Cpu::new();
    let mut mem = Memory::new();
    cpu.set_reg(Register::R1, 0x00FF);
    run_one(&mut cpu, &mut mem, 0x947F);
    assert_eq!(cpu.get_reg(Register::R2), 0xFF00);
    assert_eq!(cpu.get_reg(Register::COND), FLAG_NEG);
}

#[test]
fn ldi_follows_indirection() {
    let mut cpu = Cpu::new();
    let mut mem = Memory::new();
    mem.write(0x3100, 0x4000);
    mem.write(0x4000, 0x1234);
    cpu.add_pc();
    run_one(&mut cpu, &mut mem, 0xA0FF);
    assert_eq!(cpu.get_reg(Register::R0), 0x1234);
    assert_eq!(cpu.get_reg(Register::COND), FLAG_POS);
}

#[test]
fn vm_runs_ldi_from_loaded_images() {
    let mut vm = Vm::new();
    assert_eq!(vm.load_image(&[0x30, 0x00, 0xA0, 0xFF, 0xF0, 0x25]), Ok(()));
    assert_eq!(vm.load_image(&[0x31, 0x00, 0x40, 0x00]), Ok(()));
    assert_eq!(vm.load_image(&[0x40, 0x00, 0x12, 0x34]), Ok(()));
    vm.start();
    assert_eq!(vm.step(), Ok(Action::Continue));
    assert_eq!(vm.get_reg(Register::R0), 0x1234);
    assert_eq!(vm.get_reg(Register::PC), 0x3001);
    assert_eq!(vm.step(), Ok(Action::Output(b"HALT\n".to_vec())));
    assert!(!vm.is_running());
}

#[test]
fn br_taken_on_zero() {
    let mut cpu = Cpu::new();
    let mut mem = Memory::new();
    cpu.set_reg(Register::COND, FLAG_ZRO);
    run_one(&mut cpu, &mut mem, 0x0402);
    assert_eq!(cpu.get_reg(Register::PC), 0x3002);
}

#[test]
fn halt_stops_and_prints() {
    let mut cpu = Cpu::new();
    let mut mem = Memory::new();
    cpu.set_running(true);
    let act = run_one(&mut cpu, &mut mem, 0xF025);
    assert_eq!(act, Action::Output(b"HALT\n".to_vec()));
    assert!(!cpu.is_running());
}

#[test]
fn puts_writes_one_char_per_word() {
    let mut cpu = Cpu::new();
    let mut mem = Memory::new();
    mem.write(0x4000, 0x48);
    mem.write(0x4001, 0x69);
    mem.write(0x4002, 0x00);
    cpu.set_reg(Register::R0, 0x4000);
    let act = run_one(&mut cpu, &mut mem, 0xF022);
    assert_eq!(act, Action::Output(b"Hi".to_vec()));
}

#[test]
fn putsp_writes_two_chars_per_word() {
    let mut cpu = Cpu::new();
    let mut mem = Memory::new();
    mem.write(0x4000, 0x6548);
    mem.write(0x4001, 0x6C6C);
    mem.write(0x4002, 0x006F);
    cpu.set_reg(Register::R0, 0x4000);
    let act = run_one(&mut cpu, &mut mem, 0xF024);
    assert_eq!(act, Action::Output(b"Hello".to_vec()));
}
