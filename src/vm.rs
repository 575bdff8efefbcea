//! The machine: one CPU and one memory, driven one instruction at a time.
//!
//! The host runs the loop: it starts the machine, and while it runs, hands it
//! any key that the keyboard has ready, calls [`Vm::step`] and carries out the
//! [`Action`] that comes back.

use vstd::prelude::*;
use crate::cpu::{Action, Cpu, outcome};
use crate::cpu::isa::{Machine, machine_wf, step};
use crate::cpu::register::Register;
use crate::error::VmError;
use crate::memory::{MemState, Memory, loaded};

verus! {

/// The machine.
pub struct Vm {
    cpu: Cpu,
    memory: Memory,
}

impl Vm {
    /// The state of the machine.
    pub closed spec fn machine(&self) -> Machine {
        self.cpu.machine(self.memory@)
    }

    /// The register file holds ten words and the memory 65,536.
    pub open spec fn wf(&self) -> bool {
        machine_wf(self.machine())
    }

    /// A stopped machine with a fresh CPU and a zeroed memory.
    pub fn new() -> (r: Self)
        ensures
            r.wf(),
            r.machine().regs == seq![0u16, 0, 0, 0, 0, 0, 0, 0, 0x3000, 2],
            r.machine().mem.data == Seq::new(65536, |a: int| 0u16),
            r.machine().mem.key is None,
            !r.machine().running,
    {
        Vm { cpu: Cpu::new(), memory: Memory::new() }
    }

    /// Loads an image into memory, as [`Memory::load_img`] says.
    pub fn load_image(&mut self, image: &[u8]) -> (r: Result<(), VmError>)
        requires
            old(self).wf(),
        ensures
            final(self).wf(),
            final(self).machine().regs == old(self).machine().regs,
            final(self).machine().running == old(self).machine().running,
            final(self).machine().mem.key == old(self).machine().mem.key,
            r is Err <==> image@.len() < 2,
            r is Err ==> r == Err::<(), VmError>(VmError::InvalidImage) && final(self).machine() == old(self).machine(),
            r is Ok ==> final(self).machine().mem.data == loaded(old(self).machine().mem.data, image@),
    {
        self.memory.load_img(image)
    }

    /// Sets the machine running.
    pub fn start(&mut self)
        requires
            old(self).wf(),
        ensures
            final(self).wf(),
            final(self).machine() == (Machine { running: true, ..old(self).machine() }),
    {
        self.cpu.set_running(true);
    }

    /// Whether the machine is running.
    pub fn is_running(&self) -> (r: bool)
        ensures
            r == self.machine().running,
    {
        self.cpu.is_running()
    }

    /// Fetches the instruction at PC, advances PC and executes the
    /// instruction, as [`step`] says.
    pub fn step(&mut self) -> (r: Result<Action, VmError>)
        requires
            old(self).wf(),
        ensures
            final(self).wf(),
            (final(self).machine(), outcome(r)) == step(old(self).machine()),
    {
        let pc = self.cpu.get_reg(Register::PC);
        let ins = self.memory.read(pc);
        self.cpu.add_pc();
        self.cpu.op(ins, &mut self.memory)
    }

    /// Whether the keyboard has a byte ready that the program has not taken.
    pub fn key_ready(&self) -> (r: bool)
        ensures
            r == self.machine().mem.key is Some,
    {
        self.memory.key_ready()
    }

    /// Hands the machine a byte that the keyboard has ready, unless one is
    /// already waiting; says whether it was taken.
    pub fn press_key(&mut self, byte: u8) -> (r: bool)
        requires
            old(self).wf(),
        ensures
            final(self).wf(),
            r == old(self).machine().mem.key is None,
            final(self).machine() == (Machine {
                mem: MemState {
                    data: old(self).machine().mem.data,
                    key: if r { Some(byte) } else { old(self).machine().mem.key },
                },
                ..old(self).machine()
            }),
    {
        if self.memory.key_ready() {
            false
        } else {
            self.memory.press_key(byte);
            true
        }
    }

    /// Hands the machine the byte that an [`Action::Input`] asked for: R0
    /// takes it.
    pub fn deliver_char(&mut self, byte: u8)
        requires
            old(self).wf(),
        ensures
            final(self).wf(),
            final(self).machine() == (Machine {
                regs: old(self).machine().regs.update(0, byte as u16),
                ..old(self).machine()
            }),
    {
        self.cpu.deliver_char(byte);
    }

    /// The word held in `reg`.
    pub fn get_reg(&self, reg: Register) -> (r: u16)
        requires
            self.wf(),
        ensures
            r == self.machine().regs[reg.idx()],
    {
        self.cpu.get_reg(reg)
    }
}

} // verus!
