//! The machine aggregate: the CPU (which owns the address space) and the
//! interconnect, created together at power-on and stepped one instruction
//! at a time.

use vstd::prelude::*;
use crate::cpu::{is_power_on, spec_decode_at, spec_exec, spec_step_cycles, CPU};
use crate::error::EmuError;
use crate::interconnect::Interconnect;
use crate::mem::MEM_SIZE;

verus! {

pub struct Gameboy {
    pub cpu: CPU,
    pub interconnect: Interconnect,
}

impl Gameboy {
    pub open spec fn wf(&self) -> bool {
        self.cpu.wf()
    }

    /// Power on with the given boot image loaded at the low addresses.
    pub fn new(boot_rom: Vec<u8>) -> (g: Gameboy)
        requires
            boot_rom@.len() <= MEM_SIZE,
        ensures
            g.wf(),
            is_power_on(g.cpu@, boot_rom@),
    {
        Gameboy { cpu: CPU::new(boot_rom), interconnect: Interconnect::new() }
    }

    /// Execute exactly one instruction, reporting its machine cycles, or
    /// the decode error with the whole machine left untouched.
    pub fn step(&mut self) -> (r: Result<u8, EmuError>)
        requires
            old(self).wf(),
        ensures
            final(self).wf(),
            final(self).interconnect == old(self).interconnect,
            (match spec_decode_at(old(self).cpu@.mem, old(self).cpu@.pc) {
                Ok(op) => r == Ok::<u8, EmuError>(spec_step_cycles(old(self).cpu@, op))
                    && final(self).cpu@ == spec_exec(old(self).cpu@, op),
                Err(e) => r == Err::<u8, EmuError>(e) && final(self).cpu@ == old(self).cpu@,
            }),
    {
        self.cpu.cycle(&mut self.interconnect)
    }
}

} // verus!
