//! The CPU's register file as plain values.  The instruction decoder and
//! executor live with the host; this record is what the chipset layer
//! carries across resets, snapshots and hardware hot-swaps.

use vstd::prelude::*;

verus! {

/// One full register file: the main and alternate pairs, the index and
/// special registers, and the interrupt state.
#[derive(Clone, Copy, PartialEq, Eq, Structural, Debug)]
pub struct CpuState {
    pub af: u16,
    pub bc: u16,
    pub de: u16,
    pub hl: u16,
    pub af_alt: u16,
    pub bc_alt: u16,
    pub de_alt: u16,
    pub hl_alt: u16,
    pub ix: u16,
    pub iy: u16,
    pub sp: u16,
    pub pc: u16,
    pub i: u8,
    pub r: u8,
    pub im: u8,
    pub iff1: bool,
    pub iff2: bool,
    pub halted: bool,
}

/// The register file at power-on: execution starts at address zero with
/// interrupts disabled, and the accumulator and stack pointer hold all
/// ones.
pub open spec fn cpu_power_on() -> CpuState {
    CpuState {
        af: 0xffff,
        bc: 0,
        de: 0,
        hl: 0,
        af_alt: 0,
        bc_alt: 0,
        de_alt: 0,
        hl_alt: 0,
        ix: 0,
        iy: 0,
        sp: 0xffff,
        pc: 0,
        i: 0,
        r: 0,
        im: 0,
        iff1: false,
        iff2: false,
        halted: false,
    }
}

impl CpuState {
    /// An interrupt mode is one of the three the hardware knows.
    pub open spec fn wf(&self) -> bool {
        self.im <= 2
    }

    pub fn new() -> (cpu: CpuState)
        ensures
            cpu == cpu_power_on(),
            cpu.wf(),
    {
        CpuState {
            af: 0xffff,
            bc: 0,
            de: 0,
            hl: 0,
            af_alt: 0,
            bc_alt: 0,
            de_alt: 0,
            hl_alt: 0,
            ix: 0,
            iy: 0,
            sp: 0xffff,
            pc: 0,
            i: 0,
            r: 0,
            im: 0,
            iff1: false,
            iff2: false,
            halted: false,
        }
    }

    /// Returns the register file to its power-on state.
    pub fn reset(&mut self)
        ensures
            *final(self) == cpu_power_on(),
            final(self).wf(),
    {
        *self = CpuState::new();
    }
}

impl Default for CpuState {
    /// The power-on register file.
    fn default() -> (cpu: CpuState)
        ensures
            cpu == cpu_power_on(),
            cpu.wf(),
    {
        CpuState::new()
    }
}

} // verus!
