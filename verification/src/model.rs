//! The supported hardware models as one closed tagged set, and hot-swap
//! between them at runtime.

use vstd::prelude::*;
use crate::bus::BusDevice;
use crate::clock::MAX_STEP_TSTATES;
use crate::cpu::{CpuState, cpu_power_on};
use crate::event_log::FrameEvent;
use crate::scld::{Scld, SCLD_TOTAL_ROM_BANKS, scld_home_target};
use crate::ula::base_default_slot;
use crate::ula128::Ula128;

verus! {

/// The hardware model a caller can request.
#[derive(Clone, Copy, PartialEq, Eq, Structural, Debug)]
pub enum ModelRequest {
    TimexTC2048,
    Spectrum128,
}

/// The chipset of the machine currently emulated: one concrete state
/// record per supported model, dispatched by exhaustive matching.
#[derive(Clone, Debug)]
pub enum Chipset {
    Timex(Scld),
    Spectrum128(Ula128),
}

impl Chipset {
    pub open spec fn wf(&self) -> bool {
        match self {
            Chipset::Timex(chip) => chip.wf(),
            Chipset::Spectrum128(chip) => chip.wf(),
        }
    }

    pub open spec fn spec_model(&self) -> ModelRequest {
        match self {
            Chipset::Timex(_) => ModelRequest::TimexTC2048,
            Chipset::Spectrum128(_) => ModelRequest::Spectrum128,
        }
    }

    pub open spec fn spec_border_color(&self) -> u8 {
        match self {
            Chipset::Timex(chip) => chip.ula().spec_last_border(),
            Chipset::Spectrum128(chip) => chip.ula().spec_last_border(),
        }
    }

    pub open spec fn spec_current_frame(&self) -> u64 {
        match self {
            Chipset::Timex(chip) => chip.ula().frame(),
            Chipset::Spectrum128(chip) => chip.ula().frame(),
        }
    }

    pub open spec fn spec_position(&self) -> u32 {
        match self {
            Chipset::Timex(chip) => chip.ula().position(),
            Chipset::Spectrum128(chip) => chip.ula().position(),
        }
    }

    pub open spec fn spec_is_frame_over(&self) -> bool {
        match self {
            Chipset::Timex(chip) => chip.ula().spec_is_frame_over(),
            Chipset::Spectrum128(chip) => chip.ula().spec_is_frame_over(),
        }
    }

    /// The part of the last committed CPU step that belongs to the next
    /// frame.
    pub open spec fn spec_carry(&self) -> u32 {
        match self {
            Chipset::Timex(chip) => chip.ula().carry(),
            Chipset::Spectrum128(chip) => chip.ula().carry(),
        }
    }

    /// The attached peripherals, whichever model runs.
    pub open spec fn spec_bus_view(&self) -> Seq<BusDevice> {
        match self {
            Chipset::Timex(chip) => chip.ula().bus_view(),
            Chipset::Spectrum128(chip) => chip.ula().bus_view(),
        }
    }

    /// A fresh chipset of the requested model, in its power-on state.
    pub fn new(request: ModelRequest) -> (chip: Chipset)
        ensures
            chip.wf(),
            chip.spec_model() == request,
            chip.spec_current_frame() == 0,
            chip.spec_position() == 0,
            chip.spec_border_color() == crate::ula::POWER_ON_BORDER,
    {
        match request {
            ModelRequest::TimexTC2048 => Chipset::Timex(Scld::new(SCLD_TOTAL_ROM_BANKS)),
            ModelRequest::Spectrum128 => Chipset::Spectrum128(Ula128::new()),
        }
    }

    pub fn model(&self) -> (model: ModelRequest)
        ensures
            model == self.spec_model(),
    {
        match self {
            Chipset::Timex(_) => ModelRequest::TimexTC2048,
            Chipset::Spectrum128(_) => ModelRequest::Spectrum128,
        }
    }

    pub fn border_color(&self) -> (border: u8)
        ensures
            border == self.spec_border_color(),
    {
        match self {
            Chipset::Timex(chip) => chip.border_color(),
            Chipset::Spectrum128(chip) => chip.border_color(),
        }
    }

    pub fn current_frame(&self) -> (frame: u64)
        ensures
            frame == self.spec_current_frame(),
    {
        match self {
            Chipset::Timex(chip) => chip.current_frame(),
            Chipset::Spectrum128(chip) => chip.current_frame(),
        }
    }

    pub fn current_tstate(&self) -> (pos: u32)
        ensures
            pos == self.spec_position(),
    {
        match self {
            Chipset::Timex(chip) => chip.current_tstate(),
            Chipset::Spectrum128(chip) => chip.current_tstate(),
        }
    }

    pub fn is_frame_over(&self) -> (over: bool)
        ensures
            over == self.spec_is_frame_over(),
    {
        match self {
            Chipset::Timex(chip) => chip.is_frame_over(),
            Chipset::Spectrum128(chip) => chip.is_frame_over(),
        }
    }

    /// Commits the cycles one CPU step consumed, whichever model runs.
    pub fn commit_step(&mut self, cycles: u32)
        requires
            old(self).wf(),
            !old(self).spec_is_frame_over(),
            1 <= cycles <= MAX_STEP_TSTATES,
        ensures
            final(self).wf(),
            final(self).spec_model() == old(self).spec_model(),
            final(self).spec_border_color() == old(self).spec_border_color(),
            final(self).spec_current_frame() == old(self).spec_current_frame(),
            final(self).spec_position() + final(self).spec_carry() == old(self).spec_position()
                + cycles,
            final(self).spec_position() > old(self).spec_position(),
            final(self).spec_bus_view() == old(self).spec_bus_view(),
    {
        match self {
            Chipset::Timex(chip) => chip.commit_step(cycles),
            Chipset::Spectrum128(chip) => chip.commit_step(cycles),
        }
    }

    /// Idempotent frame-boundary handling, whichever model runs.
    pub fn ensure_next_frame(&mut self)
        requires
            old(self).wf(),
            old(self).spec_is_frame_over() ==> old(self).spec_current_frame() < u64::MAX,
        ensures
            final(self).wf(),
            final(self).spec_model() == old(self).spec_model(),
            final(self).spec_border_color() == old(self).spec_border_color(),
            !final(self).spec_is_frame_over(),
            old(self).spec_is_frame_over() ==> {
                &&& final(self).spec_current_frame() == old(self).spec_current_frame() + 1
                &&& final(self).spec_position() == old(self).spec_carry()
            },
            !old(self).spec_is_frame_over() ==> *final(self) == *old(self),
            final(self).spec_bus_view() == old(self).spec_bus_view(),
    {
        match self {
            Chipset::Timex(chip) => chip.ensure_next_frame(),
            Chipset::Spectrum128(chip) => chip.ensure_next_frame(),
        }
    }

    /// Attaches a peripheral, whichever model runs.
    pub fn attach_device(&mut self, device: BusDevice)
        requires
            old(self).wf(),
        ensures
            final(self).wf(),
            final(self).spec_model() == old(self).spec_model(),
            final(self).spec_border_color() == old(self).spec_border_color(),
            final(self).spec_current_frame() == old(self).spec_current_frame(),
            final(self).spec_position() == old(self).spec_position(),
            final(self).spec_bus_view() == old(self).spec_bus_view().push(device),
    {
        match self {
            Chipset::Timex(chip) => chip.attach_device(device),
            Chipset::Spectrum128(chip) => chip.attach_device(device),
        }
    }
}

/// A machine: the CPU's register file beside the chipset of the model it
/// runs on.
#[derive(Clone, Debug)]
pub struct Machine {
    pub cpu: CpuState,
    pub chip: Chipset,
}

impl Machine {
    pub open spec fn wf(&self) -> bool {
        &&& self.cpu.wf()
        &&& self.chip.wf()
    }

    /// A fresh machine of the requested model.
    pub fn new(request: ModelRequest) -> (machine: Machine)
        ensures
            machine.wf(),
            machine.cpu == cpu_power_on(),
            machine.chip.spec_model() == request,
            machine.chip.spec_border_color() == crate::ula::POWER_ON_BORDER,
    {
        Machine { cpu: CpuState::new(), chip: Chipset::new(request) }
    }

    /// Hot-swaps the machine to another hardware model.  The CPU's
    /// register values and the border color carry over exactly; the new
    /// chipset otherwise starts from its power-on state, its bank paging
    /// at the power-on default and its frame-local logs empty.  The RAM
    /// contents travel outside this record and are re-chunked by the
    /// caller.  Requesting the current model changes nothing.
    pub fn change_model(&mut self, request: ModelRequest)
        requires
            old(self).wf(),
        ensures
            final(self).wf(),
            final(self).cpu == old(self).cpu,
            final(self).chip.spec_border_color() == old(self).chip.spec_border_color(),
            final(self).chip.spec_model() == request,
            old(self).chip.spec_model() == request ==> *final(self) == *old(self),
            old(self).chip.spec_model() != request ==> {
                &&& final(self).chip.spec_current_frame() == 0
                &&& final(self).chip.spec_position() == 0
                &&& (final(self).chip matches Chipset::Spectrum128(chip) ==> {
                    &&& chip.spec_mem_page3_bank() == 0
                    &&& !chip.spec_cur_screen_shadow()
                    &&& !chip.spec_beg_screen_shadow()
                    &&& !chip.spec_mem_locked()
                    &&& chip.screen_log() == Seq::<FrameEvent>::empty()
                    &&& forall|i: int|
                        0 <= i < 4 ==> chip.banks_view()[i] == base_default_slot(i)
                })
                &&& (final(self).chip matches Chipset::Timex(chip) ==> {
                    &&& chip.spec_mem_paged() == 0
                    &&& chip.spec_cur_ctrl_flags() == 0
                    &&& chip.spec_beg_ctrl_flags() == 0
                    &&& chip.mode_log() == Seq::<FrameEvent>::empty()
                    &&& chip.source_log() == Seq::<FrameEvent>::empty()
                    &&& forall|i: int|
                        0 <= i < 8 ==> chip.banks_view()[i] == scld_home_target(
                            i as u8,
                            SCLD_TOTAL_ROM_BANKS,
                        )
                })
            },
    {
        if self.chip.model() == request {
            return ;
        }
        let border = self.chip.border_color();
        match request {
            ModelRequest::TimexTC2048 => {
                let mut chip = Scld::new(SCLD_TOTAL_ROM_BANKS);
                chip.set_border_color(border);
                self.chip = Chipset::Timex(chip);
            },
            ModelRequest::Spectrum128 => {
                let mut chip = Ula128::new();
                chip.set_border_color(border);
                self.chip = Chipset::Spectrum128(chip);
            },
        }
    }
}

} // verus!
