//! The core every chipset variant shares: the frame clock, the border
//! latch with its change log, the peripheral chain, and the contention
//! pattern the video circuitry imposes on a shared memory bus.

use vstd::prelude::*;
use crate::banks::BankSource;
use crate::bus::{BusDevice, BusDeviceChain, DeviceTag, device_after_reset, device_after_write, device_read_value, first_claim};
use crate::clock::{FrameClock, MAX_STEP_TSTATES};
use crate::event_log::{EventLog, FrameEvent, times_bounded};
use crate::mouse::MouseMovement;

verus! {

/// Frame length of the base variant's video frame, in T-states.
pub const FRAME_TSTATES_COUNT: u32 = 69888;

/// The base variant's CPU clock, in cycles per second.
pub const CPU_HZ: u32 = 3_500_000;

/// The power-on border color: white.
pub const POWER_ON_BORDER: u8 = 7;

/// How long the base variant asserts the frame interrupt at the start
/// of each frame, in T-states.
pub const INT_PULSE_TSTATES: u32 = 32;

/// The frame position at which the base variant's visible area begins.
pub const CONTENTION_WINDOW_START: u32 = 14335;

/// The number of visible lines whose fetches contend with the CPU.
pub const CONTENTION_LINES: u32 = 192;

/// The base variant's T-states per video line.
pub const LINE_TSTATES_COUNT: u32 = 224;

/// The delay the video circuitry imposes on a contended access, given the
/// access's offset into an eight-cycle video fetch window: the familiar
/// 6, 5, 4, 3, 2, 1, 0, 0 ladder.
pub open spec fn fetch_window_delay(offset: int) -> u32 {
    if offset % 8 <= 5 {
        (6 - offset % 8) as u32
    } else {
        0
    }
}

/// The wait cycles a contended access incurs at frame position `pos`, for
/// a variant whose visible area starts at `start` and spans `lines` lines
/// of `line_len` T-states, of which the first 128 fetch pixel data.
pub open spec fn spec_contention_delay(pos: u32, start: u32, lines: u32, line_len: u32) -> u32 {
    if pos < start || pos >= start + lines * line_len {
        0
    } else if (pos - start) % (line_len as int) >= 128 {
        0
    } else {
        fetch_window_delay((pos - start) % (line_len as int))
    }
}

/// Computes [`spec_contention_delay`].
pub fn contention_delay(pos: u32, start: u32, lines: u32, line_len: u32) -> (delay: u32)
    requires
        0 < line_len <= 256,
        lines <= 312,
        start <= 100_000,
    ensures
        delay == spec_contention_delay(pos, start, lines, line_len),
{
    proof {
        assert(lines * line_len <= 312 * 256) by (nonlinear_arith)
            requires
                lines <= 312,
                line_len <= 256,
        ;
    }
    let end = start + lines * line_len;
    if pos < start || pos >= end {
        0
    } else {
        let offset = (pos - start) % line_len;
        if offset >= 128 {
            0
        } else {
            let window = offset % 8;
            if window <= 5 {
                6 - window
            } else {
                0
            }
        }
    }
}

/// How long a frame of `frame_ts_count` T-states lasts at `cpu_hz`
/// cycles per second, in nanoseconds.
pub fn nanos_from_frame_tc_cpu_hz(frame_ts_count: u32, cpu_hz: u32) -> (nanos: u64)
    requires
        cpu_hz > 0,
    ensures
        nanos == frame_ts_count as int * 1_000_000_000 / (cpu_hz as int),
{
    frame_ts_count as u64 * 1_000_000_000 / (cpu_hz as u64)
}

/// Whether the address lies in the base variant's contended region: the
/// sixteen kilobytes holding the video memory.
pub open spec fn spec_base_contended_address(address: u16) -> bool {
    address & 0xc000 == 0x4000
}

/// Computes [`spec_base_contended_address`].
pub fn base_contended_address(address: u16) -> (contended: bool)
    ensures
        contended == spec_base_contended_address(address),
{
    address & 0xc000 == 0x4000
}

/// The state every chipset variant owns: the per-frame clock, the border
/// latch together with its per-frame change log, the device chain, and
/// the carry of a CPU step that crossed the frame boundary.
#[derive(Clone, Debug)]
pub struct UlaCore {
    clock: FrameClock,
    step_carry: u32,
    border: u8,
    last_border: u8,
    border_changes: EventLog,
    bus: BusDeviceChain,
}

impl UlaCore {
    /// The number of frames completed so far.
    pub closed spec fn frame(&self) -> u64 {
        self.clock.frame()
    }

    /// The frame-relative cycle position.
    pub closed spec fn position(&self) -> u32 {
        self.clock.position()
    }

    /// The frame length in T-states.
    pub closed spec fn frame_len_spec(&self) -> u32 {
        self.clock.len()
    }

    /// The part of the last committed CPU step that belongs to the next
    /// frame.
    pub closed spec fn carry(&self) -> u32 {
        self.step_carry
    }

    /// The border color recorded when the current frame began.
    pub closed spec fn beg_border(&self) -> u8 {
        self.border
    }

    /// The current border color latch.
    pub closed spec fn spec_last_border(&self) -> u8 {
        self.last_border
    }

    /// The border changes recorded so far this frame.
    pub closed spec fn border_log(&self) -> Seq<FrameEvent> {
        self.border_changes@
    }

    /// The attached devices.
    pub closed spec fn bus_view(&self) -> Seq<BusDevice> {
        self.bus@
    }

    pub open spec fn spec_is_frame_over(&self) -> bool {
        self.position() == self.frame_len_spec()
    }

    pub open spec fn wf(&self) -> bool {
        &&& self.frame_len_spec() > MAX_STEP_TSTATES
        &&& self.position() <= self.frame_len_spec()
        &&& self.carry() < MAX_STEP_TSTATES
        &&& (self.carry() != 0 ==> self.spec_is_frame_over())
        &&& self.beg_border() <= 7
        &&& self.spec_last_border() <= 7
        &&& crate::event_log::times_sorted(self.border_log())
        &&& times_bounded(self.border_log(), self.position())
    }

    pub fn new(frame_len: u32) -> (core: UlaCore)
        requires
            frame_len > MAX_STEP_TSTATES,
        ensures
            core.wf(),
            core.frame() == 0,
            core.position() == 0,
            core.frame_len_spec() == frame_len,
            core.carry() == 0,
            core.beg_border() == POWER_ON_BORDER,
            core.spec_last_border() == POWER_ON_BORDER,
            core.border_log() == Seq::<FrameEvent>::empty(),
            core.bus_view() == Seq::<BusDevice>::empty(),
    {
        UlaCore {
            clock: FrameClock::new(frame_len),
            step_carry: 0,
            border: POWER_ON_BORDER,
            last_border: POWER_ON_BORDER,
            border_changes: EventLog::new(),
            bus: BusDeviceChain::new(),
        }
    }

    pub fn current_frame(&self) -> (frame: u64)
        ensures
            frame == self.frame(),
    {
        self.clock.current_frame()
    }

    pub fn current_tstate(&self) -> (pos: u32)
        ensures
            pos == self.position(),
    {
        self.clock.current_tstate()
    }

    pub fn frame_len(&self) -> (len: u32)
        ensures
            len == self.frame_len_spec(),
    {
        self.clock.frame_len()
    }

    /// The normalized frame and position pair: once the frame is over the
    /// pair already names the start of the next frame.
    pub fn frame_tstate(&self) -> (pair: (u64, u32))
        requires
            self.wf(),
            self.frame() < u64::MAX,
        ensures
            pair == (if self.spec_is_frame_over() {
                ((self.frame() + 1) as u64, 0u32)
            } else {
                (self.frame(), self.position())
            }),
    {
        if self.clock.is_frame_over() {
            (self.clock.current_frame() + 1, 0)
        } else {
            (self.clock.current_frame(), self.clock.current_tstate())
        }
    }

    pub fn is_frame_over(&self) -> (over: bool)
        ensures
            over == self.spec_is_frame_over(),
    {
        self.clock.is_frame_over()
    }

    pub fn video_ts(&self) -> (pos: u32)
        ensures
            pos == self.position(),
    {
        self.clock.current_tstate()
    }

    /// Restores the frame counter of a fresh core from a persisted
    /// state.
    pub fn restore_frame_count(&mut self, frames: u64)
        requires
            old(self).wf(),
            old(self).frame() == 0,
        ensures
            final(self).wf(),
            final(self).frame() == frames,
            final(self).position() == old(self).position(),
            final(self).frame_len_spec() == old(self).frame_len_spec(),
            final(self).carry() == old(self).carry(),
            final(self).beg_border() == old(self).beg_border(),
            final(self).spec_last_border() == old(self).spec_last_border(),
            final(self).border_log() == old(self).border_log(),
            final(self).bus_view() == old(self).bus_view(),
    {
        self.clock.restore_frame_count(frames);
    }

    /// Moves the position forward within the frame; the position never
    /// moves backward.
    pub fn set_video_ts(&mut self, pos: u32)
        requires
            old(self).wf(),
            old(self).position() <= pos <= old(self).frame_len_spec(),
            pos == old(self).frame_len_spec() || old(self).carry() == 0,
        ensures
            final(self).wf(),
            final(self).position() == pos,
            final(self).frame() == old(self).frame(),
            final(self).frame_len_spec() == old(self).frame_len_spec(),
            final(self).carry() == old(self).carry(),
            final(self).beg_border() == old(self).beg_border(),
            final(self).spec_last_border() == old(self).spec_last_border(),
            final(self).border_log() == old(self).border_log(),
            final(self).bus_view() == old(self).bus_view(),
    {
        self.clock.set_position(pos);
    }

    /// Commits the cycles one CPU step consumed.  The clock stops at the
    /// frame's end; whatever the step overshot is carried into the next
    /// frame by [`Self::prepare_next_frame`].
    pub fn commit_step(&mut self, cycles: u32)
        requires
            old(self).wf(),
            !old(self).spec_is_frame_over(),
            1 <= cycles <= MAX_STEP_TSTATES,
        ensures
            final(self).wf(),
            final(self).position() + final(self).carry() == old(self).position() + cycles,
            final(self).position() > old(self).position(),
            final(self).frame() == old(self).frame(),
            final(self).frame_len_spec() == old(self).frame_len_spec(),
            final(self).beg_border() == old(self).beg_border(),
            final(self).spec_last_border() == old(self).spec_last_border(),
            final(self).border_log() == old(self).border_log(),
            final(self).bus_view() == old(self).bus_view(),
    {
        let overshoot = self.clock.advance(cycles);
        self.step_carry = overshoot;
    }

    /// The frame-boundary transition: the frame counter grows by one, the
    /// new frame opens at the carried-over cycles of the step that crossed
    /// the boundary, the border at frame start is recorded, and the border
    /// change log is cleared.
    pub fn prepare_next_frame(&mut self)
        requires
            old(self).wf(),
            old(self).spec_is_frame_over(),
            old(self).frame() < u64::MAX,
        ensures
            final(self).wf(),
            final(self).frame() == old(self).frame() + 1,
            final(self).position() == old(self).carry(),
            final(self).carry() == 0,
            final(self).frame_len_spec() == old(self).frame_len_spec(),
            final(self).beg_border() == old(self).spec_last_border(),
            final(self).spec_last_border() == old(self).spec_last_border(),
            final(self).border_log() == Seq::<FrameEvent>::empty(),
            final(self).bus_view() == old(self).bus_view(),
            !final(self).spec_is_frame_over(),
    {
        self.clock.advance_to_next_frame();
        if self.step_carry > 0 {
            let overshoot = self.clock.advance(self.step_carry);
            self.step_carry = overshoot;
        }
        self.border = self.last_border;
        self.border_changes.clear();
        self.bus.on_frame_boundary();
    }

    /// Changes the border color latch, recording the change in the log
    /// when the new value differs from the previous one.
    pub fn change_border_color(&mut self, border: u8, ts: u32)
        requires
            old(self).wf(),
            border <= 7,
            times_bounded(old(self).border_log(), ts),
            ts <= old(self).position(),
        ensures
            final(self).wf(),
            final(self).spec_last_border() == border,
            final(self).border_log() == (if old(self).spec_last_border() != border {
                old(self).border_log().push(FrameEvent { ts, data: border })
            } else {
                old(self).border_log()
            }),
            final(self).frame() == old(self).frame(),
            final(self).position() == old(self).position(),
            final(self).frame_len_spec() == old(self).frame_len_spec(),
            final(self).carry() == old(self).carry(),
            final(self).beg_border() == old(self).beg_border(),
            final(self).bus_view() == old(self).bus_view(),
    {
        if self.last_border != border {
            self.border_changes.push(ts, border);
            self.last_border = border;
        }
    }

    /// Sets the border latch directly, without logging; used when a
    /// persisted state is restored.
    pub fn set_border_color(&mut self, border: u8)
        requires
            old(self).wf(),
            border <= 7,
        ensures
            final(self).wf(),
            final(self).spec_last_border() == border,
            final(self).frame() == old(self).frame(),
            final(self).position() == old(self).position(),
            final(self).frame_len_spec() == old(self).frame_len_spec(),
            final(self).carry() == old(self).carry(),
            final(self).beg_border() == old(self).beg_border(),
            final(self).border_log() == old(self).border_log(),
            final(self).bus_view() == old(self).bus_view(),
    {
        self.last_border = border;
    }

    /// The current border color latch.
    pub fn border_color(&self) -> (border: u8)
        ensures
            border == self.spec_last_border(),
    {
        self.last_border
    }

    /// The border color the current frame began with.
    pub fn beg_border_color(&self) -> (border: u8)
        ensures
            border == self.beg_border(),
    {
        self.border
    }

    /// The number of border changes recorded this frame.
    pub fn border_change_count(&self) -> (n: usize)
        ensures
            n == self.border_log().len(),
    {
        self.border_changes.len()
    }

    /// Reads one recorded border change.
    pub fn border_change(&self, i: usize) -> (event: FrameEvent)
        requires
            i < self.border_log().len(),
        ensures
            event == self.border_log()[i as int],
    {
        self.border_changes.entry(i)
    }

    /// Resets the peripherals.  The border color is left unmodified, and
    /// the clock keeps running.
    pub fn reset(&mut self)
        requires
            old(self).wf(),
        ensures
            final(self).wf(),
            final(self).bus_view().len() == old(self).bus_view().len(),
            forall|i: int|
                0 <= i < old(self).bus_view().len() ==> final(self).bus_view()[i]
                    == device_after_reset(#[trigger] old(self).bus_view()[i]),
            final(self).frame() == old(self).frame(),
            final(self).position() == old(self).position(),
            final(self).frame_len_spec() == old(self).frame_len_spec(),
            final(self).carry() == old(self).carry(),
            final(self).beg_border() == old(self).beg_border(),
            final(self).spec_last_border() == old(self).spec_last_border(),
            final(self).border_log() == old(self).border_log(),
    {
        self.bus.on_reset();
    }

    /// Attaches a device at the end of the chain.
    pub fn attach_device(&mut self, device: BusDevice)
        ensures
            final(self).wf() == old(self).wf(),
            final(self).frame() == old(self).frame(),
            final(self).position() == old(self).position(),
            final(self).frame_len_spec() == old(self).frame_len_spec(),
            final(self).carry() == old(self).carry(),
            final(self).beg_border() == old(self).beg_border(),
            final(self).spec_last_border() == old(self).spec_last_border(),
            final(self).border_log() == old(self).border_log(),
            final(self).bus_view() == old(self).bus_view().push(device),
    {
        self.bus.attach(device);
    }

    /// Detaches the first device with the given type tag.
    pub fn detach_first_device(&mut self, tag: DeviceTag) -> (detached: Option<BusDevice>)
        ensures
            final(self).wf() == old(self).wf(),
            final(self).frame() == old(self).frame(),
            final(self).position() == old(self).position(),
            final(self).frame_len_spec() == old(self).frame_len_spec(),
            final(self).carry() == old(self).carry(),
            final(self).beg_border() == old(self).beg_border(),
            final(self).spec_last_border() == old(self).spec_last_border(),
            final(self).border_log() == old(self).border_log(),
            match crate::bus::first_with_tag(old(self).bus_view(), tag) {
                Some(k) => {
                    &&& detached == Some(old(self).bus_view()[k])
                    &&& final(self).bus_view() == old(self).bus_view().remove(k)
                },
                None => {
                    &&& detached is None
                    &&& final(self).bus_view() == old(self).bus_view()
                },
            },
    {
        self.bus.detach_first(tag)
    }

    /// Takes the device chain out of the core.
    pub fn into_bus(self) -> (chain: BusDeviceChain)
        ensures
            chain@ == self.bus_view(),
    {
        self.bus
    }

    /// A shared reference to the device chain, for looking devices up.
    pub fn bus_device_ref(&self) -> (chain: &BusDeviceChain)
        ensures
            chain@ == self.bus_view(),
    {
        &self.bus
    }

    /// A bus read: the first claiming device answers.
    pub fn bus_port_read(&self, port: u16) -> (value: Option<u8>)
        ensures
            match first_claim(self.bus_view(), port) {
                Some(i) => value == Some(device_read_value(self.bus_view()[i], port)),
                None => value is None,
            },
    {
        self.bus.port_read(port)
    }

    /// A bus write: the first claiming device handles it; the rest of the
    /// chain is untouched.
    pub fn bus_port_write(&mut self, port: u16, value: u8) -> (handled: bool)
        ensures
            final(self).wf() == old(self).wf(),
            final(self).frame() == old(self).frame(),
            final(self).position() == old(self).position(),
            final(self).frame_len_spec() == old(self).frame_len_spec(),
            final(self).carry() == old(self).carry(),
            final(self).beg_border() == old(self).beg_border(),
            final(self).spec_last_border() == old(self).spec_last_border(),
            final(self).border_log() == old(self).border_log(),
            match first_claim(old(self).bus_view(), port) {
                Some(i) => {
                    &&& handled
                    &&& final(self).bus_view() == old(self).bus_view().update(
                        i,
                        device_after_write(old(self).bus_view()[i], port, value),
                    )
                },
                None => {
                    &&& !handled
                    &&& final(self).bus_view() == old(self).bus_view()
                },
            },
    {
        self.bus.port_write(port, value)
    }

    /// Latches a new button state into the first attached mouse, if any.
    pub fn set_mouse_buttons(&mut self, buttons: u8) -> (found: bool)
        requires
            buttons <= 3,
        ensures
            final(self).wf() == old(self).wf(),
            final(self).frame() == old(self).frame(),
            final(self).position() == old(self).position(),
            final(self).frame_len_spec() == old(self).frame_len_spec(),
            final(self).carry() == old(self).carry(),
            final(self).beg_border() == old(self).beg_border(),
            final(self).spec_last_border() == old(self).spec_last_border(),
            final(self).border_log() == old(self).border_log(),
            match crate::bus::first_with_tag(old(self).bus_view(), DeviceTag::KempstonMouse) {
                Some(k) => {
                    &&& found
                    &&& final(self).bus_view() == old(self).bus_view().update(
                        k,
                        crate::bus::device_after_set_buttons(old(self).bus_view()[k], buttons),
                    )
                },
                None => {
                    &&& !found
                    &&& final(self).bus_view() == old(self).bus_view()
                },
            },
    {
        self.bus.set_mouse_buttons(buttons)
    }

    /// Applies a relative movement to the first attached mouse, if any.
    pub fn move_mouse(&mut self, movement: MouseMovement) -> (found: bool)
        requires
            movement.vertical > i16::MIN,
        ensures
            final(self).wf() == old(self).wf(),
            final(self).frame() == old(self).frame(),
            final(self).position() == old(self).position(),
            final(self).frame_len_spec() == old(self).frame_len_spec(),
            final(self).carry() == old(self).carry(),
            final(self).beg_border() == old(self).beg_border(),
            final(self).spec_last_border() == old(self).spec_last_border(),
            final(self).border_log() == old(self).border_log(),
            match crate::bus::first_with_tag(old(self).bus_view(), DeviceTag::KempstonMouse) {
                Some(k) => {
                    &&& found
                    &&& final(self).bus_view() == old(self).bus_view().update(
                        k,
                        crate::bus::device_after_mouse_move(old(self).bus_view()[k], movement),
                    )
                },
                None => {
                    &&& !found
                    &&& final(self).bus_view() == old(self).bus_view()
                },
            },
    {
        self.bus.move_mouse(movement)
    }
}

/// The default backing of one of the base machine's four 16K slots: the
/// single ROM below three fixed RAM banks.
pub open spec fn base_default_slot(slot: int) -> BankSource {
    if slot == 0 {
        BankSource::Rom(0)
    } else if slot == 1 {
        BankSource::Ram(5)
    } else if slot == 2 {
        BankSource::Ram(2)
    } else {
        BankSource::Ram(0)
    }
}

} // verus!
