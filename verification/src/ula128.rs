//! The paged-memory chipset variant: four 16K page slots, a lockable
//! memory port driving RAM/ROM selection and the shadow screen, and the
//! bank-dependent contention rule.

use vstd::prelude::*;
use crate::banks::{BankSource, BankTable};
use crate::bus::{BusDevice, BusDeviceChain, DeviceTag};
use crate::clock::MAX_STEP_TSTATES;
use crate::event_log::{EventLog, FrameEvent, times_bounded, times_sorted};
use crate::mouse::MouseMovement;
use crate::ula::{UlaCore, POWER_ON_BORDER, base_default_slot, nanos_from_frame_tc_cpu_hz};

verus! {

/// Frame length of the paged-memory variant's video frame, in T-states.
pub const FRAME_TSTATES_COUNT: u32 = 70908;

/// The paged-memory variant's CPU clock, in cycles per second.
pub const CPU_HZ: u32 = 3_546_900;

/// The frame position at which this variant's visible area begins.
pub const CONTENTION_WINDOW_START: u32 = 14361;

/// This variant's T-states per video line.
pub const LINE_TSTATES_COUNT: u32 = 228;

/// How long this variant asserts the frame interrupt at the start of
/// each frame, in T-states.
pub const INT_PULSE_TSTATES: u32 = 36;

/// Memory-port bits selecting the RAM bank mapped into the top slot.
pub const MEM128_RAM_BANK_MASK: u8 = 0b0000_0111;

/// Memory-port bit selecting the shadow screen.
pub const MEM128_SCREEN_SHADOW: u8 = 0b0000_1000;

/// Memory-port bit selecting the upper ROM bank.
pub const MEM128_ROM_BANK: u8 = 0b0001_0000;

/// Memory-port bit locking the port against further writes until reset.
pub const MEM128_LOCK_MMU: u8 = 0b0010_0000;

/// Whether an address falls in the top 16K page slot, the one the
/// memory port banks.
pub fn top_slot_address(address: u16) -> (top: bool)
    ensures
        top == (address & 0xc000 == 0xc000),
{
    address & 0xc000 == 0xc000
}

/// The paged-memory chipset variant.
#[derive(Clone, Debug)]
pub struct Ula128 {
    ula: UlaCore,
    banks: BankTable,
    mem_page3_bank: u8,
    cur_screen_shadow: bool,
    beg_screen_shadow: bool,
    mem_locked: bool,
    screen_changes: EventLog,
}

impl Ula128 {
    /// The shared core's state.
    pub closed spec fn ula(&self) -> UlaCore {
        self.ula
    }

    /// The bank table's slots.
    pub closed spec fn banks_view(&self) -> Seq<BankSource> {
        self.banks@
    }

    /// The bank table's highest valid ROM bank index.
    pub closed spec fn banks_rom_max(&self) -> u8 {
        self.banks.rom_max()
    }

    /// The bank table's highest valid RAM bank index.
    pub closed spec fn banks_ram_max(&self) -> u8 {
        self.banks.ram_max()
    }

    /// The RAM bank currently mapped into the top slot.
    pub closed spec fn spec_mem_page3_bank(&self) -> u8 {
        self.mem_page3_bank
    }

    /// Whether the shadow screen is currently selected.
    pub closed spec fn spec_cur_screen_shadow(&self) -> bool {
        self.cur_screen_shadow
    }

    /// Whether the shadow screen was selected when the frame began.
    pub closed spec fn spec_beg_screen_shadow(&self) -> bool {
        self.beg_screen_shadow
    }

    /// Whether the memory port is locked until the next reset.
    pub closed spec fn spec_mem_locked(&self) -> bool {
        self.mem_locked
    }

    /// The shadow-screen toggles recorded so far this frame.
    pub closed spec fn screen_log(&self) -> Seq<FrameEvent> {
        self.screen_changes@
    }

    pub open spec fn wf(&self) -> bool {
        &&& self.ula().wf()
        &&& self.ula().frame_len_spec() == FRAME_TSTATES_COUNT
        &&& self.banks_view().len() == 4
        &&& self.banks_rom_max() == 1
        &&& self.banks_ram_max() == 7
        &&& crate::banks::sources_in_range(self.banks_view(), 1, 7)
        &&& self.spec_mem_page3_bank() <= 7
        &&& self.banks_view()[0] matches BankSource::Rom(_)
        &&& self.banks_view()[1] == BankSource::Ram(5)
        &&& self.banks_view()[2] == BankSource::Ram(2)
        &&& self.banks_view()[3] == BankSource::Ram(self.spec_mem_page3_bank())
        &&& times_sorted(self.screen_log())
        &&& times_bounded(self.screen_log(), self.ula().position())
    }

    /// A fresh chipset in its power-on state.
    pub fn new() -> (chip: Ula128)
        ensures
            chip.wf(),
            chip.ula().frame() == 0,
            chip.ula().position() == 0,
            chip.ula().frame_len_spec() == FRAME_TSTATES_COUNT,
            chip.ula().spec_last_border() == POWER_ON_BORDER,
            chip.ula().bus_view() == Seq::<BusDevice>::empty(),
            chip.spec_mem_page3_bank() == 0,
            !chip.spec_cur_screen_shadow(),
            !chip.spec_beg_screen_shadow(),
            !chip.spec_mem_locked(),
            chip.screen_log() == Seq::<FrameEvent>::empty(),
            forall|i: int| 0 <= i < 4 ==> chip.banks_view()[i] == base_default_slot(i),
    {
        let mut slots: Vec<BankSource> = Vec::new();
        slots.push(BankSource::Rom(0));
        slots.push(BankSource::Ram(5));
        slots.push(BankSource::Ram(2));
        slots.push(BankSource::Ram(0));
        let banks = BankTable::new(slots, 1, 7);
        Ula128 {
            ula: UlaCore::new(FRAME_TSTATES_COUNT),
            banks,
            mem_page3_bank: 0,
            cur_screen_shadow: false,
            beg_screen_shadow: false,
            mem_locked: false,
            screen_changes: EventLog::new(),
        }
    }

    /// Whether the bank paged into the top slot contends with the video
    /// fetch: the odd-numbered RAM banks do.
    pub fn is_page3_contended(&self) -> (contended: bool)
        ensures
            contended == (self.spec_mem_page3_bank() & 1 == 1),
    {
        self.mem_page3_bank & 1 == 1
    }

    /// The shadow-screen bank the top slot exposes, if any: RAM bank five
    /// carries the normal screen's shadow sibling zero, RAM bank seven
    /// carries shadow sibling one, and no other bank is screen-shadow
    /// eligible.
    pub fn page3_screen_bank(&self) -> (screen_bank: Option<u8>)
        ensures
            screen_bank == (if self.spec_mem_page3_bank() == 5 {
                Some(0u8)
            } else if self.spec_mem_page3_bank() == 7 {
                Some(1u8)
            } else {
                None::<u8>
            }),
    {
        match self.mem_page3_bank {
            5 => Some(0),
            7 => Some(1),
            _ => None,
        }
    }

    /// A shared reference to the bank table.
    pub fn memory_ref(&self) -> (table: &BankTable)
        ensures
            table@ == self.banks_view(),
            table.rom_max() == self.banks_rom_max(),
            table.ram_max() == self.banks_ram_max(),
    {
        &self.banks
    }

    /// The physical bank currently backing a page slot.
    pub fn bank_source_at(&self, slot: usize) -> (source: BankSource)
        requires
            slot < self.banks_view().len(),
        ensures
            source == self.banks_view()[slot as int],
    {
        self.banks.source_at(slot)
    }

    pub fn cpu_clock_rate(&self) -> (rate: u32)
        ensures
            rate == CPU_HZ,
    {
        CPU_HZ
    }

    /// How long one frame lasts, in nanoseconds.
    pub fn frame_duration_nanos(&self) -> (duration: u32)
        ensures
            duration == (FRAME_TSTATES_COUNT as int * 1_000_000_000 / (CPU_HZ as int)) as u32,
    {
        nanos_from_frame_tc_cpu_hz(FRAME_TSTATES_COUNT, CPU_HZ) as u32
    }

    /// The value the memory port would read back: the top-slot RAM bank,
    /// the shadow-screen and ROM selectors, and the lock bit.
    pub fn mem_port_value(&self) -> (value: u8)
        requires
            self.wf(),
        ensures
            value == (self.spec_mem_page3_bank() | (if self.spec_cur_screen_shadow() {
                MEM128_SCREEN_SHADOW
            } else {
                0
            }) | (if self.banks_view()[0] == BankSource::Rom(1) {
                MEM128_ROM_BANK
            } else {
                0
            }) | (if self.spec_mem_locked() {
                MEM128_LOCK_MMU
            } else {
                0
            })),
    {
        let rom_bank_bit = match self.banks.source_at(0) {
            BankSource::Rom(b) => b == 1,
            BankSource::Ram(_) => false,
        };
        self.mem_page3_bank | (if self.cur_screen_shadow {
            MEM128_SCREEN_SHADOW
        } else {
            0
        }) | (if rom_bank_bit {
            MEM128_ROM_BANK
        } else {
            0
        }) | (if self.mem_locked {
            MEM128_LOCK_MMU
        } else {
            0
        })
    }

    /// Applies a memory-port value directly, without logging and whether
    /// or not the port is locked; used when a persisted state is
    /// restored.
    pub fn set_mem_port_value(&mut self, value: u8)
        requires
            old(self).wf(),
        ensures
            final(self).wf(),
            final(self).spec_mem_page3_bank() == value & MEM128_RAM_BANK_MASK,
            final(self).spec_cur_screen_shadow() == (value & MEM128_SCREEN_SHADOW != 0),
            final(self).spec_mem_locked() == (value & MEM128_LOCK_MMU != 0),
            final(self).banks_view() == old(self).banks_view().update(
                3,
                BankSource::Ram(value & MEM128_RAM_BANK_MASK),
            ).update(
                0,
                BankSource::Rom(
                    if value & MEM128_ROM_BANK != 0 {
                        1u8
                    } else {
                        0u8
                    },
                ),
            ),
            final(self).ula() == old(self).ula(),
            final(self).spec_beg_screen_shadow() == old(self).spec_beg_screen_shadow(),
            final(self).screen_log() == old(self).screen_log(),
    {
        proof {
            assert(value & MEM128_RAM_BANK_MASK <= 7) by (bit_vector);
        }
        let page3 = value & MEM128_RAM_BANK_MASK;
        let rom_bank: u8 = if value & MEM128_ROM_BANK != 0 {
            1
        } else {
            0
        };
        let ram_result = self.banks.map_ram_bank(page3 as usize, 3);
        match ram_result {
            Ok(()) => {},
            Err(_) => {
                proof {
                    assert(false);
                }
            },
        }
        let rom_result = self.banks.map_rom_bank(rom_bank as usize, 0);
        match rom_result {
            Ok(()) => {},
            Err(_) => {
                proof {
                    assert(false);
                }
            },
        }
        self.mem_page3_bank = page3;
        self.cur_screen_shadow = value & MEM128_SCREEN_SHADOW != 0;
        self.mem_locked = value & MEM128_LOCK_MMU != 0;
    }

    /// Locks the chipset into its compatibility configuration: home ROM
    /// bank one, RAM bank zero on top, normal screen, port locked.
    pub fn lock_48k_mode(&mut self)
        requires
            old(self).wf(),
        ensures
            final(self).wf(),
            final(self).spec_mem_page3_bank() == 0,
            !final(self).spec_cur_screen_shadow(),
            final(self).spec_mem_locked(),
            final(self).banks_view() == old(self).banks_view().update(
                3,
                BankSource::Ram(0),
            ).update(0, BankSource::Rom(1)),
            final(self).ula() == old(self).ula(),
            final(self).spec_beg_screen_shadow() == old(self).spec_beg_screen_shadow(),
            final(self).screen_log() == old(self).screen_log(),
    {
        proof {
            assert((MEM128_ROM_BANK | MEM128_LOCK_MMU) & MEM128_RAM_BANK_MASK == 0)
                by (bit_vector);
            assert((MEM128_ROM_BANK | MEM128_LOCK_MMU) & MEM128_SCREEN_SHADOW == 0)
                by (bit_vector);
            assert((MEM128_ROM_BANK | MEM128_LOCK_MMU) & MEM128_ROM_BANK != 0) by (bit_vector);
            assert((MEM128_ROM_BANK | MEM128_LOCK_MMU) & MEM128_LOCK_MMU != 0) by (bit_vector);
        }
        self.set_mem_port_value(MEM128_ROM_BANK | MEM128_LOCK_MMU);
    }

    /// Handles a write to the memory port at the given timestamp.  While
    /// the port is locked the write is ignored; otherwise it selects the
    /// top-slot RAM bank and the ROM bank, latches the lock bit, and an
    /// effective shadow-screen toggle is recorded in the log.
    pub fn write_mem_port(&mut self, value: u8, ts: u32)
        requires
            old(self).wf(),
            times_bounded(old(self).screen_log(), ts),
            ts <= old(self).ula().position(),
        ensures
            final(self).wf(),
            old(self).spec_mem_locked() ==> *final(self) == *old(self),
            !old(self).spec_mem_locked() ==> {
                &&& final(self).spec_mem_page3_bank() == value & MEM128_RAM_BANK_MASK
                &&& final(self).spec_cur_screen_shadow() == (value & MEM128_SCREEN_SHADOW != 0)
                &&& final(self).spec_mem_locked() == (value & MEM128_LOCK_MMU != 0)
                &&& final(self).banks_view() == old(self).banks_view().update(
                    3,
                    BankSource::Ram(value & MEM128_RAM_BANK_MASK),
                ).update(
                    0,
                    BankSource::Rom(
                        if value & MEM128_ROM_BANK != 0 {
                            1u8
                        } else {
                            0u8
                        },
                    ),
                )
                &&& final(self).screen_log() == (if (value & MEM128_SCREEN_SHADOW != 0) != old(
                    self,
                ).spec_cur_screen_shadow() {
                    old(self).screen_log().push(
                        FrameEvent {
                            ts,
                            data: if value & MEM128_SCREEN_SHADOW != 0 {
                                1u8
                            } else {
                                0u8
                            },
                        },
                    )
                } else {
                    old(self).screen_log()
                })
                &&& final(self).ula() == old(self).ula()
                &&& final(self).spec_beg_screen_shadow() == old(self).spec_beg_screen_shadow()
            },
    {
        if self.mem_locked {
            return ;
        }
        let shadow = value & MEM128_SCREEN_SHADOW != 0;
        if shadow != self.cur_screen_shadow {
            self.screen_changes.push(
                ts,
                if shadow {
                    1
                } else {
                    0
                },
            );
        }
        let ghost screen_log0 = self.screen_log();
        self.set_mem_port_value(value);
        proof {
            assert(self.screen_log() == screen_log0);
        }
    }

    /// The frame-boundary transition: the shadow-screen selection at
    /// frame start is recorded as the new frame's initial state, the
    /// per-frame logs are cleared, and the clock wraps into the new
    /// frame.
    pub fn prepare_next_frame(&mut self)
        requires
            old(self).wf(),
            old(self).ula().spec_is_frame_over(),
            old(self).ula().frame() < u64::MAX,
        ensures
            final(self).wf(),
            final(self).ula().frame() == old(self).ula().frame() + 1,
            final(self).ula().position() == old(self).ula().carry(),
            final(self).ula().carry() == 0,
            final(self).ula().frame_len_spec() == old(self).ula().frame_len_spec(),
            final(self).ula().beg_border() == old(self).ula().spec_last_border(),
            final(self).ula().spec_last_border() == old(self).ula().spec_last_border(),
            final(self).ula().border_log() == Seq::<FrameEvent>::empty(),
            final(self).ula().bus_view() == old(self).ula().bus_view(),
            !final(self).ula().spec_is_frame_over(),
            final(self).spec_beg_screen_shadow() == old(self).spec_cur_screen_shadow(),
            final(self).spec_cur_screen_shadow() == old(self).spec_cur_screen_shadow(),
            final(self).spec_mem_page3_bank() == old(self).spec_mem_page3_bank(),
            final(self).spec_mem_locked() == old(self).spec_mem_locked(),
            final(self).banks_view() == old(self).banks_view(),
            final(self).screen_log() == Seq::<FrameEvent>::empty(),
    {
        self.beg_screen_shadow = self.cur_screen_shadow;
        self.screen_changes.clear();
        self.ula.prepare_next_frame();
    }

    /// Idempotent frame-boundary handling: performs the transition when
    /// the clock reports frame-over, and otherwise does nothing.
    pub fn ensure_next_frame(&mut self)
        requires
            old(self).wf(),
            old(self).ula().spec_is_frame_over() ==> old(self).ula().frame() < u64::MAX,
        ensures
            final(self).wf(),
            old(self).ula().spec_is_frame_over() ==> {
                &&& final(self).ula().frame() == old(self).ula().frame() + 1
                &&& final(self).ula().position() == old(self).ula().carry()
                &&& final(self).screen_log() == Seq::<FrameEvent>::empty()
                &&& final(self).ula().border_log() == Seq::<FrameEvent>::empty()
                &&& final(self).spec_beg_screen_shadow() == old(self).spec_cur_screen_shadow()
                &&& final(self).ula().beg_border() == old(self).ula().spec_last_border()
            },
            !old(self).ula().spec_is_frame_over() ==> *final(self) == *old(self),
            !final(self).ula().spec_is_frame_over(),
            final(self).ula().spec_last_border() == old(self).ula().spec_last_border(),
            final(self).spec_cur_screen_shadow() == old(self).spec_cur_screen_shadow(),
            final(self).spec_mem_page3_bank() == old(self).spec_mem_page3_bank(),
            final(self).spec_mem_locked() == old(self).spec_mem_locked(),
            final(self).banks_view() == old(self).banks_view(),
            final(self).ula().bus_view() == old(self).ula().bus_view(),
    {
        if self.ula.is_frame_over() {
            self.prepare_next_frame();
        }
    }

    /// Resets the chipset: the peripherals return to their power-on
    /// state and the bank paging returns to its power-on default, with
    /// the memory port unlocked.  A hard reset additionally resets the
    /// host-held CPU and tape-input state, which live with the caller;
    /// the chipset side is the same either way.  The border color is
    /// left unmodified.
    pub fn reset(&mut self, hard: bool)
        requires
            old(self).wf(),
        ensures
            final(self).wf(),
            final(self).ula().bus_view().len() == old(self).ula().bus_view().len(),
            forall|i: int|
                0 <= i < old(self).ula().bus_view().len() ==> final(self).ula().bus_view()[i]
                    == crate::bus::device_after_reset(#[trigger] old(self).ula().bus_view()[i]),
            final(self).ula().frame() == old(self).ula().frame(),
            final(self).ula().position() == old(self).ula().position(),
            final(self).ula().frame_len_spec() == old(self).ula().frame_len_spec(),
            final(self).ula().spec_last_border() == old(self).ula().spec_last_border(),
            final(self).ula().border_log() == old(self).ula().border_log(),
            final(self).spec_mem_page3_bank() == 0,
            !final(self).spec_cur_screen_shadow(),
            !final(self).spec_beg_screen_shadow(),
            !final(self).spec_mem_locked(),
            forall|i: int| 0 <= i < 4 ==> final(self).banks_view()[i] == base_default_slot(i),
            final(self).screen_log() == old(self).screen_log(),
    {
        let _ = hard;
        self.ula.reset();
        let r0 = self.banks.map_rom_bank(0, 0);
        match r0 {
            Ok(()) => {},
            Err(_) => {
                proof {
                    assert(false);
                }
            },
        }
        let r3 = self.banks.map_ram_bank(0, 3);
        match r3 {
            Ok(()) => {},
            Err(_) => {
                proof {
                    assert(false);
                }
            },
        }
        self.mem_page3_bank = 0;
        self.cur_screen_shadow = false;
        self.beg_screen_shadow = false;
        self.mem_locked = false;
    }

    /// Commits the cycles one CPU step consumed against the frame clock.
    pub fn commit_step(&mut self, cycles: u32)
        requires
            old(self).wf(),
            !old(self).ula().spec_is_frame_over(),
            1 <= cycles <= MAX_STEP_TSTATES,
        ensures
            final(self).wf(),
            final(self).ula().position() + final(self).ula().carry() == old(self).ula().position()
                + cycles,
            final(self).ula().position() > old(self).ula().position(),
            final(self).ula().frame() == old(self).ula().frame(),
            final(self).ula().frame_len_spec() == old(self).ula().frame_len_spec(),
            final(self).ula().beg_border() == old(self).ula().beg_border(),
            final(self).ula().spec_last_border() == old(self).ula().spec_last_border(),
            final(self).ula().border_log() == old(self).ula().border_log(),
            final(self).ula().bus_view() == old(self).ula().bus_view(),
            final(self).banks_view() == old(self).banks_view(),
            final(self).spec_mem_page3_bank() == old(self).spec_mem_page3_bank(),
            final(self).spec_cur_screen_shadow() == old(self).spec_cur_screen_shadow(),
            final(self).spec_beg_screen_shadow() == old(self).spec_beg_screen_shadow(),
            final(self).spec_mem_locked() == old(self).spec_mem_locked(),
            final(self).screen_log() == old(self).screen_log(),
    {
        self.ula.commit_step(cycles);
    }


    /// Commits the cycles one single-stepped instruction consumed, and
    /// turns the host's breakpoint condition into the explicit stop-early
    /// signal: the step is committed either way, and the signal is a
    /// control outcome, not a fault.
    pub fn commit_single_step(&mut self, cycles: u32, breakpoint: bool) -> (outcome: Result<
        (),
        (),
    >)
        requires
            old(self).wf(),
            !old(self).ula().spec_is_frame_over(),
            1 <= cycles <= MAX_STEP_TSTATES,
        ensures
            final(self).wf(),
            outcome == (if breakpoint {
                Result::<(), ()>::Err(())
            } else {
                Result::<(), ()>::Ok(())
            }),
            final(self).ula().position() + final(self).ula().carry() == old(self).ula().position()
                + cycles,
            final(self).ula().frame() == old(self).ula().frame(),
    {
        self.commit_step(cycles);
        if breakpoint {
            Err(())
        } else {
            Ok(())
        }
    }

    /// Whether the chipset asserts the frame interrupt at the given
    /// frame position: only during the pulse at the start of a frame.
    pub fn interrupt_asserted_at(&self, pos: u32) -> (asserted: bool)
        ensures
            asserted == (pos < INT_PULSE_TSTATES),
    {
        pos < INT_PULSE_TSTATES
    }

    /// Whether an address contends with the video fetch: the video
    /// region always does, and the top slot does while an odd-numbered
    /// RAM bank is paged into it.
    pub fn is_contended_address(&self, address: u16) -> (contended: bool)
        ensures
            contended == (crate::ula::spec_base_contended_address(address) || (
            self.spec_mem_page3_bank() & 1 == 1 && address & 0xc000 == 0xc000)),
    {
        crate::ula::base_contended_address(address) || (self.mem_page3_bank & 1 == 1 && address
            & 0xc000 == 0xc000)
    }

    /// The wait cycles a memory access at the given address incurs right
    /// now.
    pub fn memory_access_wait(&self, address: u16) -> (wait: u32)
        ensures
            wait == (if crate::ula::spec_base_contended_address(address) || (
            self.spec_mem_page3_bank() & 1 == 1 && address & 0xc000 == 0xc000) {
                crate::ula::spec_contention_delay(
                    self.ula().position(),
                    CONTENTION_WINDOW_START,
                    crate::ula::CONTENTION_LINES,
                    LINE_TSTATES_COUNT,
                )
            } else {
                0u32
            }),
    {
        if self.is_contended_address(address) {
            crate::ula::contention_delay(
                self.ula.current_tstate(),
                CONTENTION_WINDOW_START,
                crate::ula::CONTENTION_LINES,
                LINE_TSTATES_COUNT,
            )
        } else {
            0
        }
    }

    /// Handles a port write at the current timestamp: even ports drive
    /// the border latch, the memory port drives paging and the shadow
    /// screen, and every other port is offered to the device chain.
    pub fn write_io(&mut self, port: u16, value: u8)
        requires
            old(self).wf(),
        ensures
            final(self).wf(),
            final(self).ula().frame() == old(self).ula().frame(),
            final(self).ula().position() == old(self).ula().position(),
            final(self).spec_beg_screen_shadow() == old(self).spec_beg_screen_shadow(),
            port & 1 == 0 ==> {
                &&& final(self).ula().spec_last_border() == value & 7
                &&& final(self).ula().border_log() == (if old(self).ula().spec_last_border()
                    != value & 7 {
                    old(self).ula().border_log().push(
                        FrameEvent { ts: old(self).ula().position(), data: (value & 7) as u8 },
                    )
                } else {
                    old(self).ula().border_log()
                })
                &&& final(self).banks_view() == old(self).banks_view()
                &&& final(self).spec_mem_page3_bank() == old(self).spec_mem_page3_bank()
                &&& final(self).spec_cur_screen_shadow() == old(self).spec_cur_screen_shadow()
                &&& final(self).spec_mem_locked() == old(self).spec_mem_locked()
                &&& final(self).screen_log() == old(self).screen_log()
                &&& final(self).ula().bus_view() == old(self).ula().bus_view()
            },
            port & 1 == 1 && port & 0x8002 == 0 ==> {
                &&& (old(self).spec_mem_locked() ==> *final(self) == *old(self))
                &&& (!old(self).spec_mem_locked() ==> {
                    &&& final(self).spec_mem_page3_bank() == value & MEM128_RAM_BANK_MASK
                    &&& final(self).spec_cur_screen_shadow() == (value & MEM128_SCREEN_SHADOW
                        != 0)
                    &&& final(self).spec_mem_locked() == (value & MEM128_LOCK_MMU != 0)
                    &&& final(self).banks_view() == old(self).banks_view().update(
                        3,
                        BankSource::Ram(value & MEM128_RAM_BANK_MASK),
                    ).update(
                        0,
                        BankSource::Rom(
                            if value & MEM128_ROM_BANK != 0 {
                                1u8
                            } else {
                                0u8
                            },
                        ),
                    )
                    &&& final(self).screen_log() == (if (value & MEM128_SCREEN_SHADOW != 0)
                        != old(self).spec_cur_screen_shadow() {
                        old(self).screen_log().push(
                            FrameEvent {
                                ts: old(self).ula().position(),
                                data: if value & MEM128_SCREEN_SHADOW != 0 {
                                    1u8
                                } else {
                                    0u8
                                },
                            },
                        )
                    } else {
                        old(self).screen_log()
                    })
                    &&& final(self).ula() == old(self).ula()
                })
            },
            port & 1 == 1 && port & 0x8002 != 0 ==> {
                &&& final(self).banks_view() == old(self).banks_view()
                &&& final(self).spec_mem_page3_bank() == old(self).spec_mem_page3_bank()
                &&& final(self).spec_cur_screen_shadow() == old(self).spec_cur_screen_shadow()
                &&& final(self).spec_mem_locked() == old(self).spec_mem_locked()
                &&& final(self).screen_log() == old(self).screen_log()
                &&& final(self).ula().spec_last_border() == old(self).ula().spec_last_border()
                &&& (match crate::bus::first_claim(old(self).ula().bus_view(), port) {
                    Some(i) => final(self).ula().bus_view() == old(self).ula().bus_view().update(
                        i,
                        crate::bus::device_after_write(old(self).ula().bus_view()[i], port, value),
                    ),
                    None => final(self).ula().bus_view() == old(self).ula().bus_view(),
                })
            },
    {
        let ts = self.ula.video_ts();
        if port & 1 == 0 {
            proof {
                assert(value & 7u8 <= 7) by (bit_vector);
            }
            self.ula.change_border_color(value & 7, ts);
        } else if port & 0x8002 == 0 {
            self.write_mem_port(value, ts);
        } else {
            self.ula.bus_port_write(port, value);
        }
    }

    /// Answers a port read by offering it to the device chain; with no
    /// claimant the access falls through to the caller.
    pub fn read_io(&self, port: u16) -> (value: Option<u8>)
        ensures
            match crate::bus::first_claim(self.ula().bus_view(), port) {
                Some(i) => value == Some(
                    crate::bus::device_read_value(self.ula().bus_view()[i], port),
                ),
                None => value is None,
            },
    {
        self.ula.bus_port_read(port)
    }

    pub fn current_frame(&self) -> (frame: u64)
        ensures
            frame == self.ula().frame(),
    {
        self.ula.current_frame()
    }

    pub fn frame_tstate(&self) -> (pair: (u64, u32))
        requires
            self.wf(),
            self.ula().frame() < u64::MAX,
        ensures
            pair == (if self.ula().spec_is_frame_over() {
                ((self.ula().frame() + 1) as u64, 0u32)
            } else {
                (self.ula().frame(), self.ula().position())
            }),
    {
        self.ula.frame_tstate()
    }

    pub fn current_tstate(&self) -> (pos: u32)
        ensures
            pos == self.ula().position(),
    {
        self.ula.current_tstate()
    }

    pub fn is_frame_over(&self) -> (over: bool)
        ensures
            over == self.ula().spec_is_frame_over(),
    {
        self.ula.is_frame_over()
    }

    pub fn video_ts(&self) -> (pos: u32)
        ensures
            pos == self.ula().position(),
    {
        self.ula.video_ts()
    }

    pub fn set_video_ts(&mut self, pos: u32)
        requires
            old(self).wf(),
            old(self).ula().position() <= pos <= old(self).ula().frame_len_spec(),
            pos == old(self).ula().frame_len_spec() || old(self).ula().carry() == 0,
        ensures
            final(self).wf(),
            final(self).ula().position() == pos,
            final(self).ula().frame() == old(self).ula().frame(),
            final(self).ula().frame_len_spec() == old(self).ula().frame_len_spec(),
            final(self).banks_view() == old(self).banks_view(),
            final(self).spec_mem_page3_bank() == old(self).spec_mem_page3_bank(),
            final(self).spec_cur_screen_shadow() == old(self).spec_cur_screen_shadow(),
            final(self).spec_mem_locked() == old(self).spec_mem_locked(),
            final(self).screen_log() == old(self).screen_log(),
    {
        self.ula.set_video_ts(pos);
    }

    /// Restores the frame counter of a fresh chipset from a persisted
    /// state.
    pub fn restore_frame_count(&mut self, frames: u64)
        requires
            old(self).wf(),
            old(self).ula().frame() == 0,
        ensures
            final(self).wf(),
            final(self).ula().frame() == frames,
            final(self).ula().position() == old(self).ula().position(),
            final(self).ula().spec_last_border() == old(self).ula().spec_last_border(),
            final(self).banks_view() == old(self).banks_view(),
    {
        self.ula.restore_frame_count(frames);
    }

    pub fn border_color(&self) -> (border: u8)
        ensures
            border == self.ula().spec_last_border(),
    {
        self.ula.border_color()
    }

    /// Sets the border latch directly, without logging; used when a
    /// persisted state is restored.
    pub fn set_border_color(&mut self, border: u8)
        requires
            old(self).wf(),
            border <= 7,
        ensures
            final(self).wf(),
            final(self).ula().spec_last_border() == border,
            final(self).ula().frame() == old(self).ula().frame(),
            final(self).ula().position() == old(self).ula().position(),
            final(self).ula().border_log() == old(self).ula().border_log(),
            final(self).ula().bus_view() == old(self).ula().bus_view(),
            final(self).banks_view() == old(self).banks_view(),
            final(self).spec_mem_page3_bank() == old(self).spec_mem_page3_bank(),
            final(self).spec_cur_screen_shadow() == old(self).spec_cur_screen_shadow(),
            final(self).spec_beg_screen_shadow() == old(self).spec_beg_screen_shadow(),
            final(self).spec_mem_locked() == old(self).spec_mem_locked(),
            final(self).screen_log() == old(self).screen_log(),
    {
        self.ula.set_border_color(border);
    }

    pub fn screen_change_count(&self) -> (n: usize)
        ensures
            n == self.screen_log().len(),
    {
        self.screen_changes.len()
    }

    pub fn screen_change(&self, i: usize) -> (event: FrameEvent)
        requires
            i < self.screen_log().len(),
        ensures
            event == self.screen_log()[i as int],
    {
        self.screen_changes.entry(i)
    }

    /// Whether the shadow screen was selected when the frame began.
    pub fn beg_screen_shadow(&self) -> (shadow: bool)
        ensures
            shadow == self.spec_beg_screen_shadow(),
    {
        self.beg_screen_shadow
    }

    /// Whether the shadow screen is currently selected.
    pub fn cur_screen_shadow(&self) -> (shadow: bool)
        ensures
            shadow == self.spec_cur_screen_shadow(),
    {
        self.cur_screen_shadow
    }

    /// Whether the memory port is locked until the next reset.
    pub fn is_mem_locked(&self) -> (locked: bool)
        ensures
            locked == self.spec_mem_locked(),
    {
        self.mem_locked
    }

    /// Attaches a peripheral at the end of the device chain.
    pub fn attach_device(&mut self, device: BusDevice)
        requires
            old(self).wf(),
        ensures
            final(self).wf(),
            final(self).ula().bus_view() == old(self).ula().bus_view().push(device),
            final(self).banks_view() == old(self).banks_view(),
            final(self).spec_mem_page3_bank() == old(self).spec_mem_page3_bank(),
            final(self).screen_log() == old(self).screen_log(),
            final(self).ula().position() == old(self).ula().position(),
            final(self).ula().frame() == old(self).ula().frame(),
            final(self).ula().spec_last_border() == old(self).ula().spec_last_border(),
    {
        self.ula.attach_device(device);
    }

    /// Detaches the first device with the given type tag.
    pub fn detach_first_device(&mut self, tag: DeviceTag) -> (detached: Option<BusDevice>)
        requires
            old(self).wf(),
        ensures
            final(self).wf(),
            match crate::bus::first_with_tag(old(self).ula().bus_view(), tag) {
                Some(k) => {
                    &&& detached == Some(old(self).ula().bus_view()[k])
                    &&& final(self).ula().bus_view() == old(self).ula().bus_view().remove(k)
                },
                None => {
                    &&& detached is None
                    &&& final(self).ula().bus_view() == old(self).ula().bus_view()
                },
            },
    {
        self.ula.detach_first_device(tag)
    }

    /// A shared reference to the device chain.
    pub fn bus_device_ref(&self) -> (chain: &BusDeviceChain)
        ensures
            chain@ == self.ula().bus_view(),
    {
        self.ula.bus_device_ref()
    }

    /// Latches a new mouse button state, if a mouse is attached.
    pub fn set_mouse_buttons(&mut self, buttons: u8) -> (found: bool)
        requires
            old(self).wf(),
            buttons <= 3,
        ensures
            final(self).wf(),
            match crate::bus::first_with_tag(
                old(self).ula().bus_view(),
                DeviceTag::KempstonMouse,
            ) {
                Some(k) => {
                    &&& found
                    &&& final(self).ula().bus_view() == old(self).ula().bus_view().update(
                        k,
                        crate::bus::device_after_set_buttons(
                            old(self).ula().bus_view()[k],
                            buttons,
                        ),
                    )
                },
                None => {
                    &&& !found
                    &&& final(self).ula().bus_view() == old(self).ula().bus_view()
                },
            },
    {
        self.ula.set_mouse_buttons(buttons)
    }

    /// Applies a relative mouse movement, if a mouse is attached.
    pub fn move_mouse(&mut self, movement: MouseMovement) -> (found: bool)
        requires
            old(self).wf(),
            movement.vertical > i16::MIN,
        ensures
            final(self).wf(),
            match crate::bus::first_with_tag(
                old(self).ula().bus_view(),
                DeviceTag::KempstonMouse,
            ) {
                Some(k) => {
                    &&& found
                    &&& final(self).ula().bus_view() == old(self).ula().bus_view().update(
                        k,
                        crate::bus::device_after_mouse_move(
                            old(self).ula().bus_view()[k],
                            movement,
                        ),
                    )
                },
                None => {
                    &&& !found
                    &&& final(self).ula().bus_view() == old(self).ula().bus_view()
                },
            },
    {
        self.ula.move_mouse(movement)
    }
}

impl Default for Ula128 {
    /// A fresh chipset in its power-on state.
    fn default() -> (chip: Ula128)
        ensures
            chip.wf(),
            chip.ula().frame() == 0,
            chip.ula().position() == 0,
            chip.ula().spec_last_border() == POWER_ON_BORDER,
            chip.spec_mem_page3_bank() == 0,
            !chip.spec_cur_screen_shadow(),
            !chip.spec_beg_screen_shadow(),
            !chip.spec_mem_locked(),
            chip.screen_log() == Seq::<FrameEvent>::empty(),
            forall|i: int| 0 <= i < 4 ==> chip.banks_view()[i] == base_default_slot(i),
    {
        Ula128::new()
    }
}

} // verus!
