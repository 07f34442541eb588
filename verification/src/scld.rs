//! The extension-capable video-controller variant: eight 8K page slots
//! backed by home ROM/RAM, a primary auxiliary ROM pool, or a modulo-wrapped
//! extension-ROM pool, together with per-frame mode and source change logs.

use vstd::prelude::*;
use crate::banks::{BankSource, BankTable};
use crate::bus::{BusDevice, BusDeviceChain, DeviceTag};
use crate::clock::MAX_STEP_TSTATES;
use crate::event_log::{EventLog, FrameEvent, times_bounded, times_sorted};
use crate::mouse::MouseMovement;
use crate::ula::{UlaCore, FRAME_TSTATES_COUNT, POWER_ON_BORDER};

verus! {

/// Control flag: the screen source uses the secondary display file.
pub const CTRL_SCREEN_SECONDARY: u8 = 0b0000_0001;

/// Control flag: attribute data comes from the high-resolution layout.
pub const CTRL_SCREEN_HI_ATTRS: u8 = 0b0000_0010;

/// The two control bits that select the screen source.
pub const CTRL_SCREEN_SOURCE_MASK: u8 = 0b0000_0011;

/// Control flag: the high-resolution video mode is active.
pub const CTRL_SCREEN_HI_RES: u8 = 0b0000_0100;

/// The three control bits holding the high-resolution color index.
pub const CTRL_HIRES_COLOR_MASK: u8 = 0b0011_1000;

/// Control flag: maskable interrupts from the chipset are disabled.
pub const CTRL_INTR_DISABLED: u8 = 0b0100_0000;

/// Control flag: paged-in slots map the extension-ROM pool rather than
/// the primary auxiliary pool.
pub const CTRL_MAP_EX_ROM: u8 = 0b1000_0000;

/// Render-mode bit: high resolution; the low three bits carry the color.
pub const RENDER_MODE_HI_RES: u8 = 0b0000_1000;

/// The highest physical ROM bank index of the default memory
/// configuration.
pub const SCLD_TOTAL_ROM_BANKS: u8 = 12;

/// The highest physical RAM bank index of the default memory
/// configuration: six 8K banks back the home slots.
pub const SCLD_RAM_BANKS_MAX: u8 = 5;

/// The ROM banks below this count are reserved for the primary auxiliary
/// pool and the extension pool's base; what remains above, up to the two
/// home banks, forms the extension-ROM pool.
pub const EX_ROM_RESERVED_BANKS: u8 = 9;

/// The first physical bank of the extension-ROM pool.
pub const EX_ROM_POOL_BASE: u8 = 8;

/// Whether the given page slot's bit is set in a paging mask.
pub open spec fn page_bit(mask: u8, slot: u8) -> bool
    recommends
        slot < 8,
{
    mask & (1u8 << slot) != 0
}

pub open spec fn is_screen_hi_res(flags: u8) -> bool {
    flags & CTRL_SCREEN_HI_RES != 0
}

pub open spec fn is_map_ex_rom(flags: u8) -> bool {
    flags & CTRL_MAP_EX_ROM != 0
}

pub open spec fn hires_color_index(flags: u8) -> u8 {
    (flags & CTRL_HIRES_COLOR_MASK) >> 3u8
}

pub open spec fn source_mode(flags: u8) -> u8 {
    flags & CTRL_SCREEN_SOURCE_MASK
}

/// The extension-ROM bank serving a slot: the pool base plus the slot
/// index wrapped modulo the pool size, so a small pool serves all eight
/// slots.
pub open spec fn ex_rom_bank_for_slot(slot: u8, total_rom_banks: u8) -> u8
    recommends
        slot < 8,
        total_rom_banks >= 10,
{
    (EX_ROM_POOL_BASE + (slot as int) % (total_rom_banks - EX_ROM_RESERVED_BANKS)) as u8
}

/// The home backing of a slot: the fixed ROM pair below, RAM banks
/// offset by the slot index above.
pub open spec fn scld_home_target(slot: u8, total_rom_banks: u8) -> BankSource
    recommends
        slot < 8,
        total_rom_banks >= 10,
{
    if slot > 1 {
        BankSource::Ram((slot - 2) as u8)
    } else {
        BankSource::Rom((total_rom_banks - 1 + slot) as u8)
    }
}

/// The backing of a paged-in slot: the extension-ROM pool under
/// [`CTRL_MAP_EX_ROM`], the primary auxiliary pool otherwise.
pub open spec fn scld_paged_in_target(slot: u8, map_ex_rom: bool, total_rom_banks: u8) -> BankSource
    recommends
        slot < 8,
        total_rom_banks >= 10,
{
    if map_ex_rom {
        BankSource::Rom(ex_rom_bank_for_slot(slot, total_rom_banks))
    } else {
        BankSource::Rom(slot)
    }
}

/// Where a slot points after a paging request `paged`.
pub open spec fn scld_slot_target(slot: u8, paged: u8, map_ex_rom: bool, total_rom_banks: u8) -> BankSource
    recommends
        slot < 8,
        total_rom_banks >= 10,
{
    if page_bit(paged, slot) {
        scld_paged_in_target(slot, map_ex_rom, total_rom_banks)
    } else {
        scld_home_target(slot, total_rom_banks)
    }
}

/// The bank table after a paging request: only the slots whose bit
/// differs between the old and the new mask are remapped.
pub open spec fn scld_banks_after_mem_paged(
    banks: Seq<BankSource>,
    old_paged: u8,
    paged: u8,
    map_ex_rom: bool,
    total_rom_banks: u8,
) -> Seq<BankSource>
    recommends
        banks.len() == 8,
        total_rom_banks >= 10,
{
    Seq::new(
        8,
        |i: int|
            if page_bit(old_paged ^ paged, i as u8) {
                scld_slot_target(i as u8, paged, map_ex_rom, total_rom_banks)
            } else {
                banks[i]
            },
    )
}

/// The bank table after the extension-ROM selector flips: every slot
/// currently paged in is remapped to the pool the new selector names.
pub open spec fn scld_banks_after_ex_rom_switch(
    banks: Seq<BankSource>,
    mem_paged: u8,
    map_ex_rom: bool,
    total_rom_banks: u8,
) -> Seq<BankSource>
    recommends
        banks.len() == 8,
        total_rom_banks >= 10,
{
    Seq::new(
        8,
        |i: int|
            if page_bit(mem_paged, i as u8) {
                scld_paged_in_target(i as u8, map_ex_rom, total_rom_banks)
            } else {
                banks[i]
            },
    )
}

proof fn lemma_xor_self_zero(v: u8)
    by (bit_vector)
    ensures
        v ^ v == 0,
{
}

proof fn lemma_xor_zero_identity(v: u8)
    by (bit_vector)
    ensures
        v ^ 0 == v,
{
}

proof fn lemma_xor_zero_equal(a: u8, b: u8)
    by (bit_vector)
    ensures
        a ^ b == 0 ==> a == b,
{
}

proof fn lemma_zero_has_no_page_bits()
    by (bit_vector)
    ensures
        forall|i: u8| i < 8 ==> (0u8 & (1u8 << i)) == 0,
{
}

/// Applying one valid paging request twice in a row is the same as
/// applying it once: the second application finds no slot whose bit
/// differs, so it leaves every slot where the first left it.
pub proof fn lemma_change_mem_paged_idempotent(
    banks: Seq<BankSource>,
    old_paged: u8,
    paged: u8,
    map_ex_rom: bool,
    total_rom_banks: u8,
)
    requires
        banks.len() == 8,
    ensures
        scld_banks_after_mem_paged(
            scld_banks_after_mem_paged(banks, old_paged, paged, map_ex_rom, total_rom_banks),
            paged,
            paged,
            map_ex_rom,
            total_rom_banks,
        ) == scld_banks_after_mem_paged(banks, old_paged, paged, map_ex_rom, total_rom_banks),
{
    lemma_xor_self_zero(paged);
    lemma_zero_has_no_page_bits();
    let once = scld_banks_after_mem_paged(banks, old_paged, paged, map_ex_rom, total_rom_banks);
    let twice = scld_banks_after_mem_paged(once, paged, paged, map_ex_rom, total_rom_banks);
    assert forall|i: int| 0 <= i < 8 implies twice[i] == once[i] by {
        assert(!page_bit(paged ^ paged, i as u8));
    }
    assert(twice =~= once);
}

/// The video-controller chipset variant: the shared core, eight 8K page
/// slots, the two control latches, and the per-frame mode and source
/// change logs.
#[derive(Clone, Debug)]
pub struct Scld {
    ula: UlaCore,
    banks: BankTable,
    beg_ctrl_flags: u8,
    cur_ctrl_flags: u8,
    mem_paged: u8,
    mode_changes: EventLog,
    source_changes: EventLog,
}

impl Scld {
    /// The shared core's state.
    pub closed spec fn ula(&self) -> UlaCore {
        self.ula
    }

    /// The bank table's slots.
    pub closed spec fn banks_view(&self) -> Seq<BankSource> {
        self.banks@
    }

    /// The highest valid physical ROM bank index.
    pub closed spec fn total_rom_banks(&self) -> u8 {
        self.banks.rom_max()
    }

    /// The highest valid physical RAM bank index.
    pub closed spec fn ram_banks_max(&self) -> u8 {
        self.banks.ram_max()
    }

    /// The control flags latched when the current frame began.
    pub closed spec fn spec_beg_ctrl_flags(&self) -> u8 {
        self.beg_ctrl_flags
    }

    /// The current control flags.
    pub closed spec fn spec_cur_ctrl_flags(&self) -> u8 {
        self.cur_ctrl_flags
    }

    /// The current paging mask.
    pub closed spec fn spec_mem_paged(&self) -> u8 {
        self.mem_paged
    }

    /// The render-mode changes recorded so far this frame.
    pub closed spec fn mode_log(&self) -> Seq<FrameEvent> {
        self.mode_changes@
    }

    /// The screen-source changes recorded so far this frame.
    pub closed spec fn source_log(&self) -> Seq<FrameEvent> {
        self.source_changes@
    }

    pub open spec fn wf(&self) -> bool {
        &&& self.ula().wf()
        &&& self.banks_view().len() == 8
        &&& crate::banks::sources_in_range(
            self.banks_view(),
            self.total_rom_banks(),
            self.ram_banks_max(),
        )
        &&& self.total_rom_banks() >= 10
        &&& self.ram_banks_max() >= 5
        &&& times_sorted(self.mode_log())
        &&& times_bounded(self.mode_log(), self.ula().position())
        &&& times_sorted(self.source_log())
        &&& times_bounded(self.source_log(), self.ula().position())
    }

    /// A fresh chipset: home paging everywhere, empty logs, every control
    /// flag clear.
    pub fn new(total_rom_banks: u8) -> (chip: Scld)
        requires
            total_rom_banks >= 10,
        ensures
            chip.wf(),
            chip.ula().frame() == 0,
            chip.ula().position() == 0,
            chip.ula().frame_len_spec() == FRAME_TSTATES_COUNT,
            chip.ula().spec_last_border() == POWER_ON_BORDER,
            chip.ula().bus_view() == Seq::<BusDevice>::empty(),
            chip.total_rom_banks() == total_rom_banks,
            chip.ram_banks_max() == SCLD_RAM_BANKS_MAX,
            chip.spec_beg_ctrl_flags() == 0,
            chip.spec_cur_ctrl_flags() == 0,
            chip.spec_mem_paged() == 0,
            chip.mode_log() == Seq::<FrameEvent>::empty(),
            chip.source_log() == Seq::<FrameEvent>::empty(),
            forall|i: int|
                0 <= i < 8 ==> chip.banks_view()[i] == scld_home_target(
                    i as u8,
                    total_rom_banks,
                ),
    {
        let mut slots: Vec<BankSource> = Vec::new();
        slots.push(BankSource::Rom(total_rom_banks - 1));
        slots.push(BankSource::Rom(total_rom_banks));
        let mut ram: u8 = 0;
        while ram < 6
            invariant
                ram <= 6,
                slots@.len() == 2 + ram,
                slots@[0] == BankSource::Rom((total_rom_banks - 1) as u8),
                slots@[1] == BankSource::Rom(total_rom_banks),
                forall|i: int| 2 <= i < 2 + ram ==> slots@[i] == BankSource::Ram((i - 2) as u8),
            decreases 6 - ram,
        {
            slots.push(BankSource::Ram(ram));
            ram = ram + 1;
        }
        let banks = BankTable::new(slots, total_rom_banks, SCLD_RAM_BANKS_MAX);
        let chip = Scld {
            ula: UlaCore::new(FRAME_TSTATES_COUNT),
            banks,
            beg_ctrl_flags: 0,
            cur_ctrl_flags: 0,
            mem_paged: 0,
            mode_changes: EventLog::new(),
            source_changes: EventLog::new(),
        };
        proof {
            assert forall|i: int| 0 <= i < 8 implies chip.banks_view()[i] == scld_home_target(
                i as u8,
                total_rom_banks,
            ) by {
                if i > 1 {
                    assert(chip.banks_view()[i] == BankSource::Ram((i - 2) as u8));
                }
            }
        }
        chip
    }

    /// The value the control port reads back.
    pub fn scld_ctrl_port_value(&self) -> (flags: u8)
        ensures
            flags == self.spec_cur_ctrl_flags(),
    {
        self.cur_ctrl_flags
    }

    /// The value the paging port reads back.
    pub fn scld_mmu_port_value(&self) -> (paged: u8)
        ensures
            paged == self.spec_mem_paged(),
    {
        self.mem_paged
    }

    /// A shared reference to the bank table.
    pub fn memory_ref(&self) -> (table: &BankTable)
        ensures
            table@ == self.banks_view(),
            table.rom_max() == self.total_rom_banks(),
            table.ram_max() == self.ram_banks_max(),
    {
        &self.banks
    }

    /// A shared reference to the wrapped core.
    pub fn inner_ref(&self) -> (core: &UlaCore)
        ensures
            *core == self.ula(),
    {
        &self.ula
    }

    /// Unwraps the chipset into its core.
    pub fn into_inner(self) -> (core: UlaCore)
        ensures
            core == self.ula(),
    {
        self.ula
    }

    /// Takes the device chain out of the chipset.
    pub fn into_bus_device(self) -> (chain: BusDeviceChain)
        ensures
            chain@ == self.ula().bus_view(),
    {
        self.ula.into_bus()
    }

    /// The physical bank currently backing a page slot.
    pub fn bank_source_at(&self, slot: usize) -> (source: BankSource)
        requires
            slot < self.banks_view().len(),
        ensures
            source == self.banks_view()[slot as int],
    {
        self.banks.source_at(slot)
    }

    /// Remaps the page slots whose bit differs between the current and
    /// the requested paging mask: a cleared bit restores the slot's home
    /// bank, a set bit pages in the pool the extension-ROM selector
    /// names.  Requesting the current mask again changes nothing.
    pub fn change_mem_paged(&mut self, paged: u8)
        requires
            old(self).wf(),
        ensures
            final(self).wf(),
            final(self).spec_mem_paged() == paged,
            final(self).banks_view() == scld_banks_after_mem_paged(
                old(self).banks_view(),
                old(self).spec_mem_paged(),
                paged,
                is_map_ex_rom(old(self).spec_cur_ctrl_flags()),
                old(self).total_rom_banks(),
            ),
            old(self).spec_mem_paged() == paged ==> *final(self) == *old(self),
            final(self).ula() == old(self).ula(),
            final(self).total_rom_banks() == old(self).total_rom_banks(),
            final(self).ram_banks_max() == old(self).ram_banks_max(),
            final(self).spec_beg_ctrl_flags() == old(self).spec_beg_ctrl_flags(),
            final(self).spec_cur_ctrl_flags() == old(self).spec_cur_ctrl_flags(),
            final(self).mode_log() == old(self).mode_log(),
            final(self).source_log() == old(self).source_log(),
    {
        let diff_pages = self.mem_paged ^ paged;
        if diff_pages == 0 {
            proof {
                lemma_xor_zero_equal(self.mem_paged, paged);
                lemma_zero_has_no_page_bits();
                assert(self.banks_view() =~= scld_banks_after_mem_paged(
                    self.banks_view(),
                    self.spec_mem_paged(),
                    paged,
                    is_map_ex_rom(self.spec_cur_ctrl_flags()),
                    self.total_rom_banks(),
                ));
            }
            return ;
        }
        proof {
            if old(self).spec_mem_paged() == paged {
                lemma_xor_self_zero(paged);
                assert(false);
            }
        }
        let map_ex_rom = self.cur_ctrl_flags & CTRL_MAP_EX_ROM != 0;
        let ghost banks0 = self.banks_view();
        let ghost target = scld_banks_after_mem_paged(
            banks0,
            self.spec_mem_paged(),
            paged,
            is_map_ex_rom(self.spec_cur_ctrl_flags()),
            self.total_rom_banks(),
        );
        let total_rom_banks = self.banks.rom_max_value();
        let mut page: u8 = 0;
        while page < 8
            invariant
                self.wf(),
                page <= 8,
                diff_pages == self.spec_mem_paged() ^ paged,
                map_ex_rom == is_map_ex_rom(self.spec_cur_ctrl_flags()),
                total_rom_banks == self.total_rom_banks(),
                self.banks_view().len() == 8,
                banks0.len() == 8,
                target == scld_banks_after_mem_paged(
                    banks0,
                    self.spec_mem_paged(),
                    paged,
                    is_map_ex_rom(self.spec_cur_ctrl_flags()),
                    self.total_rom_banks(),
                ),
                forall|i: int| page <= i < 8 ==> self.banks_view()[i] == banks0[i],
                forall|i: int| 0 <= i < page ==> self.banks_view()[i] == target[i],
                self.ula() == old(self).ula(),
                self.total_rom_banks() == old(self).total_rom_banks(),
                self.ram_banks_max() == old(self).ram_banks_max(),
                self.spec_beg_ctrl_flags() == old(self).spec_beg_ctrl_flags(),
                self.spec_cur_ctrl_flags() == old(self).spec_cur_ctrl_flags(),
                self.spec_mem_paged() == old(self).spec_mem_paged(),
                self.mode_log() == old(self).mode_log(),
                self.source_log() == old(self).source_log(),
            decreases 8 - page,
        {
            let mask = 1u8 << page;
            if diff_pages & mask != 0 {
                let result = if paged & mask == 0 {
                    if page > 1 {
                        self.banks.map_ram_bank((page - 2) as usize, page as usize)
                    } else {
                        self.banks.map_rom_bank(
                            (total_rom_banks - 1 + page) as usize,
                            page as usize,
                        )
                    }
                } else if map_ex_rom {
                    let pool_size = total_rom_banks - EX_ROM_RESERVED_BANKS;
                    self.banks.map_rom_bank(
                        (EX_ROM_POOL_BASE + page % pool_size) as usize,
                        page as usize,
                    )
                } else {
                    self.banks.map_rom_bank(page as usize, page as usize)
                };
                match result {
                    Ok(()) => {},
                    Err(_) => {
                        proof {
                            assert(false);
                        }
                    },
                }
                proof {
                    assert(self.banks_view()[page as int] == scld_slot_target(
                        page,
                        paged,
                        map_ex_rom,
                        total_rom_banks,
                    ));
                }
            }
            page = page + 1;
        }
        self.mem_paged = paged;
        proof {
            assert(self.banks_view() =~= target);
        }
    }

    /// Appends one render-mode change to the frame's mode log.
    pub fn push_mode_change(&mut self, ts: u32, render_mode: u8)
        requires
            old(self).wf(),
            times_bounded(old(self).mode_log(), ts),
            ts <= old(self).ula().position(),
        ensures
            final(self).wf(),
            final(self).mode_log() == old(self).mode_log().push(
                FrameEvent { ts, data: render_mode },
            ),
            final(self).ula() == old(self).ula(),
            final(self).banks_view() == old(self).banks_view(),
            final(self).total_rom_banks() == old(self).total_rom_banks(),
            final(self).ram_banks_max() == old(self).ram_banks_max(),
            final(self).spec_beg_ctrl_flags() == old(self).spec_beg_ctrl_flags(),
            final(self).spec_cur_ctrl_flags() == old(self).spec_cur_ctrl_flags(),
            final(self).spec_mem_paged() == old(self).spec_mem_paged(),
            final(self).source_log() == old(self).source_log(),
    {
        self.mode_changes.push(ts, render_mode);
    }

    /// Latches a new border color.  While the high-resolution mode is
    /// off, an effective change is recorded in the mode log; a write that
    /// does not change the effective state is not logged.
    pub fn change_border_color(&mut self, border: u8, ts: u32)
        requires
            old(self).wf(),
            border <= 7,
            times_bounded(old(self).mode_log(), ts),
            ts <= old(self).ula().position(),
        ensures
            final(self).wf(),
            final(self).ula().spec_last_border() == border,
            final(self).mode_log() == (if old(self).ula().spec_last_border() != border
                && !is_screen_hi_res(old(self).spec_cur_ctrl_flags()) {
                old(self).mode_log().push(FrameEvent { ts, data: border })
            } else {
                old(self).mode_log()
            }),
            final(self).ula().frame() == old(self).ula().frame(),
            final(self).ula().position() == old(self).ula().position(),
            final(self).ula().frame_len_spec() == old(self).ula().frame_len_spec(),
            final(self).ula().carry() == old(self).ula().carry(),
            final(self).ula().beg_border() == old(self).ula().beg_border(),
            final(self).ula().border_log() == old(self).ula().border_log(),
            final(self).ula().bus_view() == old(self).ula().bus_view(),
            final(self).banks_view() == old(self).banks_view(),
            final(self).total_rom_banks() == old(self).total_rom_banks(),
            final(self).ram_banks_max() == old(self).ram_banks_max(),
            final(self).spec_beg_ctrl_flags() == old(self).spec_beg_ctrl_flags(),
            final(self).spec_cur_ctrl_flags() == old(self).spec_cur_ctrl_flags(),
            final(self).spec_mem_paged() == old(self).spec_mem_paged(),
            final(self).source_log() == old(self).source_log(),
    {
        if self.ula.border_color() != border {
            if self.cur_ctrl_flags & CTRL_SCREEN_HI_RES == 0 {
                self.mode_changes.push(ts, border);
            }
            self.ula.set_border_color(border);
        }
    }

    /// The render mode the frame began with: high resolution with its
    /// color when the frame-start flags say so, otherwise the border
    /// color the frame began with.
    pub fn beg_render_mode(&self) -> (render_mode: u8)
        ensures
            render_mode == (if is_screen_hi_res(self.spec_beg_ctrl_flags()) {
                RENDER_MODE_HI_RES | hires_color_index(self.spec_beg_ctrl_flags())
            } else {
                self.ula().beg_border()
            }),
    {
        if self.beg_ctrl_flags & CTRL_SCREEN_HI_RES != 0 {
            RENDER_MODE_HI_RES | ((self.beg_ctrl_flags & CTRL_HIRES_COLOR_MASK) >> 3)
        } else {
            self.ula.beg_border_color()
        }
    }

    /// Latches new control flags.  Flipping the extension-ROM selector
    /// remaps every paged-in slot; a screen-source change and an
    /// effective render-mode change each append to their log.
    pub fn change_ctrl_flag(&mut self, flags: u8, ts: u32)
        requires
            old(self).wf(),
            times_bounded(old(self).mode_log(), ts),
            times_bounded(old(self).source_log(), ts),
            ts <= old(self).ula().position(),
        ensures
            final(self).wf(),
            final(self).spec_cur_ctrl_flags() == flags,
            final(self).banks_view() == (if old(self).spec_mem_paged() != 0 && is_map_ex_rom(
                old(self).spec_cur_ctrl_flags() ^ flags,
            ) {
                scld_banks_after_ex_rom_switch(
                    old(self).banks_view(),
                    old(self).spec_mem_paged(),
                    is_map_ex_rom(flags),
                    old(self).total_rom_banks(),
                )
            } else {
                old(self).banks_view()
            }),
            final(self).source_log() == (if source_mode(old(self).spec_cur_ctrl_flags() ^ flags)
                != 0 {
                old(self).source_log().push(FrameEvent { ts, data: source_mode(flags) })
            } else {
                old(self).source_log()
            }),
            final(self).mode_log() == (if is_screen_hi_res(flags) && (old(
                self,
            ).spec_cur_ctrl_flags() ^ flags) & (CTRL_SCREEN_HI_RES | CTRL_HIRES_COLOR_MASK)
                != 0 {
                old(self).mode_log().push(
                    FrameEvent { ts, data: RENDER_MODE_HI_RES | hires_color_index(flags) },
                )
            } else if !is_screen_hi_res(flags) && is_screen_hi_res(
                old(self).spec_cur_ctrl_flags() ^ flags,
            ) {
                old(self).mode_log().push(
                    FrameEvent { ts, data: old(self).ula().spec_last_border() },
                )
            } else {
                old(self).mode_log()
            }),
            final(self).ula() == old(self).ula(),
            final(self).total_rom_banks() == old(self).total_rom_banks(),
            final(self).ram_banks_max() == old(self).ram_banks_max(),
            final(self).spec_beg_ctrl_flags() == old(self).spec_beg_ctrl_flags(),
            final(self).spec_mem_paged() == old(self).spec_mem_paged(),
    {
        let diff_flags = self.cur_ctrl_flags ^ flags;
        if self.mem_paged != 0 && diff_flags & CTRL_MAP_EX_ROM != 0 {
            let map_ex_rom = flags & CTRL_MAP_EX_ROM != 0;
            let ghost banks0 = self.banks_view();
            let ghost target = scld_banks_after_ex_rom_switch(
                banks0,
                self.spec_mem_paged(),
                is_map_ex_rom(flags),
                self.total_rom_banks(),
            );
            let total_rom_banks = self.banks.rom_max_value();
            let mem_paged = self.mem_paged;
            let mut page: u8 = 0;
            while page < 8
                invariant
                    self.wf(),
                    page <= 8,
                    mem_paged == self.spec_mem_paged(),
                    map_ex_rom == is_map_ex_rom(flags),
                    total_rom_banks == self.total_rom_banks(),
                    self.banks_view().len() == 8,
                    banks0.len() == 8,
                    target == scld_banks_after_ex_rom_switch(
                        banks0,
                        self.spec_mem_paged(),
                        is_map_ex_rom(flags),
                        self.total_rom_banks(),
                    ),
                    forall|i: int| page <= i < 8 ==> self.banks_view()[i] == banks0[i],
                    forall|i: int| 0 <= i < page ==> self.banks_view()[i] == target[i],
                    self.ula() == old(self).ula(),
                    self.total_rom_banks() == old(self).total_rom_banks(),
                    self.ram_banks_max() == old(self).ram_banks_max(),
                    self.spec_beg_ctrl_flags() == old(self).spec_beg_ctrl_flags(),
                    self.spec_cur_ctrl_flags() == old(self).spec_cur_ctrl_flags(),
                    self.spec_mem_paged() == old(self).spec_mem_paged(),
                    self.mode_log() == old(self).mode_log(),
                    self.source_log() == old(self).source_log(),
                decreases 8 - page,
            {
                let mask = 1u8 << page;
                if mem_paged & mask != 0 {
                    let result = if map_ex_rom {
                        let pool_size = total_rom_banks - EX_ROM_RESERVED_BANKS;
                        self.banks.map_rom_bank(
                            (EX_ROM_POOL_BASE + page % pool_size) as usize,
                            page as usize,
                        )
                    } else {
                        self.banks.map_rom_bank(page as usize, page as usize)
                    };
                    match result {
                        Ok(()) => {},
                        Err(_) => {
                            proof {
                                assert(false);
                            }
                        },
                    }
                    proof {
                        assert(self.banks_view()[page as int] == scld_paged_in_target(
                            page,
                            map_ex_rom,
                            total_rom_banks,
                        ));
                    }
                }
                page = page + 1;
            }
            proof {
                assert(self.banks_view() =~= target);
            }
        }
        if diff_flags & CTRL_SCREEN_SOURCE_MASK != 0 {
            self.source_changes.push(ts, flags & CTRL_SCREEN_SOURCE_MASK);
        }
        if flags & CTRL_SCREEN_HI_RES != 0 {
            if diff_flags & (CTRL_SCREEN_HI_RES | CTRL_HIRES_COLOR_MASK) != 0 {
                self.mode_changes.push(
                    ts,
                    RENDER_MODE_HI_RES | ((flags & CTRL_HIRES_COLOR_MASK) >> 3),
                );
            }
        } else if diff_flags & CTRL_SCREEN_HI_RES != 0 {
            let border = self.ula.border_color();
            self.mode_changes.push(ts, border);
        }
        self.cur_ctrl_flags = flags;
    }

    /// The frame-boundary transition: the control flags and border at
    /// frame start are recorded as the new frame's initial state, every
    /// per-frame log is cleared, and the clock wraps into the new frame.
    pub fn prepare_next_frame(&mut self)
        requires
            old(self).wf(),
            old(self).ula().spec_is_frame_over(),
            old(self).ula().frame() < u64::MAX,
        ensures
            final(self).wf(),
            final(self).ula().frame() == old(self).ula().frame() + 1,
            final(self).ula().position() == old(self).ula().carry(),
            final(self).ula().carry() == 0,
            final(self).ula().frame_len_spec() == old(self).ula().frame_len_spec(),
            final(self).ula().beg_border() == old(self).ula().spec_last_border(),
            final(self).ula().spec_last_border() == old(self).ula().spec_last_border(),
            final(self).ula().border_log() == Seq::<FrameEvent>::empty(),
            final(self).ula().bus_view() == old(self).ula().bus_view(),
            !final(self).ula().spec_is_frame_over(),
            final(self).spec_beg_ctrl_flags() == old(self).spec_cur_ctrl_flags(),
            final(self).spec_cur_ctrl_flags() == old(self).spec_cur_ctrl_flags(),
            final(self).spec_mem_paged() == old(self).spec_mem_paged(),
            final(self).banks_view() == old(self).banks_view(),
            final(self).total_rom_banks() == old(self).total_rom_banks(),
            final(self).ram_banks_max() == old(self).ram_banks_max(),
            final(self).mode_log() == Seq::<FrameEvent>::empty(),
            final(self).source_log() == Seq::<FrameEvent>::empty(),
    {
        self.beg_ctrl_flags = self.cur_ctrl_flags;
        self.mode_changes.clear();
        self.source_changes.clear();
        self.ula.prepare_next_frame();
    }

    /// Idempotent frame-boundary handling: performs the transition when
    /// the clock reports frame-over, and otherwise does nothing.
    pub fn ensure_next_frame(&mut self)
        requires
            old(self).wf(),
            old(self).ula().spec_is_frame_over() ==> old(self).ula().frame() < u64::MAX,
        ensures
            final(self).wf(),
            old(self).ula().spec_is_frame_over() ==> {
                &&& final(self).ula().frame() == old(self).ula().frame() + 1
                &&& final(self).ula().position() == old(self).ula().carry()
                &&& final(self).mode_log() == Seq::<FrameEvent>::empty()
                &&& final(self).source_log() == Seq::<FrameEvent>::empty()
                &&& final(self).ula().border_log() == Seq::<FrameEvent>::empty()
                &&& final(self).spec_beg_ctrl_flags() == old(self).spec_cur_ctrl_flags()
                &&& final(self).ula().beg_border() == old(self).ula().spec_last_border()
            },
            !old(self).ula().spec_is_frame_over() ==> *final(self) == *old(self),
            !final(self).ula().spec_is_frame_over(),
            final(self).ula().spec_last_border() == old(self).ula().spec_last_border(),
            final(self).spec_cur_ctrl_flags() == old(self).spec_cur_ctrl_flags(),
            final(self).spec_mem_paged() == old(self).spec_mem_paged(),
            final(self).banks_view() == old(self).banks_view(),
            final(self).ula().bus_view() == old(self).ula().bus_view(),
            final(self).total_rom_banks() == old(self).total_rom_banks(),
            final(self).ram_banks_max() == old(self).ram_banks_max(),
    {
        if self.ula.is_frame_over() {
            self.prepare_next_frame();
        }
    }

    /// Resets the chipset.  A hard reset re-zeroes the paging state and
    /// forces the initial video mode; a soft reset preserves both.  The
    /// border color is left unmodified either way.
    pub fn reset(&mut self, hard: bool)
        requires
            old(self).wf(),
        ensures
            final(self).wf(),
            final(self).ula().bus_view().len() == old(self).ula().bus_view().len(),
            forall|i: int|
                0 <= i < old(self).ula().bus_view().len() ==> final(self).ula().bus_view()[i]
                    == crate::bus::device_after_reset(#[trigger] old(self).ula().bus_view()[i]),
            final(self).ula().frame() == old(self).ula().frame(),
            final(self).ula().position() == old(self).ula().position(),
            final(self).ula().frame_len_spec() == old(self).ula().frame_len_spec(),
            final(self).ula().spec_last_border() == old(self).ula().spec_last_border(),
            final(self).ula().border_log() == old(self).ula().border_log(),
            final(self).banks_view() == old(self).banks_view(),
            final(self).total_rom_banks() == old(self).total_rom_banks(),
            final(self).ram_banks_max() == old(self).ram_banks_max(),
            final(self).spec_beg_ctrl_flags() == old(self).spec_beg_ctrl_flags(),
            hard ==> {
                &&& final(self).spec_mem_paged() == 0
                &&& final(self).spec_cur_ctrl_flags() == 0
                &&& final(self).source_log() == (if source_mode(old(self).spec_cur_ctrl_flags())
                    != 0 {
                    old(self).source_log().push(
                        FrameEvent { ts: old(self).ula().position(), data: 0 },
                    )
                } else {
                    old(self).source_log()
                })
                &&& final(self).mode_log() == (if is_screen_hi_res(
                    old(self).spec_cur_ctrl_flags(),
                ) {
                    old(self).mode_log().push(
                        FrameEvent {
                            ts: old(self).ula().position(),
                            data: old(self).ula().spec_last_border(),
                        },
                    )
                } else {
                    old(self).mode_log()
                })
            },
            !hard ==> {
                &&& final(self).spec_mem_paged() == old(self).spec_mem_paged()
                &&& final(self).spec_cur_ctrl_flags() == old(self).spec_cur_ctrl_flags()
                &&& final(self).source_log() == old(self).source_log()
                &&& final(self).mode_log() == old(self).mode_log()
            },
    {
        self.ula.reset();
        if hard {
            self.mem_paged = 0;
            let ts = self.ula.video_ts();
            proof {
                lemma_xor_zero_identity(self.spec_cur_ctrl_flags());
                lemma_zero_has_no_page_bits();
                assert(0u8 & CTRL_SCREEN_SOURCE_MASK == 0) by (bit_vector);
                assert(0u8 & CTRL_SCREEN_HI_RES == 0) by (bit_vector);
            }
            self.change_ctrl_flag(0, ts);
        }
    }

    /// Commits the cycles one CPU step consumed against the frame clock.
    pub fn commit_step(&mut self, cycles: u32)
        requires
            old(self).wf(),
            !old(self).ula().spec_is_frame_over(),
            1 <= cycles <= MAX_STEP_TSTATES,
        ensures
            final(self).wf(),
            final(self).ula().position() + final(self).ula().carry() == old(self).ula().position()
                + cycles,
            final(self).ula().position() > old(self).ula().position(),
            final(self).ula().frame() == old(self).ula().frame(),
            final(self).ula().frame_len_spec() == old(self).ula().frame_len_spec(),
            final(self).ula().beg_border() == old(self).ula().beg_border(),
            final(self).ula().spec_last_border() == old(self).ula().spec_last_border(),
            final(self).ula().border_log() == old(self).ula().border_log(),
            final(self).ula().bus_view() == old(self).ula().bus_view(),
            final(self).banks_view() == old(self).banks_view(),
            final(self).spec_beg_ctrl_flags() == old(self).spec_beg_ctrl_flags(),
            final(self).spec_cur_ctrl_flags() == old(self).spec_cur_ctrl_flags(),
            final(self).spec_mem_paged() == old(self).spec_mem_paged(),
            final(self).mode_log() == old(self).mode_log(),
            final(self).source_log() == old(self).source_log(),
            final(self).total_rom_banks() == old(self).total_rom_banks(),
            final(self).ram_banks_max() == old(self).ram_banks_max(),
    {
        self.ula.commit_step(cycles);
    }


    /// Commits the cycles one single-stepped instruction consumed, and
    /// turns the host's breakpoint condition into the explicit stop-early
    /// signal: the step is committed either way, and the signal is a
    /// control outcome, not a fault.
    pub fn commit_single_step(&mut self, cycles: u32, breakpoint: bool) -> (outcome: Result<
        (),
        (),
    >)
        requires
            old(self).wf(),
            !old(self).ula().spec_is_frame_over(),
            1 <= cycles <= MAX_STEP_TSTATES,
        ensures
            final(self).wf(),
            outcome == (if breakpoint {
                Result::<(), ()>::Err(())
            } else {
                Result::<(), ()>::Ok(())
            }),
            final(self).ula().position() + final(self).ula().carry() == old(self).ula().position()
                + cycles,
            final(self).ula().frame() == old(self).ula().frame(),
    {
        self.commit_step(cycles);
        if breakpoint {
            Err(())
        } else {
            Ok(())
        }
    }

    /// Whether the chipset asserts the frame interrupt at the given
    /// frame position: only during the pulse at the start of a frame,
    /// and never while the control latch disables the interrupt.
    pub fn interrupt_asserted_at(&self, pos: u32) -> (asserted: bool)
        ensures
            asserted == (pos < crate::ula::INT_PULSE_TSTATES && self.spec_cur_ctrl_flags()
                & CTRL_INTR_DISABLED == 0),
    {
        pos < crate::ula::INT_PULSE_TSTATES && self.cur_ctrl_flags & CTRL_INTR_DISABLED == 0
    }

    /// The wait cycles a memory access at the given address incurs right
    /// now: accesses to the video region contend with the video fetch.
    pub fn memory_access_wait(&self, address: u16) -> (wait: u32)
        ensures
            wait == (if crate::ula::spec_base_contended_address(address) {
                crate::ula::spec_contention_delay(
                    self.ula().position(),
                    crate::ula::CONTENTION_WINDOW_START,
                    crate::ula::CONTENTION_LINES,
                    crate::ula::LINE_TSTATES_COUNT,
                )
            } else {
                0u32
            }),
    {
        if crate::ula::base_contended_address(address) {
            crate::ula::contention_delay(
                self.ula.current_tstate(),
                crate::ula::CONTENTION_WINDOW_START,
                crate::ula::CONTENTION_LINES,
                crate::ula::LINE_TSTATES_COUNT,
            )
        } else {
            0
        }
    }

    pub fn current_frame(&self) -> (frame: u64)
        ensures
            frame == self.ula().frame(),
    {
        self.ula.current_frame()
    }

    pub fn frame_tstate(&self) -> (pair: (u64, u32))
        requires
            self.wf(),
            self.ula().frame() < u64::MAX,
        ensures
            pair == (if self.ula().spec_is_frame_over() {
                ((self.ula().frame() + 1) as u64, 0u32)
            } else {
                (self.ula().frame(), self.ula().position())
            }),
    {
        self.ula.frame_tstate()
    }

    pub fn current_tstate(&self) -> (pos: u32)
        ensures
            pos == self.ula().position(),
    {
        self.ula.current_tstate()
    }

    pub fn is_frame_over(&self) -> (over: bool)
        ensures
            over == self.ula().spec_is_frame_over(),
    {
        self.ula.is_frame_over()
    }

    pub fn video_ts(&self) -> (pos: u32)
        ensures
            pos == self.ula().position(),
    {
        self.ula.video_ts()
    }

    pub fn set_video_ts(&mut self, pos: u32)
        requires
            old(self).wf(),
            old(self).ula().position() <= pos <= old(self).ula().frame_len_spec(),
            pos == old(self).ula().frame_len_spec() || old(self).ula().carry() == 0,
        ensures
            final(self).wf(),
            final(self).ula().position() == pos,
            final(self).ula().frame() == old(self).ula().frame(),
            final(self).ula().frame_len_spec() == old(self).ula().frame_len_spec(),
            final(self).banks_view() == old(self).banks_view(),
            final(self).spec_cur_ctrl_flags() == old(self).spec_cur_ctrl_flags(),
            final(self).spec_mem_paged() == old(self).spec_mem_paged(),
            final(self).mode_log() == old(self).mode_log(),
            final(self).source_log() == old(self).source_log(),
    {
        self.ula.set_video_ts(pos);
    }

    /// Restores the frame counter of a fresh chipset from a persisted
    /// state.
    pub fn restore_frame_count(&mut self, frames: u64)
        requires
            old(self).wf(),
            old(self).ula().frame() == 0,
        ensures
            final(self).wf(),
            final(self).ula().frame() == frames,
            final(self).ula().position() == old(self).ula().position(),
            final(self).ula().spec_last_border() == old(self).ula().spec_last_border(),
            final(self).banks_view() == old(self).banks_view(),
    {
        self.ula.restore_frame_count(frames);
    }

    pub fn border_color(&self) -> (border: u8)
        ensures
            border == self.ula().spec_last_border(),
    {
        self.ula.border_color()
    }

    /// Sets the border latch directly, without logging; used when a
    /// persisted state is restored.
    pub fn set_border_color(&mut self, border: u8)
        requires
            old(self).wf(),
            border <= 7,
        ensures
            final(self).wf(),
            final(self).ula().spec_last_border() == border,
            final(self).ula().frame() == old(self).ula().frame(),
            final(self).ula().position() == old(self).ula().position(),
            final(self).ula().border_log() == old(self).ula().border_log(),
            final(self).ula().bus_view() == old(self).ula().bus_view(),
            final(self).banks_view() == old(self).banks_view(),
            final(self).total_rom_banks() == old(self).total_rom_banks(),
            final(self).ram_banks_max() == old(self).ram_banks_max(),
            final(self).spec_beg_ctrl_flags() == old(self).spec_beg_ctrl_flags(),
            final(self).spec_cur_ctrl_flags() == old(self).spec_cur_ctrl_flags(),
            final(self).spec_mem_paged() == old(self).spec_mem_paged(),
            final(self).mode_log() == old(self).mode_log(),
            final(self).source_log() == old(self).source_log(),
    {
        self.ula.set_border_color(border);
    }

    pub fn mode_change_count(&self) -> (n: usize)
        ensures
            n == self.mode_log().len(),
    {
        self.mode_changes.len()
    }

    pub fn mode_change(&self, i: usize) -> (event: FrameEvent)
        requires
            i < self.mode_log().len(),
        ensures
            event == self.mode_log()[i as int],
    {
        self.mode_changes.entry(i)
    }

    pub fn source_change_count(&self) -> (n: usize)
        ensures
            n == self.source_log().len(),
    {
        self.source_changes.len()
    }

    pub fn source_change(&self, i: usize) -> (event: FrameEvent)
        requires
            i < self.source_log().len(),
        ensures
            event == self.source_log()[i as int],
    {
        self.source_changes.entry(i)
    }

    /// Attaches a peripheral at the end of the device chain.
    pub fn attach_device(&mut self, device: BusDevice)
        requires
            old(self).wf(),
        ensures
            final(self).wf(),
            final(self).ula().bus_view() == old(self).ula().bus_view().push(device),
            final(self).banks_view() == old(self).banks_view(),
            final(self).spec_cur_ctrl_flags() == old(self).spec_cur_ctrl_flags(),
            final(self).spec_mem_paged() == old(self).spec_mem_paged(),
            final(self).mode_log() == old(self).mode_log(),
            final(self).source_log() == old(self).source_log(),
            final(self).ula().position() == old(self).ula().position(),
            final(self).ula().frame() == old(self).ula().frame(),
            final(self).ula().spec_last_border() == old(self).ula().spec_last_border(),
    {
        self.ula.attach_device(device);
    }

    /// Detaches the first device with the given type tag.
    pub fn detach_first_device(&mut self, tag: DeviceTag) -> (detached: Option<BusDevice>)
        requires
            old(self).wf(),
        ensures
            final(self).wf(),
            match crate::bus::first_with_tag(old(self).ula().bus_view(), tag) {
                Some(k) => {
                    &&& detached == Some(old(self).ula().bus_view()[k])
                    &&& final(self).ula().bus_view() == old(self).ula().bus_view().remove(k)
                },
                None => {
                    &&& detached is None
                    &&& final(self).ula().bus_view() == old(self).ula().bus_view()
                },
            },
    {
        self.ula.detach_first_device(tag)
    }

    /// A shared reference to the device chain.
    pub fn bus_device_ref(&self) -> (chain: &BusDeviceChain)
        ensures
            chain@ == self.ula().bus_view(),
    {
        self.ula.bus_device_ref()
    }

    /// Answers a port read.  The chipset's own ports read back the
    /// control latch and the paging mask; every other port is offered to
    /// the device chain, and with no claimant the access falls through to
    /// the caller.
    pub fn read_io(&self, port: u16) -> (value: Option<u8>)
        ensures
            port & 0xff == 0xff ==> value == Some(self.spec_cur_ctrl_flags()),
            port & 0xff == 0xf4 ==> value == Some(self.spec_mem_paged()),
            port & 0xff != 0xff && port & 0xff != 0xf4 ==> (match crate::bus::first_claim(
                self.ula().bus_view(),
                port,
            ) {
                Some(i) => value == Some(
                    crate::bus::device_read_value(self.ula().bus_view()[i], port),
                ),
                None => value is None,
            }),
    {
        let low = port & 0xff;
        if low == 0xff {
            Some(self.cur_ctrl_flags)
        } else if low == 0xf4 {
            Some(self.mem_paged)
        } else {
            self.ula.bus_port_read(port)
        }
    }

    /// Handles a port write at the current timestamp.  The three chipset
    /// ports drive the control latch, the paging mask and the border
    /// color; every other port is offered to the device chain.
    pub fn write_io(&mut self, port: u16, value: u8)
        requires
            old(self).wf(),
        ensures
            final(self).wf(),
            final(self).ula().frame() == old(self).ula().frame(),
            final(self).ula().position() == old(self).ula().position(),
            final(self).spec_beg_ctrl_flags() == old(self).spec_beg_ctrl_flags(),
            final(self).total_rom_banks() == old(self).total_rom_banks(),
            final(self).ram_banks_max() == old(self).ram_banks_max(),
            port & 0xff == 0xff ==> {
                &&& final(self).spec_cur_ctrl_flags() == value
                &&& final(self).banks_view() == (if old(self).spec_mem_paged() != 0
                    && is_map_ex_rom(old(self).spec_cur_ctrl_flags() ^ value) {
                    scld_banks_after_ex_rom_switch(
                        old(self).banks_view(),
                        old(self).spec_mem_paged(),
                        is_map_ex_rom(value),
                        old(self).total_rom_banks(),
                    )
                } else {
                    old(self).banks_view()
                })
                &&& final(self).source_log() == (if source_mode(
                    old(self).spec_cur_ctrl_flags() ^ value,
                ) != 0 {
                    old(self).source_log().push(
                        FrameEvent { ts: old(self).ula().position(), data: source_mode(value) },
                    )
                } else {
                    old(self).source_log()
                })
                &&& final(self).mode_log() == (if is_screen_hi_res(value) && (old(
                    self,
                ).spec_cur_ctrl_flags() ^ value) & (CTRL_SCREEN_HI_RES | CTRL_HIRES_COLOR_MASK)
                    != 0 {
                    old(self).mode_log().push(
                        FrameEvent {
                            ts: old(self).ula().position(),
                            data: RENDER_MODE_HI_RES | hires_color_index(value),
                        },
                    )
                } else if !is_screen_hi_res(value) && is_screen_hi_res(
                    old(self).spec_cur_ctrl_flags() ^ value,
                ) {
                    old(self).mode_log().push(
                        FrameEvent {
                            ts: old(self).ula().position(),
                            data: old(self).ula().spec_last_border(),
                        },
                    )
                } else {
                    old(self).mode_log()
                })
                &&& final(self).spec_mem_paged() == old(self).spec_mem_paged()
                &&& final(self).ula() == old(self).ula()
            },
            port & 0xff == 0xf4 ==> {
                &&& final(self).spec_mem_paged() == value
                &&& final(self).banks_view() == scld_banks_after_mem_paged(
                    old(self).banks_view(),
                    old(self).spec_mem_paged(),
                    value,
                    is_map_ex_rom(old(self).spec_cur_ctrl_flags()),
                    old(self).total_rom_banks(),
                )
                &&& final(self).spec_cur_ctrl_flags() == old(self).spec_cur_ctrl_flags()
                &&& final(self).ula() == old(self).ula()
                &&& final(self).mode_log() == old(self).mode_log()
                &&& final(self).source_log() == old(self).source_log()
            },
            port & 0xff == 0xfe ==> {
                &&& final(self).ula().spec_last_border() == value & 7
                &&& final(self).mode_log() == (if old(self).ula().spec_last_border() != value & 7
                    && !is_screen_hi_res(old(self).spec_cur_ctrl_flags()) {
                    old(self).mode_log().push(
                        FrameEvent { ts: old(self).ula().position(), data: (value & 7) as u8 },
                    )
                } else {
                    old(self).mode_log()
                })
                &&& final(self).banks_view() == old(self).banks_view()
                &&& final(self).spec_cur_ctrl_flags() == old(self).spec_cur_ctrl_flags()
                &&& final(self).spec_mem_paged() == old(self).spec_mem_paged()
                &&& final(self).source_log() == old(self).source_log()
                &&& final(self).ula().bus_view() == old(self).ula().bus_view()
            },
            port & 0xff != 0xff && port & 0xff != 0xf4 && port & 0xff != 0xfe ==> {
                &&& final(self).banks_view() == old(self).banks_view()
                &&& final(self).spec_cur_ctrl_flags() == old(self).spec_cur_ctrl_flags()
                &&& final(self).spec_mem_paged() == old(self).spec_mem_paged()
                &&& final(self).mode_log() == old(self).mode_log()
                &&& final(self).source_log() == old(self).source_log()
                &&& final(self).ula().spec_last_border() == old(self).ula().spec_last_border()
                &&& (match crate::bus::first_claim(old(self).ula().bus_view(), port) {
                    Some(i) => final(self).ula().bus_view() == old(self).ula().bus_view().update(
                        i,
                        crate::bus::device_after_write(old(self).ula().bus_view()[i], port, value),
                    ),
                    None => final(self).ula().bus_view() == old(self).ula().bus_view(),
                })
            },
    {
        let low = port & 0xff;
        let ts = self.ula.video_ts();
        if low == 0xff {
            self.change_ctrl_flag(value, ts);
        } else if low == 0xf4 {
            self.change_mem_paged(value);
        } else if low == 0xfe {
            proof {
                assert(value & 7u8 <= 7) by (bit_vector);
            }
            self.change_border_color(value & 7, ts);
        } else {
            self.ula.bus_port_write(port, value);
        }
    }

    /// Latches a new mouse button state, if a mouse is attached.
    pub fn set_mouse_buttons(&mut self, buttons: u8) -> (found: bool)
        requires
            old(self).wf(),
            buttons <= 3,
        ensures
            final(self).wf(),
            match crate::bus::first_with_tag(
                old(self).ula().bus_view(),
                DeviceTag::KempstonMouse,
            ) {
                Some(k) => {
                    &&& found
                    &&& final(self).ula().bus_view() == old(self).ula().bus_view().update(
                        k,
                        crate::bus::device_after_set_buttons(
                            old(self).ula().bus_view()[k],
                            buttons,
                        ),
                    )
                },
                None => {
                    &&& !found
                    &&& final(self).ula().bus_view() == old(self).ula().bus_view()
                },
            },
    {
        self.ula.set_mouse_buttons(buttons)
    }

    /// Applies a relative mouse movement, if a mouse is attached.
    pub fn move_mouse(&mut self, movement: MouseMovement) -> (found: bool)
        requires
            old(self).wf(),
            movement.vertical > i16::MIN,
        ensures
            final(self).wf(),
            match crate::bus::first_with_tag(
                old(self).ula().bus_view(),
                DeviceTag::KempstonMouse,
            ) {
                Some(k) => {
                    &&& found
                    &&& final(self).ula().bus_view() == old(self).ula().bus_view().update(
                        k,
                        crate::bus::device_after_mouse_move(
                            old(self).ula().bus_view()[k],
                            movement,
                        ),
                    )
                },
                None => {
                    &&& !found
                    &&& final(self).ula().bus_view() == old(self).ula().bus_view()
                },
            },
    {
        self.ula.move_mouse(movement)
    }
}

impl Default for Scld {
    /// A fresh chipset with the default memory geometry.
    fn default() -> (chip: Scld)
        ensures
            chip.wf(),
            chip.ula().frame() == 0,
            chip.ula().position() == 0,
            chip.ula().spec_last_border() == POWER_ON_BORDER,
            chip.total_rom_banks() == SCLD_TOTAL_ROM_BANKS,
            chip.spec_beg_ctrl_flags() == 0,
            chip.spec_cur_ctrl_flags() == 0,
            chip.spec_mem_paged() == 0,
            chip.mode_log() == Seq::<FrameEvent>::empty(),
            chip.source_log() == Seq::<FrameEvent>::empty(),
            forall|i: int|
                0 <= i < 8 ==> chip.banks_view()[i] == scld_home_target(
                    i as u8,
                    SCLD_TOTAL_ROM_BANKS,
                ),
    {
        Scld::new(SCLD_TOTAL_ROM_BANKS)
    }
}

} // verus!
