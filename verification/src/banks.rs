//! Bank paging: a fixed-size table of logical page slots, each backed by a
//! physical ROM or RAM bank.

use vstd::prelude::*;

verus! {

/// The physical bank backing one logical slot.
#[derive(Clone, Copy, PartialEq, Eq, Structural, Debug)]
pub enum BankSource {
    Rom(u8),
    Ram(u8),
}

/// A fatal configuration error: the requested physical bank or logical
/// slot lies outside the configured table.  Such a request is never
/// silently clamped.
#[derive(Clone, Copy, PartialEq, Eq, Structural, Debug)]
pub enum BankError {
    RomBankOutOfRange,
    RamBankOutOfRange,
    SlotOutOfRange,
}

/// A fixed-size ordered sequence of logical page slots.  The slot count is
/// fixed at construction; remapping only swaps the backing bank.
#[derive(Clone, Debug)]
pub struct BankTable {
    slots: Vec<BankSource>,
    rom_banks_max: u8,
    ram_banks_max: u8,
}

/// Every slot's backing bank lies within the configured bank ranges.
pub open spec fn sources_in_range(s: Seq<BankSource>, rom_max: u8, ram_max: u8) -> bool {
    forall|i: int|
        0 <= i < s.len() ==> match #[trigger] s[i] {
            BankSource::Rom(b) => b <= rom_max,
            BankSource::Ram(b) => b <= ram_max,
        }
}

impl View for BankTable {
    type V = Seq<BankSource>;

    closed spec fn view(&self) -> Seq<BankSource> {
        self.slots@
    }
}

impl BankTable {
    /// The highest valid physical ROM bank index.
    pub closed spec fn rom_max(&self) -> u8 {
        self.rom_banks_max
    }

    /// The highest valid physical RAM bank index.
    pub closed spec fn ram_max(&self) -> u8 {
        self.ram_banks_max
    }

    pub open spec fn wf(&self) -> bool {
        sources_in_range(self@, self.rom_max(), self.ram_max())
    }

    pub fn new(slots: Vec<BankSource>, rom_banks_max: u8, ram_banks_max: u8) -> (table:
        BankTable)
        requires
            sources_in_range(slots@, rom_banks_max, ram_banks_max),
        ensures
            table.wf(),
            table@ == slots@,
            table.rom_max() == rom_banks_max,
            table.ram_max() == ram_banks_max,
    {
        BankTable { slots, rom_banks_max, ram_banks_max }
    }

    /// The highest valid physical ROM bank index.
    pub fn rom_max_value(&self) -> (bank: u8)
        ensures
            bank == self.rom_max(),
    {
        self.rom_banks_max
    }

    /// The highest valid physical RAM bank index.
    pub fn ram_max_value(&self) -> (bank: u8)
        ensures
            bank == self.ram_max(),
    {
        self.ram_banks_max
    }

    pub fn slot_count(&self) -> (n: usize)
        ensures
            n == self@.len(),
    {
        self.slots.len()
    }

    /// The physical bank currently backing the given logical slot.
    pub fn source_at(&self, slot: usize) -> (source: BankSource)
        requires
            slot < self@.len(),
        ensures
            source == self@[slot as int],
    {
        self.slots[slot]
    }

    /// Maps a physical ROM bank into a logical slot.  Fails, changing
    /// nothing, exactly when the bank or the slot is out of range.
    pub fn map_rom_bank(&mut self, bank: usize, slot: usize) -> (result: Result<(), BankError>)
        requires
            old(self).wf(),
        ensures
            final(self).wf(),
            final(self).rom_max() == old(self).rom_max(),
            final(self).ram_max() == old(self).ram_max(),
            result is Ok <==> bank <= old(self).rom_max() && slot < old(self)@.len(),
            result is Ok ==> final(self)@ == old(self)@.update(
                slot as int,
                BankSource::Rom(bank as u8),
            ),
            result is Err ==> final(self)@ == old(self)@,
            result matches Err(e) ==> (e == (if bank > old(self).rom_max() {
                BankError::RomBankOutOfRange
            } else {
                BankError::SlotOutOfRange
            })),
    {
        if bank > self.rom_banks_max as usize {
            Err(BankError::RomBankOutOfRange)
        } else if slot >= self.slots.len() {
            Err(BankError::SlotOutOfRange)
        } else {
            self.slots.set(slot, BankSource::Rom(bank as u8));
            Ok(())
        }
    }

    /// Maps a physical RAM bank into a logical slot.  Fails, changing
    /// nothing, exactly when the bank or the slot is out of range.
    pub fn map_ram_bank(&mut self, bank: usize, slot: usize) -> (result: Result<(), BankError>)
        requires
            old(self).wf(),
        ensures
            final(self).wf(),
            final(self).rom_max() == old(self).rom_max(),
            final(self).ram_max() == old(self).ram_max(),
            result is Ok <==> bank <= old(self).ram_max() && slot < old(self)@.len(),
            result is Ok ==> final(self)@ == old(self)@.update(
                slot as int,
                BankSource::Ram(bank as u8),
            ),
            result is Err ==> final(self)@ == old(self)@,
            result matches Err(e) ==> (e == (if bank > old(self).ram_max() {
                BankError::RamBankOutOfRange
            } else {
                BankError::SlotOutOfRange
            })),
    {
        if bank > self.ram_banks_max as usize {
            Err(BankError::RamBankOutOfRange)
        } else if slot >= self.slots.len() {
            Err(BankError::SlotOutOfRange)
        } else {
            self.slots.set(slot, BankSource::Ram(bank as u8));
            Ok(())
        }
    }
}

} // verus!
