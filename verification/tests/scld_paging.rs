use spectrusty::banks::{BankError, BankSource, BankTable};
use spectrusty::scld::Scld;

#[test]
fn ex_rom_modulo_mapping() {
    // Twelve ROM banks with nine reserved leave a pool of three at base
    // eight: slots zero through two map banks eight, nine and ten, and
    // slot three wraps back to bank eight.
    let mut chip = Scld::new(12);
    chip.write_io(0x00ff, 0b1000_0000);
    chip.change_mem_paged(0b0000_1111);
    assert_eq!(chip.bank_source_at(0), BankSource::Rom(8));
    assert_eq!(chip.bank_source_at(1), BankSource::Rom(9));
    assert_eq!(chip.bank_source_at(2), BankSource::Rom(10));
    assert_eq!(chip.bank_source_at(3), BankSource::Rom(8));
    // The slots left alone keep their home banks.
    assert_eq!(chip.bank_source_at(4), BankSource::Ram(2));
    assert_eq!(chip.bank_source_at(7), BankSource::Ram(5));
}

#[test]
fn dock_maps_slot_index_directly() {
    let mut chip = Scld::default();
    chip.change_mem_paged(0b0000_0110);
    assert_eq!(chip.bank_source_at(1), BankSource::Rom(1));
    assert_eq!(chip.bank_source_at(2), BankSource::Rom(2));
    // Unpaging restores the home banks: the ROM pair below, RAM above.
    chip.change_mem_paged(0);
    assert_eq!(chip.bank_source_at(1), BankSource::Rom(12));
    assert_eq!(chip.bank_source_at(2), BankSource::Ram(0));
}

#[test]
fn mem_paging_is_idempotent() {
    let mut once = Scld::default();
    once.change_mem_paged(0b1010_0110);
    let mut twice = once.clone();
    twice.change_mem_paged(0b1010_0110);
    assert_eq!(twice.scld_mmu_port_value(), once.scld_mmu_port_value());
    for slot in 0..8 {
        assert_eq!(twice.bank_source_at(slot), once.bank_source_at(slot));
    }
    assert_eq!(twice.mode_change_count(), once.mode_change_count());
    assert_eq!(twice.source_change_count(), once.source_change_count());
}

#[test]
fn bank_mapping_rejects_out_of_range() {
    let mut table = BankTable::new(vec![BankSource::Rom(0)], 1, 7);
    assert_eq!(table.map_rom_bank(2, 0), Err(BankError::RomBankOutOfRange));
    assert_eq!(table.map_ram_bank(8, 0), Err(BankError::RamBankOutOfRange));
    assert_eq!(table.map_rom_bank(0, 5), Err(BankError::SlotOutOfRange));
    // The failed requests changed nothing.
    assert_eq!(table.source_at(0), BankSource::Rom(0));
    assert_eq!(table.map_rom_bank(1, 0), Ok(()));
    assert_eq!(table.source_at(0), BankSource::Rom(1));
}

#[test]
fn ctrl_flag_changes_logged() {
    let mut chip = Scld::default();
    chip.write_io(0x00ff, 0b0000_0001);
    assert_eq!(chip.source_change_count(), 1);
    assert_eq!(chip.source_change(0).ts, 0);
    assert_eq!(chip.source_change(0).data, 1);
    assert_eq!(chip.mode_change_count(), 0);
    chip.commit_step(10);
    chip.write_io(0x00ff, 0b0001_1101);
    assert_eq!(chip.source_change_count(), 1);
    assert_eq!(chip.mode_change_count(), 1);
    assert_eq!(chip.mode_change(0).ts, 10);
    assert_eq!(chip.mode_change(0).data, 0b1011);
    // A border change while the high-resolution mode is on is latched
    // but not logged.
    chip.write_io(0x00fe, 4);
    assert_eq!(chip.mode_change_count(), 1);
    assert_eq!(chip.border_color(), 4);
    // Leaving the high-resolution mode logs the current border color.
    chip.commit_step(10);
    chip.write_io(0x00ff, 0b0000_0001);
    assert_eq!(chip.mode_change_count(), 2);
    assert_eq!(chip.mode_change(1).ts, 20);
    assert_eq!(chip.mode_change(1).data, 4);
}

#[test]
fn ex_rom_selector_remaps_paged_slots() {
    let mut chip = Scld::default();
    chip.change_mem_paged(0b0000_0011);
    assert_eq!(chip.bank_source_at(0), BankSource::Rom(0));
    assert_eq!(chip.bank_source_at(1), BankSource::Rom(1));
    // Flipping the extension-ROM selector remaps the paged-in slots to
    // the pool.
    chip.write_io(0x00ff, 0b1000_0000);
    assert_eq!(chip.bank_source_at(0), BankSource::Rom(8));
    assert_eq!(chip.bank_source_at(1), BankSource::Rom(9));
    assert_eq!(chip.bank_source_at(2), BankSource::Ram(0));
}

#[test]
fn scld_reset_modes() {
    let mut chip = Scld::default();
    chip.write_io(0x00ff, 0b1000_0000);
    chip.change_mem_paged(0b0000_0001);
    assert_eq!(chip.bank_source_at(0), BankSource::Rom(8));
    // A soft reset preserves the paging state.
    chip.reset(false);
    assert_eq!(chip.scld_mmu_port_value(), 1);
    assert_eq!(chip.scld_ctrl_port_value(), 0b1000_0000);
    // A hard reset re-zeroes the paging registers and the video mode;
    // the mapped banks themselves stand until the next paging request.
    chip.reset(true);
    assert_eq!(chip.scld_mmu_port_value(), 0);
    assert_eq!(chip.scld_ctrl_port_value(), 0);
    assert_eq!(chip.bank_source_at(0), BankSource::Rom(8));
}

#[test]
fn border_changes_logged_within_frame() {
    let mut chip = Scld::default();
    chip.write_io(0x00fe, 1);
    chip.commit_step(100);
    chip.write_io(0x00fe, 2);
    chip.commit_step(200);
    // A write that does not change the effective state is not logged.
    chip.write_io(0x00fe, 2);
    assert_eq!(chip.mode_change_count(), 2);
    let first = chip.mode_change(0);
    let second = chip.mode_change(1);
    assert!(first.ts <= second.ts);
    assert_eq!(first.ts, 0);
    assert_eq!(first.data, 1);
    assert_eq!(second.ts, 100);
    assert_eq!(second.data, 2);
    // After the frame-boundary transition every sub-log is empty.
    while !chip.is_frame_over() {
        chip.commit_step(1024);
    }
    chip.ensure_next_frame();
    assert_eq!(chip.mode_change_count(), 0);
    assert_eq!(chip.source_change_count(), 0);
    assert_eq!(chip.border_color(), 2);
}

#[test]
fn beg_render_mode_follows_frame_start_flags() {
    let mut chip = Scld::default();
    chip.write_io(0x00fe, 5);
    assert_eq!(chip.beg_render_mode(), 7);
    chip.write_io(0x00ff, 0b0001_1100);
    while !chip.is_frame_over() {
        chip.commit_step(1024);
    }
    chip.ensure_next_frame();
    // The new frame begins in the high-resolution mode with color three.
    assert_eq!(chip.beg_render_mode(), 0b1011);
}

#[test]
fn chipset_ports_read_back() {
    let mut chip = Scld::default();
    chip.write_io(0x00ff, 0b0100_0101);
    chip.write_io(0x00f4, 0b0000_0001);
    assert_eq!(chip.read_io(0x12ff), Some(0b0100_0101));
    assert_eq!(chip.read_io(0x34f4), Some(0b0000_0001));
    assert_eq!(chip.scld_ctrl_port_value(), 0b0100_0101);
    assert_eq!(chip.scld_mmu_port_value(), 0b0000_0001);
    // No device claims an arbitrary other port.
    assert_eq!(chip.read_io(0x00fe), None);
}

#[test]
fn interrupt_pulse_honors_disable_flag() {
    let mut chip = Scld::default();
    assert!(chip.interrupt_asserted_at(0));
    assert!(chip.interrupt_asserted_at(31));
    assert!(!chip.interrupt_asserted_at(32));
    chip.write_io(0x00ff, 0b0100_0000);
    assert!(!chip.interrupt_asserted_at(0));
}
