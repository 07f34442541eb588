use core::convert::TryInto;
use spectrusty::banks::BankSource;
use spectrusty::ula128::{CPU_HZ, FRAME_TSTATES_COUNT, Ula128};

#[test]
fn test_ula128() {
    let ula128 = Ula128::default();
    assert_eq!(FRAME_TSTATES_COUNT, 70908);
    assert_eq!(ula128.cpu_clock_rate(), CPU_HZ);
    assert_eq!(ula128.cpu_clock_rate(), 3_546_900);
    assert_eq!(
        ula128.frame_duration_nanos(),
        (70908u64 * 1_000_000_000 / 3_546_900).try_into().unwrap()
    );
}

#[test]
fn page3_shadow_bank_eligibility() {
    let mut chip = Ula128::default();
    chip.write_io(0x7ffd, 5);
    assert_eq!(chip.page3_screen_bank(), Some(0));
    assert!(chip.is_page3_contended());
    chip.write_io(0x7ffd, 7);
    assert_eq!(chip.page3_screen_bank(), Some(1));
    assert!(chip.is_page3_contended());
    for bank in [0u8, 1, 2, 3, 4, 6] {
        chip.write_io(0x7ffd, bank);
        assert_eq!(chip.page3_screen_bank(), None);
    }
}

#[test]
fn mem_port_drives_banks_and_lock() {
    let mut chip = Ula128::default();
    chip.write_io(0x7ffd, 0b0001_0011);
    assert_eq!(chip.bank_source_at(3), BankSource::Ram(3));
    assert_eq!(chip.bank_source_at(0), BankSource::Rom(1));
    assert_eq!(chip.mem_port_value(), 0b0001_0011);
    // Locking the port makes further writes no-ops until reset.
    chip.write_io(0x7ffd, 0b0010_0011);
    assert!(chip.is_mem_locked());
    chip.write_io(0x7ffd, 5);
    assert_eq!(chip.bank_source_at(3), BankSource::Ram(3));
    assert_eq!(chip.page3_screen_bank(), None);
    chip.reset(false);
    assert!(!chip.is_mem_locked());
    assert_eq!(chip.mem_port_value(), 0);
    assert_eq!(chip.bank_source_at(3), BankSource::Ram(0));
    assert_eq!(chip.bank_source_at(0), BankSource::Rom(0));
}

#[test]
fn shadow_screen_toggles_logged() {
    let mut chip = Ula128::default();
    chip.commit_step(50);
    chip.write_io(0x7ffd, 0b0000_1000);
    chip.commit_step(50);
    // Writing the same selection again is not logged.
    chip.write_io(0x7ffd, 0b0000_1000);
    chip.write_io(0x7ffd, 0);
    assert_eq!(chip.screen_change_count(), 2);
    assert_eq!(chip.screen_change(0).ts, 50);
    assert_eq!(chip.screen_change(0).data, 1);
    assert_eq!(chip.screen_change(1).ts, 100);
    assert_eq!(chip.screen_change(1).data, 0);
    assert!(!chip.cur_screen_shadow());
    assert!(!chip.beg_screen_shadow());
}

#[test]
fn contention_follows_page3_bank() {
    let mut chip = Ula128::default();
    assert!(chip.is_contended_address(0x4000));
    assert!(!chip.is_contended_address(0x8000));
    assert!(!chip.is_contended_address(0xc000));
    chip.write_io(0x7ffd, 1);
    assert!(chip.is_contended_address(0xc000));
    assert!(!chip.is_contended_address(0x0000));
    chip.write_io(0x7ffd, 2);
    assert!(!chip.is_contended_address(0xc000));
    // Outside the visible window even a contended address waits nothing.
    assert_eq!(chip.memory_access_wait(0x4000), 0);
}

#[test]
fn frame_tstate_normalizes_at_frame_end() {
    let mut chip = Ula128::default();
    chip.set_video_ts(70908);
    assert!(chip.is_frame_over());
    assert_eq!(chip.frame_tstate(), (1, 0));
    chip.ensure_next_frame();
    assert_eq!(chip.current_frame(), 1);
    assert_eq!(chip.current_tstate(), 0);
    assert!(!chip.is_frame_over());
    // The transition is idempotent: mid-frame it does nothing.
    chip.ensure_next_frame();
    assert_eq!(chip.current_frame(), 1);
    assert_eq!(chip.current_tstate(), 0);
}

#[test]
fn frame_boundary_clears_logs_and_records_initial_state() {
    let mut chip = Ula128::default();
    chip.write_io(0x00fe, 2);
    chip.commit_step(30);
    chip.write_io(0x7ffd, 0b0000_1000);
    assert_eq!(chip.screen_change_count(), 1);
    while !chip.is_frame_over() {
        chip.commit_step(1024);
    }
    let frame_before = chip.current_frame();
    chip.ensure_next_frame();
    assert_eq!(chip.current_frame(), frame_before + 1);
    assert_eq!(chip.screen_change_count(), 0);
    // The new frame's initial state is the border and shadow selection
    // that were current when it began.
    assert_eq!(chip.border_color(), 2);
    assert!(chip.beg_screen_shadow());
    assert!(chip.cur_screen_shadow());
}

#[test]
fn lock_48k_mode_configures_compatibility_banks() {
    let mut chip = Ula128::default();
    chip.lock_48k_mode();
    assert!(chip.is_mem_locked());
    assert_eq!(chip.bank_source_at(0), BankSource::Rom(1));
    assert_eq!(chip.bank_source_at(3), BankSource::Ram(0));
    assert!(!chip.cur_screen_shadow());
}

#[test]
fn single_step_signals_breakpoint_without_fault() {
    let mut chip = Ula128::default();
    assert_eq!(chip.commit_single_step(8, false), Ok(()));
    assert_eq!(chip.current_tstate(), 8);
    assert_eq!(chip.commit_single_step(8, true), Err(()));
    // The stopped step's cycles are still committed.
    assert_eq!(chip.current_tstate(), 16);
}

#[test]
fn frame_interrupt_pulse() {
    let chip = Ula128::default();
    assert!(chip.interrupt_asserted_at(0));
    assert!(chip.interrupt_asserted_at(35));
    assert!(!chip.interrupt_asserted_at(36));
    assert!(!chip.interrupt_asserted_at(40000));
}
