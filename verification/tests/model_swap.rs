use spectrusty::banks::BankSource;
use spectrusty::model::{Chipset, Machine, ModelRequest};

#[test]
fn hot_swap_preserves_cpu_and_border() {
    let mut machine = Machine::new(ModelRequest::TimexTC2048);
    machine.cpu.pc = 0x1234;
    machine.cpu.af = 0xa55a;
    machine.cpu.sp = 0x8000;
    machine.cpu.iff1 = true;
    machine.cpu.im = 1;
    match &mut machine.chip {
        Chipset::Timex(chip) => {
            chip.write_io(0x00fe, 3);
            chip.change_mem_paged(0b0000_0011);
        },
        Chipset::Spectrum128(_) => unreachable!(),
    }
    let cpu_before = machine.cpu;
    machine.change_model(ModelRequest::Spectrum128);
    // The CPU registers and border color carry over exactly.
    assert_eq!(machine.cpu, cpu_before);
    assert_eq!(machine.chip.border_color(), 3);
    // The new chipset reports its power-on bank-paging default.
    match &machine.chip {
        Chipset::Spectrum128(chip) => {
            assert_eq!(chip.bank_source_at(0), BankSource::Rom(0));
            assert_eq!(chip.bank_source_at(1), BankSource::Ram(5));
            assert_eq!(chip.bank_source_at(2), BankSource::Ram(2));
            assert_eq!(chip.bank_source_at(3), BankSource::Ram(0));
            assert!(!chip.is_mem_locked());
            assert!(!chip.cur_screen_shadow());
            assert_eq!(chip.screen_change_count(), 0);
            assert_eq!(chip.mem_port_value(), 0);
        },
        Chipset::Timex(_) => unreachable!(),
    }
    assert_eq!(machine.chip.current_frame(), 0);
    assert_eq!(machine.chip.current_tstate(), 0);
}

#[test]
fn hot_swap_to_same_model_changes_nothing() {
    let mut machine = Machine::new(ModelRequest::Spectrum128);
    machine.cpu.pc = 0x4000;
    match &mut machine.chip {
        Chipset::Spectrum128(chip) => {
            chip.write_io(0x00fe, 6);
            chip.write_io(0x7ffd, 5);
        },
        Chipset::Timex(_) => unreachable!(),
    }
    machine.change_model(ModelRequest::Spectrum128);
    assert_eq!(machine.cpu.pc, 0x4000);
    assert_eq!(machine.chip.border_color(), 6);
    match &machine.chip {
        Chipset::Spectrum128(chip) => {
            assert_eq!(chip.bank_source_at(3), BankSource::Ram(5));
            assert_eq!(chip.page3_screen_bank(), Some(0));
        },
        Chipset::Timex(_) => unreachable!(),
    }
}

#[test]
fn hot_swap_back_resets_video_controller_paging() {
    let mut machine = Machine::new(ModelRequest::Spectrum128);
    match &mut machine.chip {
        Chipset::Spectrum128(chip) => {
            chip.write_io(0x00fe, 1);
        },
        Chipset::Timex(_) => unreachable!(),
    }
    machine.change_model(ModelRequest::TimexTC2048);
    assert_eq!(machine.chip.border_color(), 1);
    match &machine.chip {
        Chipset::Timex(chip) => {
            assert_eq!(chip.scld_mmu_port_value(), 0);
            assert_eq!(chip.scld_ctrl_port_value(), 0);
            assert_eq!(chip.bank_source_at(0), BankSource::Rom(11));
            assert_eq!(chip.bank_source_at(1), BankSource::Rom(12));
            assert_eq!(chip.bank_source_at(2), BankSource::Ram(0));
            assert_eq!(chip.mode_change_count(), 0);
        },
        Chipset::Spectrum128(_) => unreachable!(),
    }
}
