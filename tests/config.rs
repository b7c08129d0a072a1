use tcan455x::dlc::{dlc_to_len, to_dlc};
use tcan455x::mcan::{bit_rate, data_timing_word, nominal_timing_word};
use tcan455x::modes::switch_mode_word;
use tcan455x::{DeviceMode, TCAN455xController, TCAN455xRequest};

fn one_word_frame(addr: u16, w: u32) -> Vec<u8> {
    let mut f = vec![0x61, (addr >> 8) as u8, addr as u8, 1];
    f.extend_from_slice(&w.to_be_bytes());
    f
}

#[test]
fn protect_clears_lock_bits() {
    assert_eq!(TCAN455xController::protect_register(0xFFFF_FFFF), 0xFFFF_FFE4);
    assert_eq!(TCAN455xController::protect_register(0x0000_0303), 0x0000_0300);
}

#[test]
fn unprotect_sets_init_and_cce() {
    assert_eq!(TCAN455xController::unprotect_register(0x0000_0000), 0x0000_0003);
    assert_eq!(TCAN455xController::unprotect_register(0xFFFF_FFFF), 0xFFFF_FFE7);
}

#[test]
fn nominal_bit_rate_scenario() {
    let clock: u64 = 40_000_000;
    assert_eq!(bit_rate(clock, 2, 31, 8), clock / 80);
    assert_eq!(bit_rate(clock, 2, 31, 8), 500_000);
    assert_eq!(bit_rate(clock, 2, 5, 4), 2_000_000);
}

#[test]
fn timing_words() {
    assert_eq!(nominal_timing_word(2, 31, 8), (30 << 25) | (1 << 16) | (30 << 8) | 7);
    assert_eq!(nominal_timing_word(2, 31, 8), 0x3C01_1E07);
    assert_eq!(data_timing_word(2, 5, 4, true), 0x0081_0433);
    assert_eq!(data_timing_word(2, 5, 4, false), 0x0001_0433);
}

#[test]
fn controller_frames() {
    assert_eq!(TCAN455xController::set_mcan_cccr(), one_word_frame(0x1018, 0x0000_0303));
    assert_eq!(TCAN455xController::set_nbtp(), one_word_frame(0x101C, 0x3C01_1E07));
    assert_eq!(TCAN455xController::set_dbtp(), one_word_frame(0x100C, 0x0081_0433));
    assert_eq!(TCAN455xController::set_tdcr(), one_word_frame(0x1048, 0x0000_0300));
    assert_eq!(TCAN455xController::set_tscc(), one_word_frame(0x1020, 0x0000_0002));
    assert_eq!(TCAN455xController::set_mcan_ie(), one_word_frame(0x1054, 0x0000_0011));
    assert_eq!(TCAN455xController::set_mcan_ile(), one_word_frame(0x105C, 0x0000_0003));
}

#[test]
fn device_modes_and_pins_frame() {
    assert_eq!(TCAN455xRequest::set_device_modes_and_pins(), one_word_frame(0x0800, 0xC800_0440));
}

#[test]
fn mode_switch_words() {
    assert_eq!(switch_mode_word(0xC800_0440, DeviceMode::Normal), 0xC800_0480);
    assert_eq!(switch_mode_word(0xC800_04C0, DeviceMode::Sleep), 0xC800_0400);
    assert_eq!(switch_mode_word(0x0000_0080, DeviceMode::Standby), 0x0000_0040);
    assert_eq!(switch_mode_word(0x1234_56C7, DeviceMode::TestLoopback), 0x1234_56C7);
}

#[test]
fn dlc_table_values() {
    for len in 0..=8usize {
        assert_eq!(to_dlc(len), len as u32);
    }
    assert_eq!(to_dlc(9), 9);
    assert_eq!(to_dlc(12), 9);
    assert_eq!(to_dlc(13), 10);
    assert_eq!(to_dlc(16), 10);
    assert_eq!(to_dlc(20), 11);
    assert_eq!(to_dlc(24), 12);
    assert_eq!(to_dlc(25), 13);
    assert_eq!(to_dlc(32), 13);
    assert_eq!(to_dlc(33), 14);
    assert_eq!(to_dlc(48), 14);
    assert_eq!(to_dlc(49), 15);
    assert_eq!(to_dlc(64), 15);
    let lens = [0, 1, 2, 3, 4, 5, 6, 7, 8, 12, 16, 20, 24, 32, 48, 64];
    for d in 0..16u32 {
        assert_eq!(dlc_to_len(d), lens[d as usize]);
    }
}

#[test]
fn dlc_table_ordered_and_inverse() {
    let mut last = 0;
    for len in 0..=64usize {
        let d = to_dlc(len);
        assert!(d >= last);
        last = d;
        assert!(dlc_to_len(d) >= len);
    }
    for d in 0..15u32 {
        for len in dlc_to_len(d) + 1..=dlc_to_len(d + 1) {
            assert_eq!(to_dlc(len), d + 1);
        }
    }
}
