//! Device modes and the device mode and pins register.

use vstd::prelude::*;
use crate::codec::write_frame;
use crate::register::{
    REG_BITS_DEVICE_MODE_DEVICEMODE_MASK, REG_BITS_DEVICE_MODE_DEVICEMODE_NORMAL,
    REG_BITS_DEVICE_MODE_DEVICEMODE_SLEEP, REG_BITS_DEVICE_MODE_DEVICEMODE_STANDBY,
    REG_DEV_MODES_AND_PINS,
};
use crate::request::TCAN455xRequest;

verus! {

pub const WAKE_CONFIG: u32 = 3;  // Wake pin triggered by either edge
pub const WD_TIMER: u32 = 0;  // Watchdog timer 0: 60 ms, 1: 600 ms, 2: 3 s, 3: 6 s
pub const CLK_REF: u32 = 1;  // Crystal 1: 40 MHz, 0: 20 MHz
pub const GPO2_CONFIG: u32 = 0;  // GPO2: no action
pub const TESTMODE_EN: u32 = 0;  // Test mode disabled
pub const NWKRQ_VOLTAGE: u32 = 0;  // nWKRQ on the internal voltage rail
pub const WD_BIT_RESET: u32 = 0;  // Do not reset the watchdog
pub const WD_ACTION: u32 = 0;  // Watchdog sets an interrupt
pub const GPIO1_CONFIG: u32 = 0;  // GPIO1 is an output
pub const FAIL_SAFE_EN: u32 = 0;  // Fail-safe disabled
pub const GPIO1_GPO_CONFIG: u32 = 1;  // GPO1: MCAN_INT 1, active low
pub const INH_DIS: u32 = 0;  // INH enabled
pub const NWKRQ_CONFIG: u32 = 0;  // nWKRQ mirrors INH
pub const MODE_SEL: u32 = 1;  // Mode 0: sleep, 1: standby, 2: normal
pub const WD_EN: u32 = 0;  // Watchdog disabled
pub const DEVICE_RESET: u32 = 0;  // Software reset keeps the configuration
pub const SWE_DIS: u32 = 0;  // Sleep wake error enabled
pub const TESTMODE_CONFIG: u32 = 0;  // Test mode 0: PHY, 1: CAN controller

/// The device mode and pins word of the configuration.
pub const DEVICE_MODES_AND_PINS_CONFIG: u32 = (WAKE_CONFIG << 30u32) | (WD_TIMER << 28u32) | (
CLK_REF << 27u32) | (GPO2_CONFIG << 22u32) | (TESTMODE_EN << 21u32) | (NWKRQ_VOLTAGE << 19u32)
    | (WD_BIT_RESET << 18u32) | (WD_ACTION << 16u32) | (GPIO1_CONFIG << 14u32) | (FAIL_SAFE_EN
    << 13u32) | (GPIO1_GPO_CONFIG << 10u32) | (INH_DIS << 9u32) | (NWKRQ_CONFIG << 8u32) | (
MODE_SEL << 6u32) | (WD_EN << 3u32) | (DEVICE_RESET << 2u32) | (SWE_DIS << 1u32)
    | TESTMODE_CONFIG;

/// Operating modes of the device.
#[derive(Debug, Clone, Copy, PartialEq, Eq, Structural)]
pub enum DeviceMode {
    Sleep,
    Standby,
    Normal,
    TestLoopback,
}

/// The mode select pattern of a mode, where it has one.
pub open spec fn mode_bits(mode: DeviceMode) -> Option<u32> {
    match mode {
        DeviceMode::Sleep => Some(REG_BITS_DEVICE_MODE_DEVICEMODE_SLEEP),
        DeviceMode::Standby => Some(REG_BITS_DEVICE_MODE_DEVICEMODE_STANDBY),
        DeviceMode::Normal => Some(REG_BITS_DEVICE_MODE_DEVICEMODE_NORMAL),
        DeviceMode::TestLoopback => None,
    }
}

/// The mode and pins word `current` switched to `mode`: the mode field
/// replaced by the mode's pattern, or left as it is for a mode without one.
pub open spec fn switched_mode_word(current: u32, mode: DeviceMode) -> u32 {
    match mode_bits(mode) {
        Some(bits) => (current & !REG_BITS_DEVICE_MODE_DEVICEMODE_MASK) | bits,
        None => current,
    }
}

/// The mode and pins word `current` switched to `mode`.
pub fn switch_mode_word(current: u32, mode: DeviceMode) -> (r: u32)
    ensures
        r == switched_mode_word(current, mode),
        mode_bits(mode) is Some ==> r & REG_BITS_DEVICE_MODE_DEVICEMODE_MASK == mode_bits(
            mode,
        )->0,
        mode_bits(mode) is Some ==> r & !REG_BITS_DEVICE_MODE_DEVICEMODE_MASK == current
            & !REG_BITS_DEVICE_MODE_DEVICEMODE_MASK,
{
    let bits: u32 = match mode {
        DeviceMode::Sleep => REG_BITS_DEVICE_MODE_DEVICEMODE_SLEEP,
        DeviceMode::Standby => REG_BITS_DEVICE_MODE_DEVICEMODE_STANDBY,
        DeviceMode::Normal => REG_BITS_DEVICE_MODE_DEVICEMODE_NORMAL,
        DeviceMode::TestLoopback => {
            return current;
        },
    };
    let r: u32 = (current & !REG_BITS_DEVICE_MODE_DEVICEMODE_MASK) | bits;
    assert(r & 0xC0 == bits && r & !0xC0u32 == current & !0xC0u32) by (bit_vector)
        requires
            r == (current & !0xC0u32) | bits,
            bits == 0 || bits == 0x40 || bits == 0x80,
    ;
    r
}

impl TCAN455xRequest {
    /// Device mode and pins frame: wake pin, watchdog, clock reference, GPIO
    /// functions and standby mode.
    pub fn set_device_modes_and_pins() -> (r: Vec<u8>)
        ensures
            r@ == write_frame(REG_DEV_MODES_AND_PINS, seq![DEVICE_MODES_AND_PINS_CONFIG]),
    {
        Self::get_write_command(REG_DEV_MODES_AND_PINS, DEVICE_MODES_AND_PINS_CONFIG)
    }
}

} // verus!
