//! Configuration of the MCAN controller: register protection, the control
//! register, bit timing, timestamps and interrupts.

use vstd::prelude::*;
use crate::codec::{write_frame, TCAN455xController};
use crate::register::{
    REG_BITS_MCAN_CCCR_CCE, REG_BITS_MCAN_CCCR_CSA, REG_BITS_MCAN_CCCR_CSR,
    REG_BITS_MCAN_CCCR_INIT, REG_BITS_MCAN_DBTP_TDC_EN, REG_BITS_MCAN_TSCC_COUNTER_EXTERNAL,
    REG_MCAN_CCCR, REG_MCAN_DBTP, REG_MCAN_IE, REG_MCAN_ILE, REG_MCAN_NBTP, REG_MCAN_TDCR,
    REG_MCAN_TSCC,
};
use crate::request::TCAN455xRequest;

verus! {

// CC control register
pub const NISO: u32 = 0;  // 0: CAN FD frame format according to ISO 11898-1:2015
pub const TXP: u32 = 0;  // Transmitter pause disabled
pub const EFBI: u32 = 0;  // Edge filtering during bus integration disabled
pub const PXHD: u32 = 0;  // Protocol exception handling enabled
pub const BRSE: u32 = 1;  // Bit rate switch enabled
pub const FDOE: u32 = 1;  // FD operation enabled
pub const TEST: u32 = 0;  // Normal operation, register TEST holds its reset value
pub const DAR: u32 = 0;  // Automatic retransmission enabled
pub const MON: u32 = 0;  // Bus monitoring disabled
pub const CSR: u32 = 0;  // No clock stop requested
pub const CSA: u32 = 0;  // No clock stop acknowledged
pub const ASM: u32 = 0;  // Normal CAN operation
pub const CCE: u32 = 0;  // Configuration change disabled
pub const INIT: u32 = 0;  // Normal operation

/// The control register word of the configuration, before it is unprotected.
pub const MCAN_CCCR_CONFIG: u32 = (NISO << 15u32) | (TXP << 14u32) | (EFBI << 13u32) | (PXHD
    << 12u32) | (BRSE << 9u32) | (FDOE << 8u32) | (TEST << 7u32) | (DAR << 6u32) | (MON << 5u32)
    | (CSR << 4u32) | (CSA << 3u32) | (ASM << 2u32) | (CCE << 1u32) | INIT;

// Nominal timing: bit rate = clock / NBPRS / (NTSEG1 + NTSEG2 + 1)
pub const NBPRS: u32 = 2;
pub const NTSEG1: u32 = 31;
pub const NTSEG2: u32 = 8;

// Data timing: bit rate = clock / DBRPRS / (DTSEG1 + DTSEG2 + 1)
pub const DBRPRS: u32 = 2;
pub const DTSEG1: u32 = 5;
pub const DTSEG2: u32 = 4;

// Interrupt enables, one per bit of the MCAN interrupt register
pub const MCANIRQ_ARAE: u32 = 0;  // 29: access to reserved address
pub const MCANIRQ_PEDE: u32 = 0;  // 28: protocol error in data phase
pub const MCANIRQ_PEAE: u32 = 0;  // 27: protocol error in arbitration phase
pub const MCANIRQ_WDIE: u32 = 0;  // 26: message RAM watchdog
pub const MCANIRQ_BOE: u32 = 0;  // 25: bus-off status changed
pub const MCANIRQ_EWE: u32 = 0;  // 24: error-warning status changed
pub const MCANIRQ_EPE: u32 = 0;  // 23: error-passive status changed
pub const MCANIRQ_ELOE: u32 = 0;  // 22: error logging overflow
pub const MCANIRQ_BEUE: u32 = 0;  // 21: message RAM bit error uncorrected
pub const MCANIRQ_BECE: u32 = 0;  // 20: message RAM bit error corrected
pub const MCANIRQ_DRXE: u32 = 0;  // 19: message stored to dedicated RX buffer
pub const MCANIRQ_TOOE: u32 = 0;  // 18: timeout occurred
pub const MCANIRQ_MRAFE: u32 = 0;  // 17: message RAM access failure
pub const MCANIRQ_TSWE: u32 = 0;  // 16: timestamp wraparound
pub const MCANIRQ_TEFLE: u32 = 0;  // 15: TX event FIFO element lost
pub const MCANIRQ_TEFFE: u32 = 0;  // 14: TX event FIFO full
pub const MCANIRQ_TEFWE: u32 = 0;  // 13: TX event FIFO watermark reached
pub const MCANIRQ_TEFNE: u32 = 0;  // 12: TX event FIFO new entry
pub const MCANIRQ_TFEE: u32 = 0;  // 11: TX FIFO empty
pub const MCANIRQ_TCFE: u32 = 0;  // 10: transmission cancellation finished
pub const MCANIRQ_TCE: u32 = 0;  // 9: transmission completed
pub const MCANIRQ_HPME: u32 = 0;  // 8: high priority message
pub const MCANIRQ_RF1LE: u32 = 0;  // 7: RX FIFO 1 message lost
pub const MCANIRQ_RF1FE: u32 = 0;  // 6: RX FIFO 1 full
pub const MCANIRQ_RF1WE: u32 = 0;  // 5: RX FIFO 1 watermark reached
pub const MCANIRQ_RF1NE: u32 = 1;  // 4: RX FIFO 1 new message
pub const MCANIRQ_RF0LE: u32 = 0;  // 3: RX FIFO 0 message lost
pub const MCANIRQ_RF0FE: u32 = 0;  // 2: RX FIFO 0 full
pub const MCANIRQ_RF0WE: u32 = 0;  // 1: RX FIFO 0 watermark reached
pub const MCANIRQ_RF0NE: u32 = 1;  // 0: RX FIFO 0 new message

/// The interrupt enable word of the configuration.
pub const MCAN_IE_CONFIG: u32 = (MCANIRQ_ARAE << 29u32) | (MCANIRQ_PEDE << 28u32) | (MCANIRQ_PEAE
    << 27u32) | (MCANIRQ_WDIE << 26u32) | (MCANIRQ_BOE << 25u32) | (MCANIRQ_EWE << 24u32) | (
MCANIRQ_EPE << 23u32) | (MCANIRQ_ELOE << 22u32) | (MCANIRQ_BEUE << 21u32) | (MCANIRQ_BECE
    << 20u32) | (MCANIRQ_DRXE << 19u32) | (MCANIRQ_TOOE << 18u32) | (MCANIRQ_MRAFE << 17u32) | (
MCANIRQ_TSWE << 16u32) | (MCANIRQ_TEFLE << 15u32) | (MCANIRQ_TEFFE << 14u32) | (MCANIRQ_TEFWE
    << 13u32) | (MCANIRQ_TEFNE << 12u32) | (MCANIRQ_TFEE << 11u32) | (MCANIRQ_TCFE << 10u32) | (
MCANIRQ_TCE << 9u32) | (MCANIRQ_HPME << 8u32) | (MCANIRQ_RF1LE << 7u32) | (MCANIRQ_RF1FE
    << 6u32) | (MCANIRQ_RF1WE << 5u32) | (MCANIRQ_RF1NE << 4u32) | (MCANIRQ_RF0LE << 3u32) | (
MCANIRQ_RF0FE << 2u32) | (MCANIRQ_RF0WE << 1u32) | MCANIRQ_RF0NE;

// Interrupt lines: both enabled
pub const MCANIRQ_INT1_EN: u32 = 1;
pub const MCANIRQ_INT0_EN: u32 = 1;

/// The interrupt line enable word of the configuration.
pub const MCAN_ILE_CONFIG: u32 = (MCANIRQ_INT1_EN << 1u32) | MCANIRQ_INT0_EN;

/// Bits that protection clears in the control register.
pub const CCCR_PROTECT_MASK: u32 = REG_BITS_MCAN_CCCR_CSA | REG_BITS_MCAN_CCCR_CSR
    | REG_BITS_MCAN_CCCR_INIT | REG_BITS_MCAN_CCCR_CCE;

/// Bits that unprotection sets in the control register.
pub const CCCR_UNPROTECT_BITS: u32 = REG_BITS_MCAN_CCCR_INIT | REG_BITS_MCAN_CCCR_CCE;

/// The control register word `data` with configuration locked: clock stop
/// request and acknowledge, initialisation and change enable cleared.
pub open spec fn protected(data: u32) -> u32 {
    data & !CCCR_PROTECT_MASK
}

/// The control register word `data` with configuration unlocked: clock stop
/// request and acknowledge cleared, initialisation and change enable set.
pub open spec fn unprotected(data: u32) -> u32 {
    (data & !(REG_BITS_MCAN_CCCR_CSA | REG_BITS_MCAN_CCCR_CSR)) | CCCR_UNPROTECT_BITS
}

/// Nominal bit timing word: jump width (taken as `seg1 - 1`), prescaler and
/// both segments, each stored minus one.
pub open spec fn nbtp_word(prescaler: u32, seg1: u32, seg2: u32) -> u32 {
    (((seg1 - 1) as u32) << 25u32) | (((prescaler - 1) as u32) << 16u32) | (((seg1 - 1) as u32)
        << 8u32) | ((seg2 - 1) as u32)
}

/// Data bit timing word: delay compensation enable, prescaler, both segments
/// and the jump width (taken as `seg2 - 1`), each stored minus one.
pub open spec fn dbtp_word(prescaler: u32, seg1: u32, seg2: u32, tdc: bool) -> u32 {
    (if tdc {
        REG_BITS_MCAN_DBTP_TDC_EN
    } else {
        0u32
    }) | (((prescaler - 1) as u32) << 16u32) | (((seg1 - 1) as u32) << 8u32) | (((seg2 - 1) as u32)
        << 4u32) | ((seg2 - 1) as u32)
}

/// Transmitter delay compensation offset word for data segment `seg1`.
pub open spec fn tdcr_word(seg1: u32) -> u32 {
    ((seg1 - 2) as u32) << 8u32
}

/// The bit rate that a clock of `clock` Hz gives with these timing values.
pub open spec fn bit_rate_of(clock: u64, prescaler: u32, seg1: u32, seg2: u32) -> int {
    clock as int / (prescaler as int * (seg1 as int + seg2 as int + 1))
}

/// Nominal bit timing register word for the given prescaler and segments.
pub fn nominal_timing_word(prescaler: u32, seg1: u32, seg2: u32) -> (r: u32)
    requires
        prescaler >= 1,
        seg1 >= 1,
        seg2 >= 1,
    ensures
        r == nbtp_word(prescaler, seg1, seg2),
{
    ((seg1 - 1) << 25u32) | ((prescaler - 1) << 16u32) | ((seg1 - 1) << 8u32) | (seg2 - 1)
}

/// Data bit timing register word for the given prescaler and segments, with
/// or without transmitter delay compensation.
pub fn data_timing_word(prescaler: u32, seg1: u32, seg2: u32, tdc: bool) -> (r: u32)
    requires
        prescaler >= 1,
        seg1 >= 1,
        seg2 >= 1,
    ensures
        r == dbtp_word(prescaler, seg1, seg2, tdc),
{
    let tdc_bit: u32 = if tdc {
        REG_BITS_MCAN_DBTP_TDC_EN
    } else {
        0
    };
    tdc_bit | ((prescaler - 1) << 16u32) | ((seg1 - 1) << 8u32) | ((seg2 - 1) << 4u32) | (seg2 - 1)
}

/// The bit rate that a clock of `clock` Hz gives with these timing values:
/// the clock divided by the prescaler and by the bit's length in time quanta.
pub fn bit_rate(clock: u64, prescaler: u32, seg1: u32, seg2: u32) -> (r: u64)
    requires
        prescaler >= 1,
    ensures
        r == bit_rate_of(clock, prescaler, seg1, seg2),
{
    let quanta: u128 = seg1 as u128 + seg2 as u128 + 1;
    assert(prescaler * quanta <= 0xffff_ffff * 0x1_ffff_ffff) by (nonlinear_arith)
        requires
            1 <= prescaler <= 0xffff_ffff,
            1 <= quanta <= 0x1_ffff_ffff,
    ;
    let divisor: u128 = prescaler as u128 * quanta;
    assert(divisor > 0) by (nonlinear_arith)
        requires
            prescaler >= 1,
            quanta >= 1,
            divisor == prescaler * quanta,
    ;
    (clock as u128 / divisor) as u64
}

impl TCAN455xController {
    /// Locks configuration: clears clock stop request and acknowledge,
    /// initialisation and configuration change enable.
    pub fn protect_register(data: u32) -> (r: u32)
        ensures
            r == protected(data),
            r & REG_BITS_MCAN_CCCR_INIT == 0,
            r & REG_BITS_MCAN_CCCR_CCE == 0,
    {
        let r: u32 = data & !(REG_BITS_MCAN_CCCR_CSA | REG_BITS_MCAN_CCCR_CSR
            | REG_BITS_MCAN_CCCR_INIT | REG_BITS_MCAN_CCCR_CCE);
        assert(r & 1 == 0 && r & 2 == 0) by (bit_vector)
            requires
                r == data & !(8u32 | 16u32 | 1u32 | 2u32),
        ;
        r
    }

    /// Unlocks configuration: clears clock stop request and acknowledge, sets
    /// initialisation and configuration change enable.
    pub fn unprotect_register(data: u32) -> (r: u32)
        ensures
            r == unprotected(data),
            r & REG_BITS_MCAN_CCCR_INIT != 0,
            r & REG_BITS_MCAN_CCCR_CCE != 0,
    {
        let r: u32 = data & !(REG_BITS_MCAN_CCCR_CSA | REG_BITS_MCAN_CCCR_CSR) | (
        REG_BITS_MCAN_CCCR_INIT | REG_BITS_MCAN_CCCR_CCE);
        assert(r & 1 != 0 && r & 2 != 0) by (bit_vector)
            requires
                r == (data & !(8u32 | 16u32)) | (1u32 | 2u32),
        ;
        r
    }

    /// Control register frame: FD operation and bit rate switching, with
    /// configuration unlocked.
    pub fn set_mcan_cccr() -> (r: Vec<u8>)
        ensures
            r@ == write_frame(REG_MCAN_CCCR, seq![unprotected(MCAN_CCCR_CONFIG)]),
    {
        let data: u32 = Self::unprotect_register(MCAN_CCCR_CONFIG);
        TCAN455xRequest::get_write_command(REG_MCAN_CCCR, data)
    }

    /// Data bit timing frame.
    pub fn set_dbtp() -> (r: Vec<u8>)
        ensures
            r@ == write_frame(REG_MCAN_DBTP, seq![dbtp_word(DBRPRS, DTSEG1, DTSEG2, true)]),
    {
        let data: u32 = data_timing_word(DBRPRS, DTSEG1, DTSEG2, true);
        TCAN455xRequest::get_write_command(REG_MCAN_DBTP, data)
    }

    /// Nominal bit timing frame.
    pub fn set_nbtp() -> (r: Vec<u8>)
        ensures
            r@ == write_frame(REG_MCAN_NBTP, seq![nbtp_word(NBPRS, NTSEG1, NTSEG2)]),
    {
        let data: u32 = nominal_timing_word(NBPRS, NTSEG1, NTSEG2);
        TCAN455xRequest::get_write_command(REG_MCAN_NBTP, data)
    }

    /// Transmitter delay compensation frame.
    pub fn set_tdcr() -> (r: Vec<u8>)
        ensures
            r@ == write_frame(REG_MCAN_TDCR, seq![tdcr_word(DTSEG1)]),
    {
        let data: u32 = (DTSEG1 - 2) << 8u32;
        TCAN455xRequest::get_write_command(REG_MCAN_TDCR, data)
    }

    /// Timestamp counter frame: the external counter.
    pub fn set_tscc() -> (r: Vec<u8>)
        ensures
            r@ == write_frame(REG_MCAN_TSCC, seq![REG_BITS_MCAN_TSCC_COUNTER_EXTERNAL]),
    {
        TCAN455xRequest::get_write_command(REG_MCAN_TSCC, REG_BITS_MCAN_TSCC_COUNTER_EXTERNAL)
    }

    /// Interrupt enable frame: new message in either RX FIFO.
    pub fn set_mcan_ie() -> (r: Vec<u8>)
        ensures
            r@ == write_frame(REG_MCAN_IE, seq![MCAN_IE_CONFIG]),
    {
        TCAN455xRequest::get_write_command(REG_MCAN_IE, MCAN_IE_CONFIG)
    }

    /// Interrupt line enable frame: both lines.
    pub fn set_mcan_ile() -> (r: Vec<u8>)
        ensures
            r@ == write_frame(REG_MCAN_ILE, seq![MCAN_ILE_CONFIG]),
    {
        TCAN455xRequest::get_write_command(REG_MCAN_ILE, MCAN_ILE_CONFIG)
    }
}

} // verus!
