//! Register addresses and bit fields of the TCAN455x.

use vstd::prelude::*;

verus! {

// SPI and device registers
pub const REG_SPI_DEVICE_ID0: u16 = 0x0000;
pub const REG_SPI_DEVICE_ID1: u16 = 0x0004;
pub const REG_SPI_REVISION: u16 = 0x0008;
pub const REG_SPI_STATUS: u16 = 0x000C;
pub const REG_DEV_MODES_AND_PINS: u16 = 0x0800;
pub const REG_DEV_TIMESTAMP_PRESCALER: u16 = 0x0804;
pub const REG_DEV_TEST_REGISTERS: u16 = 0x0808;
pub const REG_DEV_IR: u16 = 0x0820;
pub const REG_DEV_IE: u16 = 0x0830;

// MCAN registers
pub const REG_MCAN_CREL: u16 = 0x1000;
pub const REG_MCAN_ENDN: u16 = 0x1004;
pub const REG_MCAN_DBTP: u16 = 0x100C;
pub const REG_MCAN_TEST: u16 = 0x1010;
pub const REG_MCAN_RWD: u16 = 0x1014;
pub const REG_MCAN_CCCR: u16 = 0x1018;
pub const REG_MCAN_NBTP: u16 = 0x101C;
pub const REG_MCAN_TSCC: u16 = 0x1020;
pub const REG_MCAN_TSCV: u16 = 0x1024;
pub const REG_MCAN_TOCC: u16 = 0x1028;
pub const REG_MCAN_TOCV: u16 = 0x102C;
pub const REG_MCAN_ECR: u16 = 0x1040;
pub const REG_MCAN_PSR: u16 = 0x1044;
pub const REG_MCAN_TDCR: u16 = 0x1048;
pub const REG_MCAN_IR: u16 = 0x1050;
pub const REG_MCAN_IE: u16 = 0x1054;
pub const REG_MCAN_ILS: u16 = 0x1058;
pub const REG_MCAN_ILE: u16 = 0x105C;
pub const REG_MCAN_GFC: u16 = 0x1080;
pub const REG_MCAN_SIDFC: u16 = 0x1084;
pub const REG_MCAN_XIDFC: u16 = 0x1088;
pub const REG_MCAN_XIDAM: u16 = 0x1090;
pub const REG_MCAN_HPMS: u16 = 0x1094;
pub const REG_MCAN_NDAT1: u16 = 0x1098;
pub const REG_MCAN_NDAT2: u16 = 0x109C;
pub const REG_MCAN_RXF0C: u16 = 0x10A0;
pub const REG_MCAN_RXF0S: u16 = 0x10A4;
pub const REG_MCAN_RXF0A: u16 = 0x10A8;
pub const REG_MCAN_RXBC: u16 = 0x10AC;
pub const REG_MCAN_RXF1C: u16 = 0x10B0;
pub const REG_MCAN_RXF1S: u16 = 0x10B4;
pub const REG_MCAN_RXF1A: u16 = 0x10B8;
pub const REG_MCAN_RXESC: u16 = 0x10BC;
pub const REG_MCAN_TXBC: u16 = 0x10C0;
pub const REG_MCAN_TXFQS: u16 = 0x10C4;
pub const REG_MCAN_TXESC: u16 = 0x10C8;
pub const REG_MCAN_TXBRP: u16 = 0x10CC;
pub const REG_MCAN_TXBAR: u16 = 0x10D0;
pub const REG_MCAN_TXBCR: u16 = 0x10D4;
pub const REG_MCAN_TXBTO: u16 = 0x10D8;
pub const REG_MCAN_TXBCF: u16 = 0x10DC;
pub const REG_MCAN_TXBTIE: u16 = 0x10E0;
pub const REG_MCAN_TXBCIE: u16 = 0x10E4;
pub const REG_MCAN_TXEFC: u16 = 0x10F0;
pub const REG_MCAN_TXEFS: u16 = 0x10F4;
pub const REG_MCAN_TXEFA: u16 = 0x10F8;

// Message RAM: 2 KB from 0x8000 on
pub const MRAM_BASEADDR: u16 = 0x8000;
pub const MRAM_SIZE: u16 = 0x0800;

// Device mode and pins register
pub const REG_BITS_DEVICE_MODE_DEVICEMODE_MASK: u32 = 0x0000_00C0;
pub const REG_BITS_DEVICE_MODE_DEVICEMODE_SLEEP: u32 = 0x0000_0000;
pub const REG_BITS_DEVICE_MODE_DEVICEMODE_STANDBY: u32 = 0x0000_0040;
pub const REG_BITS_DEVICE_MODE_DEVICEMODE_NORMAL: u32 = 0x0000_0080;

// Device interrupt register
pub const REG_BITS_DEVICE_IR_M_CAN_INT: u32 = 0x0000_0002;

// CC control register
pub const REG_BITS_MCAN_CCCR_INIT: u32 = 0x0000_0001;
pub const REG_BITS_MCAN_CCCR_CCE: u32 = 0x0000_0002;
pub const REG_BITS_MCAN_CCCR_ASM: u32 = 0x0000_0004;
pub const REG_BITS_MCAN_CCCR_CSA: u32 = 0x0000_0008;
pub const REG_BITS_MCAN_CCCR_CSR: u32 = 0x0000_0010;
pub const REG_BITS_MCAN_CCCR_MON: u32 = 0x0000_0020;
pub const REG_BITS_MCAN_CCCR_DAR: u32 = 0x0000_0040;
pub const REG_BITS_MCAN_CCCR_TEST: u32 = 0x0000_0080;
pub const REG_BITS_MCAN_CCCR_FDOE: u32 = 0x0000_0100;
pub const REG_BITS_MCAN_CCCR_BRSE: u32 = 0x0000_0200;

// Test register
pub const REG_BITS_MCAN_TEST_LOOP_BACK: u32 = 0x0000_0010;

// Data bit timing: transmitter delay compensation
pub const REG_BITS_MCAN_DBTP_TDC_EN: u32 = 0x0080_0000;

// Timestamp counter configuration: external counter
pub const REG_BITS_MCAN_TSCC_COUNTER_EXTERNAL: u32 = 0x0000_0002;

// RX FIFO configuration: overwrite mode
pub const REG_BITS_MCAN_RXF0C_F0OM_OVERWRITE: u32 = 0x8000_0000;

// MCAN interrupt register: new message in RX FIFO 0 and 1
pub const REG_BITS_MCAN_IR_RF0N: u32 = 0x0000_0001;
pub const REG_BITS_MCAN_IR_RF1N: u32 = 0x0000_0010;

// Global filter: accept non-matching standard frames into RX FIFO 0 and
// non-matching extended frames into RX FIFO 1, reject remote frames
pub const REG_BITS_MCAN_GFC_ANFS_RXFIFO0: u32 = 0x0000_0000;
pub const REG_BITS_MCAN_GFC_ANFE_RXFIFO1: u32 = 0x0000_0004;
pub const REG_BITS_MCAN_GFC_RRFS: u32 = 0x0000_0002;
pub const REG_BITS_MCAN_GFC_RRFE: u32 = 0x0000_0001;

// TX buffer element
pub const REG_BITS_TX_ELEMENT_XTD: u32 = 0x4000_0000;
pub const REG_BITS_TX_ELEMENT_EFC: u32 = 0x0080_0000;
pub const REG_BITS_TX_ELEMENT_FDF: u32 = 0x0020_0000;
pub const REG_BITS_TX_ELEMENT_BRS: u32 = 0x0010_0000;

} // verus!
