//! Driver core for the TCAN455x family of CAN-FD transceivers: the SPI
//! command codec, the message RAM layout, bit timing, register
//! configuration words and the transmit/receive datapath.

pub mod bus;
pub mod codec;
pub mod dlc;
pub mod fifo;
pub mod filter;
pub mod mcan;
pub mod modes;
pub mod mram;
pub mod register;
pub mod request;
pub mod rx_buffer;
pub mod setup;
pub mod transceiver;

pub use crate::codec::{DriverError, TCAN455xController};
pub use crate::filter::{SIDConfig, SIDFCONFIG, XIDConfig, XIDFCONFIG};
pub use crate::modes::DeviceMode;
pub use crate::mram::{get_mram_offset_addrs, get_mram_start_addrs, mram_layout, FIFODATASIZE};
pub use crate::register as tcan4550_register;
pub use crate::request::TCAN455xRequest;
pub use crate::rx_buffer::RxData;
pub use crate::bus::Transport;
pub use crate::transceiver::{RxStatus, TCAN455xTranceiver};
