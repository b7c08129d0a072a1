//! Command frames for the device's configuration registers.

use vstd::prelude::*;
use crate::codec::{write_frame, TCAN455xController};

verus! {

/// Builds the write commands that configure the device and its message RAM.
pub struct TCAN455xRequest {}

impl TCAN455xRequest {
    /// The frame that writes the one word `data` to the register at `addr`.
    pub fn get_write_command(addr: u16, data: u32) -> (r: Vec<u8>)
        ensures
            r@ == write_frame(addr, seq![data]),
    {
        let mut words: Vec<u32> = Vec::new();
        words.push(data);
        assert(words@ =~= seq![data]);
        TCAN455xController::generate_write_command(addr, &words)
    }
}

} // verus!
