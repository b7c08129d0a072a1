//! The receive buffer handed to the caller of a receive.

use vstd::prelude::*;

verus! {

/// Capacity that each channel's buffer is allocated with.
pub const FIFOSIZE: usize = 1024;

/// Bytes received from each RX FIFO channel in one receive.
#[derive(Debug)]
pub struct RxData {
    pub fifo0: Vec<u8>,
    pub fifo1: Vec<u8>,
}

impl RxData {
    /// Two empty channel buffers.
    pub fn new() -> (r: Self)
        ensures
            r.fifo0@.len() == 0,
            r.fifo1@.len() == 0,
    {
        Self { fifo0: Vec::with_capacity(FIFOSIZE), fifo1: Vec::with_capacity(FIFOSIZE) }
    }

    /// Empties both channel buffers.
    pub fn reset(&mut self)
        ensures
            final(self).fifo0@.len() == 0,
            final(self).fifo1@.len() == 0,
    {
        self.fifo0.clear();
        self.fifo1.clear();
    }
}

} // verus!
