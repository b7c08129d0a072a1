//! The transport that reaches the device, and the log of the operations
//! that the driver issues on it, in whose terms the datapath is specified.

use vstd::prelude::*;
use crate::codec::{frame_addr, read_frame, reply_word, write_frame, DriverError, WRITE_FLAG};
use crate::register::REG_MCAN_IR;

verus! {

/// What the driver needs of the bus and pins that reach the device. Each
/// host platform implements it.
pub trait Transport {
    /// Sends `data`.
    fn write(&mut self, data: &[u8]) -> Result<usize, DriverError>;

    /// Sends `data` and fills `buffer` with the bytes clocked in meanwhile.
    fn transfer(&mut self, data: &[u8], buffer: &mut Vec<u8>) -> Result<usize, DriverError>;

    /// Sends `data` and replaces it with the bytes clocked in meanwhile.
    fn transfer_in_place(&mut self, data: &mut Vec<u8>) -> Result<usize, DriverError>;

    /// Pulses the device's reset line.
    fn reset(&mut self) -> Result<(), DriverError>;

    /// Drives the output pins: bit `i` of `state` sets pin `i`.
    fn gpio_out(&mut self, state: u8) -> Result<(), DriverError>;

    /// Reads input pin `channel`.
    fn gpio_read(&mut self, channel: usize) -> Result<bool, DriverError>;

    /// Reads all input pins: bit `i` of the result is pin `i`.
    fn gpio_read_all(&mut self) -> Result<u64, DriverError>;
}

/// One operation that the driver issued on the bus, and whether the
/// transport reported success.
pub enum BusOp {
    /// A pulse of the reset line.
    Reset { ok: bool },
    /// A frame sent without reading a reply.
    Write { frame: Seq<u8>, ok: bool },
    /// A frame sent while a reply was clocked in.
    Exchange { sent: Seq<u8>, reply: Seq<u8>, ok: bool },
}

/// The transport reported success, and an exchange brought a full reply.
pub open spec fn op_ok(op: BusOp) -> bool {
    match op {
        BusOp::Reset { ok } => ok,
        BusOp::Write { ok, .. } => ok,
        BusOp::Exchange { sent, reply, ok } => ok && reply.len() >= sent.len(),
    }
}

/// The operation is a write frame addressed to register `addr`.
pub open spec fn writes_to(op: BusOp, addr: u16) -> bool {
    &&& op is Write
    &&& op->frame.len() >= 4
    &&& op->frame[0] == WRITE_FLAG
    &&& frame_addr(op->frame) == addr
}

/// The operation is a write of the words `ws` to register `addr`.
pub open spec fn is_write_of(op: BusOp, addr: u16, ws: Seq<u32>) -> bool {
    op is Write && op->frame == write_frame(addr, ws)
}

/// The operation reads `count` words from register `addr`.
pub open spec fn is_read_of(op: BusOp, addr: u16, count: u8) -> bool {
    op is Exchange && op->sent == read_frame(addr, count)
}

/// The first word that an exchange brought back.
pub open spec fn read_value(op: BusOp) -> u32 {
    reply_word(op->reply)
}

/// `after` is `before` with at least one operation added.
pub open spec fn extends(before: Seq<BusOp>, after: Seq<BusOp>) -> bool {
    &&& before.len() < after.len()
    &&& forall|i: int| 0 <= i < before.len() ==> after[i] == before[i]
}

/// A bring-up operation that went through: it succeeded and did not touch
/// the MCAN interrupt register.
pub open spec fn clean(op: BusOp) -> bool {
    op_ok(op) && !writes_to(op, REG_MCAN_IR)
}

/// The operations from `start` on all went through.
pub open spec fn clean_from(ops: Seq<BusOp>, start: int) -> bool {
    forall|i: int| start <= i < ops.len() ==> clean(#[trigger] ops[i])
}

/// A step that stops at its first failure: it added operations to `before`,
/// all of which but the last went through, and the last went through where
/// the step succeeded and failed where it failed.
pub open spec fn fail_fast_step(before: Seq<BusOp>, after: Seq<BusOp>, ok: bool) -> bool {
    &&& extends(before, after)
    &&& forall|i: int| before.len() <= i < after.len() - 1 ==> clean(#[trigger] after[i])
    &&& ok ==> clean(after.last())
    &&& !ok ==> !op_ok(after.last())
}

/// The operations from `start` on all went through, and the last step added
/// one that failed.
pub open spec fn failed_from(ops: Seq<BusOp>, start: int) -> bool {
    &&& start < ops.len()
    &&& forall|i: int| start <= i < ops.len() - 1 ==> clean(#[trigger] ops[i])
    &&& !op_ok(ops.last())
}

/// A fail-fast step after operations that all went through from `start` on
/// leaves them all gone through, or ends them with its failure.
pub proof fn lemma_chain(before: Seq<BusOp>, after: Seq<BusOp>, start: int, ok: bool)
    requires
        0 <= start <= before.len(),
        clean_from(before, start),
        fail_fast_step(before, after, ok),
    ensures
        ok ==> clean_from(after, start),
        !ok ==> failed_from(after, start),
{
    assert forall|i: int| start <= i < after.len() - 1 implies clean(#[trigger] after[i]) by {
        if i < before.len() {
            assert(after[i] == before[i]);
        }
    }
}

} // verus!
