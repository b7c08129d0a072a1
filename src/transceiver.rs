//! The transceiver: bring-up, transmit, receive and close over a transport,
//! and what each of them does on the bus.

use vstd::prelude::*;
use crate::bus::{
    clean, clean_from, fail_fast_step, failed_from, is_read_of, is_write_of, lemma_chain,
    op_ok, read_value, writes_to, BusOp, Transport,
};
use crate::setup::{
    cleared_at, is_setup_program, lemma_steps_kept, mram_clear_frame, setup_program,
    step_allowed, step_at, step_done, steps_traced, SetupStep, MCAN_IR_CLEAR, MRAM_CLEAR_FRAMES,
    MRAM_CLEAR_WORDS, SETUP_STEPS,
};
use crate::codec::{
    frame_words, lemma_frame_addr, lemma_write_frame_round_trip, read_frame, write_frame,
    DriverError, TCAN455xController,
};
use crate::fifo::{
    rx_ack, rx_ack_index, rx_fill_level, rx_get_index, rx_put_index, rx_read_runs, rx_runs,
    tx_element, tx_element_words, tx_fifo_free_level, tx_fifo_put_index, tx_free_level,
    tx_put_index, ReadRun, RxFifoStatus,
};
use crate::filter::{sid_elements, xid_elements, SIDConfig, SIDFCONFIG, XIDConfig, XIDFCONFIG};
use crate::mcan::{protected, unprotected};
use crate::modes::{switch_mode_word, switched_mode_word, DeviceMode};
use crate::mram::{
    lemma_config_layout, rx_data_addr, tx_data_addr, MRAMCONFIG_BYTESPERELEMENT_RXFIFO0,
    MRAMCONFIG_BYTESPERELEMENT_RXFIFO1, MRAMCONFIG_NUMOFELEMENTS_RXFIFO0,
    MRAMCONFIG_NUMOFELEMENTS_RXFIFO1, MRAMCONFIG_NUMOFELEMENTS_SID, MRAMCONFIG_NUMOFELEMENTS_XID,
};
use crate::register::{
    MRAM_BASEADDR, REG_BITS_DEVICE_IR_M_CAN_INT, REG_BITS_DEVICE_MODE_DEVICEMODE_MASK,
    REG_BITS_DEVICE_MODE_DEVICEMODE_NORMAL, REG_BITS_MCAN_CCCR_MON, REG_BITS_MCAN_CCCR_TEST,
    REG_BITS_MCAN_IR_RF0N, REG_BITS_MCAN_IR_RF1N, REG_BITS_MCAN_TEST_LOOP_BACK, REG_DEV_IR,
    REG_DEV_MODES_AND_PINS, REG_MCAN_CCCR, REG_MCAN_IR, REG_MCAN_RXF0A, REG_MCAN_RXF0S,
    REG_MCAN_RXF1A, REG_MCAN_RXF1S, REG_MCAN_TEST, REG_MCAN_TXBAR, REG_MCAN_TXFQS, REG_SPI_STATUS,
};
use crate::request::TCAN455xRequest;
use crate::rx_buffer::RxData;

verus! {

/// Bytes of payload that one TX buffer element carries.
pub const TX_CHUNK_SIZE: usize = 64;

/// Chunk `k` of `data`: its bytes `64k .. 64k + 64`, or up to its end.
pub open spec fn tx_chunk(data: Seq<u8>, k: int) -> Seq<u8> {
    let end = if TX_CHUNK_SIZE * k + TX_CHUNK_SIZE <= data.len() {
        TX_CHUNK_SIZE * k + TX_CHUNK_SIZE
    } else {
        data.len() as int
    };
    data.subrange(TX_CHUNK_SIZE * k, end)
}

/// Number of chunks that `len` bytes are sent in.
pub open spec fn tx_chunk_count(len: int) -> int {
    (len + TX_CHUNK_SIZE - 1) / (TX_CHUNK_SIZE as int)
}

/// The frame that writes the TX element for `chunk` with identifier `id`
/// to the slot at `put_index`.
pub open spec fn tx_element_frame(id: u32, chunk: Seq<u8>, put_index: u32) -> Seq<u8> {
    write_frame(tx_data_addr(put_index as u16) as u16, tx_element(id, chunk))
}

/// The frame that requests transmission of the slot at `put_index`.
pub open spec fn tx_doorbell_frame(put_index: u32) -> Seq<u8> {
    write_frame(REG_MCAN_TXBAR, seq![1u32 << put_index])
}

/// The three operations that send one chunk: a read of the TX FIFO queue
/// status that shows a free slot, the element written to the slot at the
/// put index, and the request to transmit it.
pub open spec fn tx_chunk_ops(id: u32, chunk: Seq<u8>, a: BusOp, b: BusOp, c: BusOp) -> bool {
    &&& is_read_of(a, REG_MCAN_TXFQS, 1)
    &&& op_ok(a)
    &&& tx_free_level(read_value(a)) != 0
    &&& b == BusOp::Write {
        frame: tx_element_frame(id, chunk, tx_put_index(read_value(a))),
        ok: true,
    }
    &&& c == BusOp::Write { frame: tx_doorbell_frame(tx_put_index(read_value(a))), ok: true }
}

/// The operations `rest` that a chunk's sending stopped with, and its
/// result: the status read failed; or it showed no free slot, and nothing
/// was written and the result is `Interrupted`; or the write of the element
/// failed; or the request to transmit it failed.
pub open spec fn tx_chunk_failed(
    id: u32,
    chunk: Seq<u8>,
    rest: Seq<BusOp>,
    r: Result<(), DriverError>,
) -> bool {
    &&& r is Err
    &&& 1 <= rest.len() <= 3
    &&& is_read_of(rest[0], REG_MCAN_TXFQS, 1)
    &&& rest.len() == 1 ==> (!op_ok(rest[0]) || tx_free_level(read_value(rest[0])) == 0)
    &&& rest.len() == 1 && op_ok(rest[0]) ==> r == Err::<(), DriverError>(DriverError::Interrupted)
    &&& rest.len() >= 2 ==> op_ok(rest[0]) && tx_free_level(read_value(rest[0])) != 0
        && rest[1]->frame == tx_element_frame(id, chunk, tx_put_index(read_value(rest[0])))
        && rest[1] is Write
    &&& rest.len() == 2 ==> !op_ok(rest[1])
    &&& rest.len() == 3 ==> op_ok(rest[1]) && rest[2] == BusOp::Write {
        frame: tx_doorbell_frame(tx_put_index(read_value(rest[0]))),
        ok: false,
    }
}

/// The status read of chunk `k`, at `s + 3k`, went through and showed no
/// free slot in the TX FIFO.
pub open spec fn found_fifo_full(ops: Seq<BusOp>, s: int, k: int) -> bool {
    &&& 0 <= k
    &&& s + 3 * k < ops.len()
    &&& op_ok(ops[s + 3 * k])
    &&& tx_free_level(read_value(ops[s + 3 * k])) == 0
}

/// Chunk `k` of `data` was sent by the three operations from `s + 3k` on.
pub open spec fn chunk_sent(ops: Seq<BusOp>, s: int, id: u32, data: Seq<u8>, k: int) -> bool {
    tx_chunk_ops(id, tx_chunk(data, k), ops[s + 3 * k], ops[s + 3 * k + 1], ops[s + 3 * k + 2])
}

/// Words of one RX FIFO element of channel `ch`.
pub open spec fn rx_element_words(ch: u16) -> u32 {
    if ch == 0 {
        (MRAMCONFIG_BYTESPERELEMENT_RXFIFO0 / 4) as u32
    } else {
        (MRAMCONFIG_BYTESPERELEMENT_RXFIFO1 / 4) as u32
    }
}

/// Number of elements of RX FIFO `ch`.
pub open spec fn rx_depth(ch: u16) -> u32 {
    if ch == 0 {
        MRAMCONFIG_NUMOFELEMENTS_RXFIFO0
    } else {
        MRAMCONFIG_NUMOFELEMENTS_RXFIFO1
    }
}

/// Status register of RX FIFO `ch`.
pub open spec fn rx_status_reg(ch: u16) -> u16 {
    if ch == 0 {
        REG_MCAN_RXF0S
    } else {
        REG_MCAN_RXF1S
    }
}

/// Acknowledge register of RX FIFO `ch`.
pub open spec fn rx_ack_reg(ch: u16) -> u16 {
    if ch == 0 {
        REG_MCAN_RXF0A
    } else {
        REG_MCAN_RXF1A
    }
}

/// The bytes that an exchange brought back after the echoed header, as many
/// as it asked for.
pub open spec fn reply_body(op: BusOp) -> Seq<u8> {
    op->reply.subrange(4, op->sent.len() as int)
}

/// The bodies of the replies of `reads`, one after the other.
pub open spec fn reply_bodies(reads: Seq<BusOp>) -> Seq<u8>
    decreases reads.len(),
{
    if reads.len() == 0 {
        Seq::empty()
    } else {
        reply_bodies(reads.drop_last()) + reply_body(reads.last())
    }
}

/// Elements of an RX FIFO that one read may fetch: their words must fit
/// the read frame's count byte.
pub const RX_RUN_MAX: u32 = 14;

/// The read frames for the runs `runs` of RX FIFO `ch`, one for each run with
/// elements, in order.
pub open spec fn rx_run_frames(ch: u16, runs: Seq<ReadRun>) -> Seq<Seq<u8>>
    decreases runs.len(),
{
    if runs.len() == 0 {
        Seq::empty()
    } else if runs.last().count == 0 {
        rx_run_frames(ch, runs.drop_last())
    } else {
        rx_run_frames(ch, runs.drop_last()).push(
            read_frame(
                rx_data_addr(ch, runs.last().start as u16) as u16,
                (runs.last().count * rx_element_words(ch)) as u8,
            ),
        )
    }
}

/// Each of the runs can be fetched with one read.
pub open spec fn runs_fit(runs: Seq<ReadRun>) -> bool {
    forall|i: int| 0 <= i < runs.len() ==> (#[trigger] runs[i]).count <= RX_RUN_MAX
}

/// `reads` are the first of the reads `plan`, in order; all succeeded but
/// perhaps the last.
pub open spec fn reads_along(plan: Seq<Seq<u8>>, reads: Seq<BusOp>) -> bool {
    &&& reads.len() <= plan.len()
    &&& forall|i: int| 0 <= i < reads.len() ==> (#[trigger] reads[i]) is Exchange && reads[i]->sent == plan[i]
    &&& forall|i: int| 0 <= i < reads.len() - 1 ==> op_ok(#[trigger] reads[i])
}

/// `reads` are all the reads of `plan`, and all succeeded.
pub open spec fn reads_complete(plan: Seq<Seq<u8>>, reads: Seq<BusOp>) -> bool {
    reads_along(plan, reads) && reads.len() == plan.len() && (reads.len() == 0 || op_ok(
        reads.last(),
    ))
}

/// The operations `seg` read RX FIFO `ch`, turning the channel's bytes from
/// `before` into `after`, with the result `ok`: a status read, and where it
/// went through, the reads of the runs that the status gives (stopping at
/// the first that fails), then the acknowledge up to the slot before the put
/// index. The bytes of the runs are added only where every read succeeded.
pub open spec fn channel_read(
    ch: u16,
    seg: Seq<BusOp>,
    before: Seq<u8>,
    after: Seq<u8>,
    ok: bool,
) -> bool {
    let status = read_value(seg[0]);
    let runs = rx_runs(rx_put_index(status), rx_get_index(status), rx_fill_level(status));
    let mids = seg.subrange(1, seg.len() - 1);
    &&& 1 <= seg.len()
    &&& is_read_of(seg[0], rx_status_reg(ch), 1)
    &&& !op_ok(seg[0]) ==> !ok && seg.len() == 1 && after == before
    &&& op_ok(seg[0]) ==> {
        &&& 2 <= seg.len()
        &&& seg.last() == BusOp::Write {
            frame: write_frame(rx_ack_reg(ch), seq![rx_ack(rx_put_index(status), rx_depth(ch))]),
            ok,
        }
        &&& (runs is None || !runs_fit(runs->0)) ==> mids.len() == 0 && after == before
        &&& (runs is Some && runs_fit(runs->0)) ==> {
            &&& reads_along(rx_run_frames(ch, runs->0), mids)
            &&& reads_complete(rx_run_frames(ch, runs->0), mids) ==> after == before
                + reply_bodies(mids)
            &&& !reads_complete(rx_run_frames(ch, runs->0), mids) ==> after == before
                && !op_ok(mids.last())
        }
    }
}

proof fn lemma_run_frames_prefix(ch: u16, runs: Seq<ReadRun>, i: int, j: int)
    requires
        0 <= i <= j <= runs.len(),
    ensures
        rx_run_frames(ch, runs.subrange(0, i)).len() <= rx_run_frames(ch, runs.subrange(0, j)).len(),
        forall|k: int|
            0 <= k < rx_run_frames(ch, runs.subrange(0, i)).len() ==> rx_run_frames(
                ch,
                runs.subrange(0, i),
            )[k] == rx_run_frames(ch, runs.subrange(0, j))[k],
    decreases j - i,
{
    if i < j {
        lemma_run_frames_prefix(ch, runs, i, j - 1);
        assert(runs.subrange(0, j).drop_last() =~= runs.subrange(0, j - 1));
    }
}

/// What a receive found.
#[derive(Debug, Clone, Copy, PartialEq, Eq, Structural)]
pub enum RxStatus {
    /// No MCAN interrupt was pending: nothing to read.
    NoData,
    /// The RX FIFOs with new messages were read.
    Received,
}

/// What `transmit` of the payload `d` with identifier `id` did, taking the
/// operations `before` to `after` with the result `r`: where it succeeded,
/// it sent each chunk with its three operations; a status read that showed
/// a full TX FIFO ended the call with `Interrupted`; where it failed, it
/// sent the chunks before the failing one, which stopped as
/// [`tx_chunk_failed`] says.
pub open spec fn transmitted(
    id: u32,
    d: Seq<u8>,
    before: Seq<BusOp>,
    after: Seq<BusOp>,
    r: Result<(), DriverError>,
) -> bool {
    let s = before.len() as int;
    let n = tx_chunk_count(d.len() as int);
    &&& s <= after.len()
    &&& forall|i: int| 0 <= i < s ==> after[i] == before[i]
    &&& r is Ok ==> after.len() == s + 3 * n && forall|k: int|
        0 <= k < n ==> #[trigger] chunk_sent(after, s, id, d, k)
    &&& forall|k: int|
        #[trigger] found_fifo_full(after, s, k) ==> r == Err::<(), DriverError>(
            DriverError::Interrupted,
        ) && after.len() == s + 3 * k + 1
    &&& r is Err ==> exists|k: int|
        0 <= k < n && s + 3 * k < after.len() && (forall|j: int|
            0 <= j < k ==> #[trigger] chunk_sent(after, s, id, d, j)) && tx_chunk_failed(
            id,
            tx_chunk(d, k),
            after.subrange(s + 3 * k, after.len() as int),
            r,
        )
}

/// What `setup` with the filters `sid` and `xid` did, taking the operations
/// `before` to `after` with the result `r`: it began with a reset; where it
/// failed, it stopped at the first operation that failed; where it
/// succeeded, it carried out each step of the bring-up program, switched to
/// normal mode and cleared the MCAN interrupt flags, touching the MCAN
/// interrupt register only then.
pub open spec fn set_up(
    sid: Seq<SIDConfig>,
    xid: Seq<XIDConfig>,
    before: Seq<BusOp>,
    after: Seq<BusOp>,
    r: Result<(), DriverError>,
) -> bool {
    let s = before.len() as int;
    &&& s < after.len()
    &&& forall|i: int| 0 <= i < s ==> after[i] == before[i]
    &&& after[s] is Reset
    &&& r is Err ==> failed_from(after, s)
    &&& r is Ok ==> {
        &&& s + 3 <= after.len()
        &&& exists|p: Seq<SetupStep>, b: Seq<int>|
            is_setup_program(p, sid_elements(sid), xid_elements(xid)) && #[trigger] steps_traced(
                p,
                b,
                after,
                s,
                after.len() - 3,
            )
        &&& forall|i: int| s <= i < after.len() - 1 ==> clean(#[trigger] after[i])
        &&& is_read_of(after[after.len() - 3], REG_DEV_MODES_AND_PINS, 1)
        &&& is_write_of(
            after[after.len() - 2],
            REG_DEV_MODES_AND_PINS,
            seq![switched_mode_word(read_value(after[after.len() - 3]), DeviceMode::Normal)],
        )
        &&& after.last() == BusOp::Write {
            frame: write_frame(REG_MCAN_IR, seq![MCAN_IR_CLEAR]),
            ok: true,
        }
    }
}

/// A transmit whose status read for chunk `k` shows a full TX FIFO returns
/// `Interrupted`, and that read is its last operation: it writes neither
/// that chunk's element nor its transmit request, nor anything after.
pub proof fn lemma_full_fifo_stops_transmit(
    id: u32,
    d: Seq<u8>,
    before: Seq<BusOp>,
    after: Seq<BusOp>,
    r: Result<(), DriverError>,
    k: int,
)
    requires
        transmitted(id, d, before, after, r),
        found_fifo_full(after, before.len() as int, k),
    ensures
        r == Err::<(), DriverError>(DriverError::Interrupted),
        after.len() == before.len() + 3 * k + 1,
        is_read_of(after.last(), REG_MCAN_TXFQS, 1),
        forall|i: int| before.len() + 3 * k <= i < after.len() ==> !((#[trigger] after[i]) is Write),
        k == 0 ==> forall|i: int| before.len() <= i < after.len() ==> !((#[trigger] after[i]) is Write),
{
    let s = before.len() as int;
    assert(found_fifo_full(after, s, k));
    let kk = choose|kk: int|
        0 <= kk < tx_chunk_count(d.len() as int) && s + 3 * kk < after.len() && (forall|j: int|
            0 <= j < kk ==> #[trigger] chunk_sent(after, s, id, d, j)) && tx_chunk_failed(
            id,
            tx_chunk(d, kk),
            after.subrange(s + 3 * kk, after.len() as int),
            r,
        );
    let rest = after.subrange(s + 3 * kk, after.len() as int);
    assert(rest.len() <= 3);
    if kk < k {
        assert(false);
    }
    assert(kk == k);
    assert(rest[0] == after[s + 3 * k]);
}

/// A setup that succeeds writes the MCAN interrupt register exactly once,
/// with its last operation, which clears every flag; and its last write of
/// the device mode register, the one before that, selects normal mode.
pub proof fn lemma_setup_ends_normal(
    sid: Seq<SIDConfig>,
    xid: Seq<XIDConfig>,
    before: Seq<BusOp>,
    after: Seq<BusOp>,
)
    requires
        set_up(sid, xid, before, after, Ok(())),
    ensures
        forall|i: int|
            before.len() <= i < after.len() ==> (writes_to(#[trigger] after[i], REG_MCAN_IR) <==> i
                == after.len() - 1),
        after.last() == (BusOp::Write { frame: write_frame(REG_MCAN_IR, seq![MCAN_IR_CLEAR]), ok: true }),
        writes_to(after[after.len() - 2], REG_DEV_MODES_AND_PINS),
        !writes_to(after.last(), REG_DEV_MODES_AND_PINS),
        frame_words(after[after.len() - 2]->frame)[0] & REG_BITS_DEVICE_MODE_DEVICEMODE_MASK
            == REG_BITS_DEVICE_MODE_DEVICEMODE_NORMAL,
{
    let n = after.len() as int;
    let v = read_value(after[n - 3]);
    let w = switched_mode_word(v, DeviceMode::Normal);
    lemma_frame_addr(REG_MCAN_IR, seq![MCAN_IR_CLEAR]);
    lemma_frame_addr(REG_DEV_MODES_AND_PINS, seq![w]);
    lemma_write_frame_round_trip(REG_DEV_MODES_AND_PINS, seq![w]);
    assert(((v & !0xC0u32) | 0x80u32) & 0xC0u32 == 0x80u32) by (bit_vector);
    assert forall|i: int|
        before.len() <= i < after.len() implies (writes_to(#[trigger] after[i], REG_MCAN_IR) <==> i
        == after.len() - 1) by {
        if i < n - 1 {
            assert(clean(after[i]));
        }
    }
}

/// A TCAN455x reached through the transport `T`.
pub struct TCAN455xTranceiver<T: Transport> {
    driver: T,
    ops: Ghost<Seq<BusOp>>,
}

impl<T: Transport> TCAN455xTranceiver<T> {
    /// The operations issued on the bus so far, oldest first.
    pub closed spec fn ops(&self) -> Seq<BusOp> {
        self.ops@
    }

    /// A transceiver that owns `driver` and has issued nothing yet.
    pub fn new(driver: T) -> (r: Self)
        ensures
            r.ops() == Seq::<BusOp>::empty(),
    {
        Self { driver, ops: Ghost(Seq::empty()) }
    }

    /// The transport.
    pub fn driver(&self) -> &T {
        &self.driver
    }

    /// The transport, for the platform's own devices beside the TCAN455x.
    /// What is done through it is not among [`Self::ops`].
    pub fn driver_mut(&mut self) -> (r: &mut T)
        ensures
            final(self).ops() == old(self).ops(),
    {
        &mut self.driver
    }

    /// Gives the transport back.
    pub fn into_driver(self) -> T {
        self.driver
    }

    /// Sends `frame`.
    fn issue_write(&mut self, frame: &Vec<u8>) -> (r: Result<(), DriverError>)
        ensures
            final(self).ops() == old(self).ops().push(BusOp::Write { frame: frame@, ok: r is Ok }),
    {
        let res = self.driver.write(frame.as_slice());
        let ok: bool = res.is_ok();
        self.ops = Ghost(self.ops@.push(BusOp::Write { frame: frame@, ok }));
        match res {
            Ok(_) => Ok(()),
            Err(e) => Err(e),
        }
    }

    /// Reads `count` words from `addr` on; the reply holds them after its
    /// four echoed header bytes.
    fn issue_read(&mut self, addr: u16, count: u8) -> (r: Result<Vec<u8>, DriverError>)
        ensures
            final(self).ops().drop_last() == old(self).ops(),
            final(self).ops().len() == old(self).ops().len() + 1,
            is_read_of(final(self).ops().last(), addr, count),
            r is Ok <==> op_ok(final(self).ops().last()),
            r is Ok ==> r->Ok_0@ == final(self).ops().last()->reply,
    {
        let mut buf: Vec<u8> = TCAN455xController::generate_read_command(addr, count);
        let ghost sent = buf@;
        let n: usize = buf.len();
        let res = self.driver.transfer_in_place(&mut buf);
        let ok: bool = res.is_ok();
        self.ops = Ghost(self.ops@.push(BusOp::Exchange { sent, reply: buf@, ok }));
        assert(self.ops@.drop_last() =~= old(self).ops@);
        match res {
            Ok(_) => {
                if buf.len() < n {
                    Err(DriverError::InvalidData)
                } else {
                    Ok(buf)
                }
            },
            Err(e) => Err(e),
        }
    }

    /// Writes the one word `data` to the register at `addr`.
    fn write_register(&mut self, addr: u16, data: u32) -> (r: Result<(), DriverError>)
        ensures
            final(self).ops() == old(self).ops().push(
                BusOp::Write { frame: write_frame(addr, seq![data]), ok: r is Ok },
            ),
            writes_to(final(self).ops().last(), addr),
    {
        let frame: Vec<u8> = TCAN455xRequest::get_write_command(addr, data);
        proof {
            lemma_frame_addr(addr, seq![data]);
        }
        self.issue_write(&frame)
    }

    /// Reads the one word of the register at `addr`.
    fn read_register(&mut self, addr: u16) -> (r: Result<u32, DriverError>)
        ensures
            final(self).ops().drop_last() == old(self).ops(),
            final(self).ops().len() == old(self).ops().len() + 1,
            is_read_of(final(self).ops().last(), addr, 1),
            !(final(self).ops().last() is Write),
            r is Ok <==> op_ok(final(self).ops().last()),
            r is Ok ==> r->Ok_0 == read_value(final(self).ops().last()),
    {
        let raw: Vec<u8> = self.issue_read(addr, 1)?;
        TCAN455xController::decode_word(&raw)
    }

    /// Switches the device to `mode`: reads the mode and pins register and
    /// writes it back with the mode field replaced.
    pub fn switch_mode(&mut self, mode: DeviceMode) -> (r: Result<(), DriverError>)
        ensures
            fail_fast_step(old(self).ops(), final(self).ops(), r is Ok),
            is_read_of(final(self).ops()[old(self).ops().len() as int], REG_DEV_MODES_AND_PINS, 1),
            r is Ok ==> final(self).ops().len() == old(self).ops().len() + 2 && is_write_of(
                final(self).ops().last(),
                REG_DEV_MODES_AND_PINS,
                seq![
                    switched_mode_word(
                        read_value(final(self).ops()[old(self).ops().len() as int]),
                        mode,
                    ),
                ],
            ),
    {
        let current: u32 = self.read_register(REG_DEV_MODES_AND_PINS)?;
        let ghost mid = self.ops@;
        let word: u32 = switch_mode_word(current, mode);
        let r = self.write_register(REG_DEV_MODES_AND_PINS, word);
        assert(mid[old(self).ops().len() as int] == self.ops@[old(self).ops().len() as int]);
        r
    }

    /// Reads the device interrupt flags and, where any is set, writes them
    /// back to clear them.
    fn clear_device_interrupts(&mut self) -> (r: Result<(), DriverError>)
        ensures
            fail_fast_step(old(self).ops(), final(self).ops(), r is Ok),
            r is Ok ==> step_done(SetupStep::ClearDeviceInterrupts, final(self).ops().subrange(old(self).ops().len() as int, final(self).ops().len() as int)),
    {
        proof {
            reveal(step_done);
        }
        let flags: u32 = self.read_register(REG_DEV_IR)?;
        if flags != 0 {
            let ghost mid = self.ops@;
            let r = self.write_register(REG_DEV_IR, flags);
            assert(mid.last() == self.ops@[mid.len() - 1]);
            r
        } else {
            Ok(())
        }
    }

    /// Reads the control register and writes it back locked or unlocked.
    fn set_protection(&mut self, protect: bool) -> (r: Result<(), DriverError>)
        ensures
            fail_fast_step(old(self).ops(), final(self).ops(), r is Ok),
            r is Ok ==> final(self).ops().len() == old(self).ops().len() + 2 && is_write_of(
                final(self).ops().last(),
                REG_MCAN_CCCR,
                seq![
                    if protect {
                        protected(read_value(final(self).ops()[old(self).ops().len() as int]))
                    } else {
                        unprotected(read_value(final(self).ops()[old(self).ops().len() as int]))
                    },
                ],
            ),
            r is Ok ==> step_done(
                if protect {
                    SetupStep::Protect
                } else {
                    SetupStep::Unprotect
                },
                final(self).ops().subrange(old(self).ops().len() as int, final(self).ops().len() as int),
            ),
    {
        proof {
            reveal(step_done);
        }
        let cccr: u32 = self.read_register(REG_MCAN_CCCR)?;
        let ghost mid = self.ops@;
        let word: u32 = if protect {
            TCAN455xController::protect_register(cccr)
        } else {
            TCAN455xController::unprotect_register(cccr)
        };
        let r = self.write_register(REG_MCAN_CCCR, word);
        assert(mid[old(self).ops().len() as int] == self.ops@[old(self).ops().len() as int]);
        r
    }

    /// Enables loopback in the test register, only where the control register
    /// already has test mode and bus monitoring on.
    fn enable_test_mode(&mut self) -> (r: Result<(), DriverError>)
        ensures
            fail_fast_step(old(self).ops(), final(self).ops(), r is Ok),
            r is Ok ==> step_done(SetupStep::TestMode, final(self).ops().subrange(old(self).ops().len() as int, final(self).ops().len() as int)),
    {
        proof {
            reveal(step_done);
        }
        let cccr: u32 = self.read_register(REG_MCAN_CCCR)?;
        if cccr & REG_BITS_MCAN_CCCR_TEST != 0 && cccr & REG_BITS_MCAN_CCCR_MON != 0 {
            let ghost mid = self.ops@;
            let r = self.write_register(REG_MCAN_TEST, REG_BITS_MCAN_TEST_LOOP_BACK);
            assert(mid.last() == self.ops@[mid.len() - 1]);
            r
        } else {
            Ok(())
        }
    }

    /// Writes zeros over the whole message RAM.
    fn clear_mram(&mut self) -> (r: Result<(), DriverError>)
        ensures
            fail_fast_step(old(self).ops(), final(self).ops(), r is Ok),
            r is Ok ==> step_done(SetupStep::ClearMram, final(self).ops().subrange(old(self).ops().len() as int, final(self).ops().len() as int)),
    {
        proof {
            reveal(step_done);
        }
        let ghost start = self.ops@.len() as int;
        let mut zeros: Vec<u32> = Vec::new();
        let mut j: usize = 0;
        while j < MRAM_CLEAR_WORDS
            invariant
                j <= MRAM_CLEAR_WORDS,
                zeros@ =~= Seq::new(j as nat, |i: int| 0u32),
            decreases MRAM_CLEAR_WORDS - j,
        {
            zeros.push(0);
            j = j + 1;
        }
        let mut k: usize = 0;
        while k < MRAM_CLEAR_FRAMES
            invariant
                k <= MRAM_CLEAR_FRAMES,
                zeros@.len() == MRAM_CLEAR_WORDS,
                start == old(self).ops().len(),
                self.ops().len() == start + k,
                forall|i: int| 0 <= i < start ==> self.ops()[i] == old(self).ops()[i],
                clean_from(self.ops(), start),
                zeros@ == Seq::new(MRAM_CLEAR_WORDS as nat, |i: int| 0u32),
                forall|j: int| 0 <= j < k ==> #[trigger] cleared_at(self.ops(), start, j),
            decreases MRAM_CLEAR_FRAMES - k,
        {
            let addr: u16 = MRAM_BASEADDR + (4 * MRAM_CLEAR_WORDS * k) as u16;
            let frame: Vec<u8> = TCAN455xController::generate_write_command(addr, &zeros);
            proof {
                lemma_frame_addr(addr, zeros@);
            }
            let ghost before = self.ops@;
            let r = self.issue_write(&frame);
            if r.is_err() {
                assert(self.ops@[before.len() as int] == self.ops@.last());
                return r;
            }
            assert(self.ops@[before.len() as int] == self.ops@.last());
            assert forall|j: int| 0 <= j < k + 1 implies #[trigger] cleared_at(self.ops@, start, j) by {
                if j < k {
                    assert(cleared_at(before, start, j));
                    assert(self.ops@[start + j] == before[start + j]);
                }
            }
            k = k + 1;
        }
        proof {
            let seg = self.ops@.subrange(start, self.ops@.len() as int);
            assert forall|j: int| 0 <= j < MRAM_CLEAR_FRAMES implies #[trigger] seg[j]
                == (BusOp::Write { frame: mram_clear_frame(j), ok: true }) by {
                assert(cleared_at(self.ops@, start, j));
                assert(seg[j] == self.ops@[start + j]);
            }
        }
        Ok(())
    }

    /// Carries out one bring-up step.
    fn run_step(&mut self, step: &SetupStep) -> (r: Result<(), DriverError>)
        requires
            step_allowed(*step),
        ensures
            fail_fast_step(old(self).ops(), final(self).ops(), r is Ok),
            *step is Reset ==> final(self).ops()[old(self).ops().len() as int] is Reset,
            r is Ok ==> step_done(*step, final(self).ops().subrange(old(self).ops().len() as int, final(self).ops().len() as int)),
    {
        proof {
            reveal(step_done);
        }
        match step {
            SetupStep::Reset => {
                let ghost before = self.ops@;
                let res = self.driver.reset();
                let ok: bool = res.is_ok();
                self.ops = Ghost(self.ops@.push(BusOp::Reset { ok }));
                assert(self.ops@.subrange(before.len() as int, self.ops@.len() as int)
                    =~= seq![BusOp::Reset { ok }]);
                assert(*step == SetupStep::Reset);
                assert(ok ==> step_done(
                    SetupStep::Reset,
                    self.ops@.subrange(before.len() as int, self.ops@.len() as int),
                ));
                res
            },
            SetupStep::SwitchMode(mode) => {
                let ghost before = self.ops@;
                let r = self.switch_mode(*mode);
                proof {
                    let seg = self.ops@.subrange(before.len() as int, self.ops@.len() as int);
                    if r is Ok {
                        assert(seg[0] == self.ops@[before.len() as int]);
                        assert(seg[1] == self.ops@.last());
                        assert(clean(self.ops@[before.len() as int]));
                        assert(clean(self.ops@.last()));
                    }
                }
                r
            },
            SetupStep::Send(frame) => {
                let ghost before = self.ops@;
                let r = self.issue_write(frame);
                assert(self.ops@.subrange(before.len() as int, self.ops@.len() as int)
                    =~= seq![BusOp::Write { frame: frame@, ok: r is Ok }]);
                r
            },
            SetupStep::ClearDeviceInterrupts => self.clear_device_interrupts(),
            SetupStep::Unprotect => self.set_protection(false),
            SetupStep::Protect => self.set_protection(true),
            SetupStep::TestMode => self.enable_test_mode(),
            SetupStep::ClearMram => self.clear_mram(),
        }
    }

    /// Sends one chunk of at most 64 bytes: reads the TX FIFO queue status,
    /// fails with `Interrupted` where it shows no free slot, else writes the
    /// element to the slot at the put index and requests its transmission.
    fn send_chunk(&mut self, id: u32, chunk: &Vec<u8>) -> (r: Result<(), DriverError>)
        requires
            chunk@.len() <= TX_CHUNK_SIZE,
        ensures
            ({
                let s = old(self).ops().len() as int;
                let ops = final(self).ops();
                &&& s < ops.len()
                &&& forall|i: int| 0 <= i < s ==> ops[i] == old(self).ops()[i]
                &&& r is Ok ==> ops.len() == s + 3 && tx_chunk_ops(
                    id,
                    chunk@,
                    ops[s],
                    ops[s + 1],
                    ops[s + 2],
                )
                &&& r is Err ==> tx_chunk_failed(id, chunk@, ops.subrange(s, ops.len() as int), r)
            }),
    {
        let ghost s = self.ops@.len() as int;
        let txfqs: u32 = self.read_register(REG_MCAN_TXFQS)?;
        let ghost a = self.ops@;
        let free: u32 = tx_fifo_free_level(txfqs);
        if free == 0 {
            assert(self.ops@.subrange(s, self.ops@.len() as int) =~= seq![self.ops@[s]]);
            return Err(DriverError::Interrupted);
        }
        let put: u32 = tx_fifo_put_index(txfqs);
        proof {
            lemma_config_layout();
        }
        let addr: u16 = TCAN455xRequest::get_txdata_start_addr(put as u16);
        let words: Vec<u32> = tx_element_words(id, chunk.as_slice());
        let frame: Vec<u8> = TCAN455xController::generate_write_command(addr, &words);
        let r1 = self.issue_write(&frame);
        let ghost b = self.ops@;
        assert(b[s] == a[s]);
        if r1.is_err() {
            assert(self.ops@.subrange(s, self.ops@.len() as int) =~= seq![a[s], b[s + 1]]);
            return r1;
        }
        let doorbell: u32 = 1u32 << put;
        let r2 = self.write_register(REG_MCAN_TXBAR, doorbell);
        assert(self.ops@[s] == a[s]);
        assert(self.ops@[s + 1] == b[s + 1]);
        if r2.is_err() {
            assert(self.ops@.subrange(s, self.ops@.len() as int) =~= seq![
                a[s],
                b[s + 1],
                self.ops@[s + 2],
            ]);
        }
        r2
    }

    /// Sends the first `len` bytes of `data` with extended identifier `id`,
    /// in chunks of 64 bytes, one TX buffer element each. Each chunk reads
    /// the TX FIFO queue status and fails with `Interrupted`, writing nothing,
    /// where no slot is free; else it writes the element to the slot at the
    /// put index and requests its transmission. Stops at the first failure.
    pub fn transmit(&mut self, id: u32, data: &[u8], len: usize) -> (r: Result<(), DriverError>)
        requires
            len <= data@.len(),
        ensures
            transmitted(id, data@.subrange(0, len as int), old(self).ops(), final(self).ops(), r),
    {
        let ghost s = self.ops@.len() as int;
        let ghost d = data@.subrange(0, len as int);
        let mut start: usize = 0;
        let mut k: usize = 0;
        while start < len
            invariant
                len <= data@.len(),
                d == data@.subrange(0, len as int),
                s == old(self).ops().len(),
                start < len ==> start == TX_CHUNK_SIZE * k,
                start <= len,
                k <= tx_chunk_count(len as int),
                start < len ==> k < tx_chunk_count(len as int),
                start >= len ==> k == tx_chunk_count(len as int),
                self.ops().len() == s + 3 * k,
                forall|i: int| 0 <= i < s ==> self.ops()[i] == old(self).ops()[i],
                forall|j: int| 0 <= j < k ==> #[trigger] chunk_sent(self.ops(), s, id, d, j),
            decreases len - start,
        {
            let end: usize = if len - start >= TX_CHUNK_SIZE {
                start + TX_CHUNK_SIZE
            } else {
                len
            };
            let mut chunk: Vec<u8> = Vec::new();
            let mut i: usize = start;
            while i < end
                invariant
                    start <= i <= end,
                    end <= len <= data@.len(),
                    chunk@ =~= data@.subrange(start as int, i as int),
                decreases end - i,
            {
                chunk.push(data[i]);
                i = i + 1;
            }
            assert(chunk@ =~= tx_chunk(d, k as int));
            let ghost before = self.ops@;
            let r = self.send_chunk(id, &chunk);
            proof {
                assert forall|j: int| 0 <= j < k implies #[trigger] chunk_sent(self.ops@, s, id, d, j) by {
                    assert(chunk_sent(before, s, id, d, j));
                    assert(self.ops@[s + 3 * j] == before[s + 3 * j]);
                    assert(self.ops@[s + 3 * j + 1] == before[s + 3 * j + 1]);
                    assert(self.ops@[s + 3 * j + 2] == before[s + 3 * j + 2]);
                }
            }
            if r.is_err() {
                assert(s + 3 * k < self.ops@.len());
                proof {
                    let ops = self.ops@;
                    let rest = ops.subrange(s + 3 * k, ops.len() as int);
                    assert forall|j: int| #[trigger] found_fifo_full(ops, s, j) implies r == Err::<
                        (),
                        DriverError,
                    >(DriverError::Interrupted) && ops.len() == s + 3 * j + 1 by {
                        if j < k {
                            assert(chunk_sent(ops, s, id, d, j));
                        } else if j == k {
                            assert(rest[0] == ops[s + 3 * k]);
                        }
                    }
                }
                return r;
            }
            assert(chunk_sent(self.ops@, s, id, d, k as int));
            k = k + 1;
            start = end;
        }
        proof {
            assert forall|j: int| #[trigger] found_fifo_full(self.ops@, s, j) implies false by {
                assert(chunk_sent(self.ops@, s, id, d, j));
            }
        }
        Ok(())
    }

    /// Reads the elements of the runs `runs` of RX FIFO `ch`, one read per
    /// run with elements, and returns their bytes; None where a read fails.
    fn read_runs(&mut self, ch: u16, runs: &Vec<ReadRun>) -> (r: Option<Vec<u8>>)
        requires
            ch <= 1,
            forall|i: int| 0 <= i < runs@.len() ==> (#[trigger] runs@[i]).start < 64,
            runs_fit(runs@),
        ensures
            ({
                let s = old(self).ops().len() as int;
                let ops = final(self).ops();
                let mids = ops.subrange(s, ops.len() as int);
                &&& s <= ops.len()
                &&& forall|i: int| 0 <= i < s ==> ops[i] == old(self).ops()[i]
                &&& reads_along(rx_run_frames(ch, runs@), mids)
                &&& r is Some <==> reads_complete(rx_run_frames(ch, runs@), mids)
                &&& r is Some ==> r->0@ == reply_bodies(mids)
                &&& r is None ==> !op_ok(mids.last())
            }),
    {
        let ghost s = self.ops@.len() as int;
        let per_element: u32 = if ch == 0 {
            MRAMCONFIG_BYTESPERELEMENT_RXFIFO0 / 4
        } else {
            MRAMCONFIG_BYTESPERELEMENT_RXFIFO1 / 4
        };
        let mut bytes: Vec<u8> = Vec::new();
        let mut i: usize = 0;
        while i < runs.len()
            invariant
                ch <= 1,
                per_element == rx_element_words(ch),
                forall|j: int| 0 <= j < runs@.len() ==> (#[trigger] runs@[j]).start < 64,
                runs_fit(runs@),
                i <= runs@.len(),
                s == old(self).ops().len(),
                s <= self.ops().len(),
                forall|j: int| 0 <= j < s ==> self.ops()[j] == old(self).ops()[j],
                reads_complete(
                    rx_run_frames(ch, runs@.subrange(0, i as int)),
                    self.ops().subrange(s, self.ops().len() as int),
                ),
                bytes@ == reply_bodies(self.ops().subrange(s, self.ops().len() as int)),
            decreases runs@.len() - i,
        {
            let run: ReadRun = runs[i];
            proof {
                assert(runs@.subrange(0, i + 1).drop_last() =~= runs@.subrange(0, i as int));
                lemma_run_frames_prefix(ch, runs@, i + 1, runs@.len() as int);
                assert(runs@.subrange(0, runs@.len() as int) =~= runs@);
                assert(runs@[i as int].count <= RX_RUN_MAX);
            }
            if run.count != 0 {
                assert(per_element == 18);
                let words: u8 = (run.count * per_element) as u8;
                proof {
                    lemma_config_layout();
                }
                let addr: u16 = TCAN455xRequest::get_rxdata_start_addr(ch, run.start as u16);
                let ghost before = self.ops@;
                let res = self.issue_read(addr, words);
                let ghost mids = self.ops@.subrange(s, self.ops@.len() as int);
                assert(mids.drop_last() =~= before.subrange(s, before.len() as int));
                assert(mids.last() == self.ops@.last());
                assert forall|j: int| 0 <= j < s implies self.ops@[j] == old(self).ops()[j] by {
                    assert(self.ops@[j] == before[j]);
                }
                assert forall|j: int| 0 <= j < mids.len() - 1 implies mids[j] == before.subrange(
                    s,
                    before.len() as int,
                )[j] by {}
                match res {
                    Err(_) => {
                        return None;
                    },
                    Ok(raw) => {
                        let n: usize = 4 + 4 * words as usize;
                        let mut k: usize = 4;
                        let ghost base = bytes@;
                        while k < n
                            invariant
                                4 <= k <= n,
                                n <= raw@.len(),
                                bytes@ == base + raw@.subrange(4, k as int),
                            decreases n - k,
                        {
                            bytes.push(raw[k]);
                            k = k + 1;
                            assert(bytes@ =~= base + raw@.subrange(4, k as int));
                        }
                        assert(bytes@ =~= reply_bodies(mids));
                    },
                }
            }
            i = i + 1;
        }
        assert(runs@.subrange(0, runs@.len() as int) =~= runs@);
        Some(bytes)
    }

    /// Reads RX FIFO `ch`: its status, then the unread elements in one run,
    /// or in two where they wrap round (the tail from the get index, then
    /// the head up to the put index), then acknowledges them up to the slot
    /// before the put index. A failed status read or acknowledge is returned;
    /// a failed element read leaves no bytes for the channel.
    pub fn receive_channel(&mut self, ch: u16, out: &mut Vec<u8>) -> (r: Result<(), DriverError>)
        requires
            ch <= 1,
        ensures
            ({
                let s = old(self).ops().len() as int;
                let ops = final(self).ops();
                &&& s < ops.len()
                &&& forall|i: int| 0 <= i < s ==> ops[i] == old(self).ops()[i]
                &&& channel_read(ch, ops.subrange(s, ops.len() as int), old(out)@, final(out)@, r is Ok)
            }),
    {
        let ghost s = self.ops@.len() as int;
        let (status_reg, ack_reg, depth): (u16, u16, u32) = if ch == 0 {
            (REG_MCAN_RXF0S, REG_MCAN_RXF0A, MRAMCONFIG_NUMOFELEMENTS_RXFIFO0)
        } else {
            (REG_MCAN_RXF1S, REG_MCAN_RXF1A, MRAMCONFIG_NUMOFELEMENTS_RXFIFO1)
        };
        let res = self.read_register(status_reg);
        let word: u32 = match res {
            Ok(w) => w,
            Err(e) => {
                assert(self.ops@.subrange(s, self.ops@.len() as int) =~= seq![self.ops@[s]]);
                return Err(e);
            },
        };
        let ghost first = self.ops@;
        let status: RxFifoStatus = RxFifoStatus::from_word(word);
        let runs = rx_read_runs(status.put_index, status.get_index, status.fill_level);
        let mut fit: bool = false;
        if let Some(rs) = &runs {
            fit = true;
            let mut i: usize = 0;
            while i < rs.len()
                invariant
                    i <= rs@.len(),
                    fit <==> forall|j: int| 0 <= j < i ==> (#[trigger] rs@[j]).count <= RX_RUN_MAX,
                decreases rs@.len() - i,
            {
                if rs[i].count > RX_RUN_MAX {
                    fit = false;
                }
                i = i + 1;
            }
        }
        let ghost base = out@;
        if fit {
            let rs: Vec<ReadRun> = runs.unwrap();
            let got = self.read_runs(ch, &rs);
            match got {
                Some(bytes) => {
                    let mut k: usize = 0;
                    while k < bytes.len()
                        invariant
                            k <= bytes@.len(),
                            out@ == base + bytes@.subrange(0, k as int),
                        decreases bytes@.len() - k,
                    {
                        out.push(bytes[k]);
                        k = k + 1;
                        assert(out@ =~= base + bytes@.subrange(0, k as int));
                    }
                    assert(bytes@.subrange(0, bytes@.len() as int) =~= bytes@);
                },
                None => {},
            }
        }
        let ghost after_runs = self.ops@;
        let ack: u32 = rx_ack_index(status.put_index, depth);
        let r = self.write_register(ack_reg, ack);
        proof {
            let seg = self.ops@.subrange(s, self.ops@.len() as int);
            assert(seg[0] == first[s]);
            assert(seg.subrange(1, seg.len() - 1) =~= after_runs.subrange(s + 1, after_runs.len() as int));
            assert forall|i: int| 0 <= i < s implies self.ops@[i] == old(self).ops()[i] by {
                assert(self.ops@[i] == after_runs[i]);
            }
        }
        r
    }

    /// Receives into `rx`, emptied first. Reads the device interrupt flags and
    /// returns `NoData` where no MCAN interrupt is pending. Else reads the
    /// MCAN interrupt flags and each RX FIFO with a new message into its
    /// channel's buffer (see [`Self::receive_channel`]), then reads the SPI
    /// status and device interrupt registers once more for diagnostics,
    /// whatever they give.
    pub fn receive(&mut self, rx: &mut RxData) -> (r: Result<RxStatus, DriverError>)
        ensures
            ({
                let s = old(self).ops().len() as int;
                let ops = final(self).ops();
                let dev_ir = read_value(ops[s]);
                let mcan_ir = read_value(ops[s + 1]);
                &&& s < ops.len()
                &&& forall|i: int| 0 <= i < s ==> ops[i] == old(self).ops()[i]
                &&& is_read_of(ops[s], REG_DEV_IR, 1)
                &&& r is Err ==> !op_ok(ops.last())
                &&& !op_ok(ops[s]) ==> r is Err && ops.len() == s + 1
                &&& op_ok(ops[s]) && dev_ir & REG_BITS_DEVICE_IR_M_CAN_INT == 0 ==> {
                    &&& r == Ok::<RxStatus, DriverError>(RxStatus::NoData)
                    &&& ops.len() == s + 1
                    &&& final(rx).fifo0@.len() == 0
                    &&& final(rx).fifo1@.len() == 0
                }
                &&& op_ok(ops[s]) && dev_ir & REG_BITS_DEVICE_IR_M_CAN_INT != 0 ==> {
                    &&& s + 1 < ops.len()
                    &&& is_read_of(ops[s + 1], REG_MCAN_IR, 1)
                    &&& !op_ok(ops[s + 1]) ==> r is Err
                    &&& op_ok(ops[s + 1]) && mcan_ir & REG_BITS_MCAN_IR_RF0N == 0
                        ==> final(rx).fifo0@.len() == 0
                    &&& op_ok(ops[s + 1]) && mcan_ir & REG_BITS_MCAN_IR_RF1N == 0
                        ==> final(rx).fifo1@.len() == 0
                    &&& r is Ok ==> r == Ok::<RxStatus, DriverError>(RxStatus::Received)
                    &&& r is Ok ==> exists|e: int|
                        #![trigger ops.subrange(s + 2, e)]
                        s + 2 <= e <= ops.len() - 2 && (if mcan_ir & REG_BITS_MCAN_IR_RF0N != 0 {
                            channel_read(
                                0,
                                ops.subrange(s + 2, e),
                                Seq::empty(),
                                final(rx).fifo0@,
                                true,
                            )
                        } else {
                            e == s + 2
                        }) && (if mcan_ir & REG_BITS_MCAN_IR_RF1N != 0 {
                            channel_read(
                                1,
                                ops.subrange(e, ops.len() - 2),
                                Seq::empty(),
                                final(rx).fifo1@,
                                true,
                            )
                        } else {
                            e == ops.len() - 2
                        }) && is_read_of(ops[ops.len() - 2], REG_SPI_STATUS, 1) && is_read_of(
                            ops[ops.len() - 1],
                            REG_DEV_IR,
                            1,
                        )
                }
            }),
    {
        rx.reset();
        let ghost s = self.ops@.len() as int;
        let dev_ir: u32 = self.read_register(REG_DEV_IR)?;
        if dev_ir & REG_BITS_DEVICE_IR_M_CAN_INT == 0 {
            return Ok(RxStatus::NoData);
        }
        let ghost first = self.ops@;
        let mcan_ir: u32 = self.read_register(REG_MCAN_IR)?;
        let ghost second = self.ops@;
        assert(second[s] == first[s]);
        let ghost fifo0_before = rx.fifo0@;
        if mcan_ir & REG_BITS_MCAN_IR_RF0N != 0 {
            let ghost before = self.ops@;
            let rc = self.receive_channel(0, &mut rx.fifo0);
            if rc.is_err() {
                assert(self.ops@.subrange(before.len() as int, self.ops@.len() as int).last()
                    == self.ops@.last());
                return Err(rc.unwrap_err());
            }
        }
        assert(self.ops@[s] == second[s] && self.ops@[s + 1] == second[s + 1]);
        let ghost third = self.ops@;
        let ghost e = third.len() as int;
        let ghost fifo1_before = rx.fifo1@;
        if mcan_ir & REG_BITS_MCAN_IR_RF1N != 0 {
            let ghost before = self.ops@;
            let rc = self.receive_channel(1, &mut rx.fifo1);
            if rc.is_err() {
                assert(self.ops@.subrange(before.len() as int, self.ops@.len() as int).last()
                    == self.ops@.last());
                return Err(rc.unwrap_err());
            }
        }
        assert(self.ops@[s] == third[s] && self.ops@[s + 1] == third[s + 1]);
        let ghost fourth = self.ops@;
        let _ = self.read_register(REG_SPI_STATUS);
        let ghost fifth = self.ops@;
        let _ = self.read_register(REG_DEV_IR);
        proof {
            let ops = self.ops@;
            assert forall|i: int| 0 <= i < fourth.len() implies ops[i] == fourth[i] by {
                assert(ops[i] == fifth[i]);
            }
            assert forall|i: int| 0 <= i < e implies ops[i] == third[i] by {
                assert(ops[i] == fourth[i]);
            }
            assert(ops[s] == fourth[s] && ops[s + 1] == fourth[s + 1]);
            assert forall|i: int| 0 <= i < s implies ops[i] == old(self).ops()[i] by {
                assert(ops[i] == fourth[i]);
                assert(fourth[i] == third[i]);
                assert(third[i] == second[i]);
            }
            assert(ops.subrange(s + 2, e) =~= third.subrange(s + 2, e));
            assert(ops.subrange(e, ops.len() - 2) =~= fourth.subrange(e, fourth.len() as int));
            assert(fifo0_before.len() == 0 && fifo1_before.len() == 0);
            assert(fifo0_before =~= Seq::<u8>::empty());
            assert(fifo1_before =~= Seq::<u8>::empty());
            assert(ops[ops.len() - 2] == self.ops@[fourth.len() as int]);
        }
        Ok(RxStatus::Received)
    }

    /// Puts the device to sleep.
    pub fn close(&mut self) -> (r: Result<(), DriverError>)
        ensures
            fail_fast_step(old(self).ops(), final(self).ops(), r is Ok),
            is_read_of(final(self).ops()[old(self).ops().len() as int], REG_DEV_MODES_AND_PINS, 1),
            r is Ok ==> final(self).ops().len() == old(self).ops().len() + 2 && is_write_of(
                final(self).ops().last(),
                REG_DEV_MODES_AND_PINS,
                seq![
                    switched_mode_word(
                        read_value(final(self).ops()[old(self).ops().len() as int]),
                        DeviceMode::Sleep,
                    ),
                ],
            ),
    {
        self.switch_mode(DeviceMode::Sleep)
    }

    /// Drives the output pins: bit `i` of `state` sets pin `i`.
    pub fn gpio_out(&mut self, state: u8) -> (r: Result<(), DriverError>)
        ensures
            final(self).ops() == old(self).ops(),
    {
        self.driver.gpio_out(state)
    }

    /// Reads input pin `channel`.
    pub fn gpi_read(&mut self, channel: usize) -> (r: Result<bool, DriverError>)
        ensures
            final(self).ops() == old(self).ops(),
    {
        self.driver.gpio_read(channel)
    }

    /// Reads all input pins: bit `i` of the result is pin `i`.
    pub fn gpi_read_all(&mut self) -> (r: Result<u64, DriverError>)
        ensures
            final(self).ops() == old(self).ops(),
    {
        self.driver.gpio_read_all()
    }

    /// Brings the device up and leaves it in normal mode: resets it, runs
    /// each step of [`setup_program`] for the filters `sid` and `xid`, then
    /// switches to normal mode and clears the pending MCAN interrupts. Stops at
    /// the first operation that fails and returns its error.
    pub fn setup(&mut self, sid: &[SIDConfig], xid: &[XIDConfig]) -> (r: Result<(), DriverError>)
        requires
            sid@.len() >= MRAMCONFIG_NUMOFELEMENTS_SID,
            xid@.len() >= MRAMCONFIG_NUMOFELEMENTS_XID,
        ensures
            set_up(sid@, xid@, old(self).ops(), final(self).ops(), r),
    {
        let ghost start = self.ops@.len() as int;
        let mut sidf: Vec<SIDFCONFIG> = Vec::new();
        let mut i: usize = 0;
        while i < sid.len()
            invariant
                i <= sid@.len(),
                sidf@ =~= sid_elements(sid@).subrange(0, i as int),
            decreases sid@.len() - i,
        {
            sidf.push(sid[i].element());
            i = i + 1;
        }
        let mut xidf: Vec<XIDFCONFIG> = Vec::new();
        let mut i: usize = 0;
        while i < xid.len()
            invariant
                i <= xid@.len(),
                xidf@ =~= xid_elements(xid@).subrange(0, i as int),
            decreases xid@.len() - i,
        {
            xidf.push(xid[i].element());
            i = i + 1;
        }
        assert(sidf@ =~= sid_elements(sid@));
        assert(xidf@ =~= xid_elements(xid@));
        let program: Vec<SetupStep> = setup_program(sidf.as_slice(), xidf.as_slice());
        let ghost mut b: Seq<int> = seq![start];
        let mut i: usize = 0;
        while i < program.len()
            invariant
                forall|k: int| 0 <= k < program@.len() ==> step_allowed(#[trigger] program@[k]),
                program@[0] is Reset,
                i <= program@.len(),
                start == old(self).ops().len(),
                start <= self.ops().len(),
                i == 0 ==> self.ops().len() == start,
                i > 0 ==> start < self.ops().len() && self.ops()[start] is Reset,
                forall|k: int| 0 <= k < start ==> self.ops()[k] == old(self).ops()[k],
                clean_from(self.ops(), start),
                b.len() == i + 1,
                b[0] == start,
                b[i as int] == self.ops().len(),
                forall|k: int| 0 <= k <= i ==> 0 <= #[trigger] b[k] <= self.ops().len(),
                forall|k: int| 0 <= k < i ==> #[trigger] step_at(program@, b, self.ops(), k),
            decreases program@.len() - i,
        {
            let ghost before = self.ops@;
            let r = self.run_step(&program[i]);
            proof {
                lemma_chain(before, self.ops@, start, r is Ok);
                if i > 0 {
                    assert(self.ops@[start] == before[start]);
                }
            }
            if r.is_err() {
                return r;
            }
            proof {
                lemma_steps_kept(program@, b, before, self.ops@, i as int);
                let nb = b.push(self.ops@.len() as int);
                assert forall|k: int| 0 <= k < i + 1 implies #[trigger] step_at(
                    program@,
                    nb,
                    self.ops@,
                    k,
                ) by {
                    if k < i {
                        assert(step_at(program@, b, self.ops@, k));
                    }
                }
                b = nb;
            }
            i = i + 1;
        }
        let ghost traced_end = self.ops@;
        assert(steps_traced(program@, b, traced_end, start, traced_end.len() as int));
        let ghost before = self.ops@;
        let r = self.switch_mode(DeviceMode::Normal);
        proof {
            lemma_chain(before, self.ops@, start, r is Ok);
        }
        if r.is_err() {
            return r;
        }
        let ghost before = self.ops@;
        let r = self.write_register(REG_MCAN_IR, MCAN_IR_CLEAR);
        proof {
            assert forall|k: int| start <= k < self.ops@.len() - 1 implies clean(
                #[trigger] self.ops@[k],
            ) by {
                assert(self.ops@[k] == before[k]);
            }
            assert(self.ops@[self.ops@.len() - 3] == before[before.len() - 2]);
            assert(self.ops@[self.ops@.len() - 2] == before[before.len() - 1]);
            assert forall|k: int| 0 <= k < traced_end.len() implies self.ops@[k] == traced_end[k] by {
                assert(self.ops@[k] == before[k]);
            }
            lemma_steps_kept(program@, b, traced_end, self.ops@, SETUP_STEPS as int);
            assert(steps_traced(program@, b, self.ops@, start, self.ops@.len() - 3));
        }
        r
    }
}

} // verus!
