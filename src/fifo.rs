//! Decisions of the transmit and receive datapath: fields of the FIFO status
//! registers, TX buffer elements, and the runs of an RX FIFO to read.

use vstd::prelude::*;
use crate::dlc::{dlc_len, dlc_of, dlc_to_len, to_dlc};
use crate::register::{
    REG_BITS_TX_ELEMENT_BRS, REG_BITS_TX_ELEMENT_EFC, REG_BITS_TX_ELEMENT_FDF,
    REG_BITS_TX_ELEMENT_XTD,
};

verus! {

/// Largest extended (29-bit) CAN identifier.
pub const EXT_ID_MASK: u32 = 0x1FFF_FFFF;

/// Free slots of the TX FIFO, from its queue status word.
pub open spec fn tx_free_level(txfqs: u32) -> u32 {
    txfqs & 0xFF
}

/// Put index of the TX FIFO, from its queue status word.
pub open spec fn tx_put_index(txfqs: u32) -> u32 {
    (txfqs >> 16u32) & 0x1F
}

/// Fill level of an RX FIFO, from its status word.
pub open spec fn rx_fill_level(rxfs: u32) -> u32 {
    rxfs & 0x7F
}

/// Get index of an RX FIFO, from its status word.
pub open spec fn rx_get_index(rxfs: u32) -> u32 {
    (rxfs >> 8u32) & 0x3F
}

/// Put index of an RX FIFO, from its status word.
pub open spec fn rx_put_index(rxfs: u32) -> u32 {
    (rxfs >> 16u32) & 0x3F
}

/// Free slots of the TX FIFO, from its queue status word.
pub fn tx_fifo_free_level(txfqs: u32) -> (r: u32)
    ensures
        r == tx_free_level(txfqs),
        r <= 0xFF,
{
    let r: u32 = txfqs & 0xFF;
    assert(r <= 0xFF) by (bit_vector)
        requires
            r == txfqs & 0xFF,
    ;
    r
}

/// Put index of the TX FIFO, from its queue status word.
pub fn tx_fifo_put_index(txfqs: u32) -> (r: u32)
    ensures
        r == tx_put_index(txfqs),
        r < 32,
{
    let r: u32 = (txfqs >> 16u32) & 0x1F;
    assert(r < 32) by (bit_vector)
        requires
            r == (txfqs >> 16u32) & 0x1F,
    ;
    r
}

/// Status of an RX FIFO: put index, get index and fill level.
#[derive(Debug, Clone, Copy, PartialEq, Eq, Structural)]
pub struct RxFifoStatus {
    pub put_index: u32,
    pub get_index: u32,
    pub fill_level: u32,
}

impl RxFifoStatus {
    /// The fields of an RX FIFO status word.
    pub fn from_word(rxfs: u32) -> (r: RxFifoStatus)
        ensures
            r.put_index == rx_put_index(rxfs),
            r.get_index == rx_get_index(rxfs),
            r.fill_level == rx_fill_level(rxfs),
            r.put_index < 64 && r.get_index < 64 && r.fill_level < 128,
    {
        let put_index: u32 = (rxfs >> 16u32) & 0x3F;
        let get_index: u32 = (rxfs >> 8u32) & 0x3F;
        let fill_level: u32 = rxfs & 0x7F;
        assert(put_index < 64 && get_index < 64 && fill_level < 128) by (bit_vector)
            requires
                put_index == (rxfs >> 16u32) & 0x3F,
                get_index == (rxfs >> 8u32) & 0x3F,
                fill_level == rxfs & 0x7F,
        ;
        RxFifoStatus { put_index, get_index, fill_level }
    }
}

/// A run of consecutive elements of an RX FIFO: the first one and how many.
#[derive(Debug, Clone, Copy, PartialEq, Eq, Structural)]
pub struct ReadRun {
    pub start: u32,
    pub count: u32,
}

/// The runs to read for `unread` elements from `get_index` on: one run where
/// the unread elements do not wrap past the put index, else the tail from
/// the get index and then the head up to the put index. None where the
/// status cannot describe a wrapped FIFO (fewer unread elements than the put
/// index).
pub open spec fn rx_runs(put_index: u32, get_index: u32, unread: u32) -> Option<Seq<ReadRun>> {
    if get_index <= put_index {
        Some(seq![ReadRun { start: get_index, count: unread }])
    } else if put_index <= unread {
        Some(
            seq![
                ReadRun { start: get_index, count: (unread - put_index) as u32 },
                ReadRun { start: 0, count: put_index },
            ],
        )
    } else {
        None
    }
}

/// The runs to read for `unread` elements of an RX FIFO from `get_index` on.
pub fn rx_read_runs(put_index: u32, get_index: u32, unread: u32) -> (r: Option<Vec<ReadRun>>)
    ensures
        r is Some <==> rx_runs(put_index, get_index, unread) is Some,
        r is Some ==> r->0@ == rx_runs(put_index, get_index, unread)->0,
{
    let mut runs: Vec<ReadRun> = Vec::new();
    if get_index <= put_index {
        runs.push(ReadRun { start: get_index, count: unread });
    } else if put_index <= unread {
        runs.push(ReadRun { start: get_index, count: unread - put_index });
        runs.push(ReadRun { start: 0, count: put_index });
    } else {
        return None;
    }
    assert(runs@ =~= rx_runs(put_index, get_index, unread)->0);
    Some(runs)
}

/// The index that acknowledges an RX FIFO read up to `put_index`: the slot
/// before it, going round a FIFO of `depth` elements.
pub open spec fn rx_ack(put_index: u32, depth: u32) -> u32 {
    ((put_index + depth - 1) % (depth as int)) as u32
}

/// The acknowledge index after reading an RX FIFO of `depth` elements up to
/// `put_index`.
pub fn rx_ack_index(put_index: u32, depth: u32) -> (r: u32)
    requires
        depth > 0,
    ensures
        r == rx_ack(put_index, depth),
        r < depth,
{
    ((put_index as u64 + depth as u64 - 1) % depth as u64) as u32
}

/// Reading a wrapped FIFO whose unread elements reach from the get index
/// round to the put index takes two runs, the tail `[get, depth)` and then
/// the head `[0, put)`, `depth - get + put` elements in all, and is
/// acknowledged with the slot before the put index.
pub proof fn lemma_wrapped_read(put_index: u32, get_index: u32, depth: u32, unread: u32)
    requires
        put_index < get_index < depth,
        unread == depth - get_index + put_index,
    ensures
        rx_runs(put_index, get_index, unread) == Some(
            seq![
                ReadRun { start: get_index, count: (depth - get_index) as u32 },
                ReadRun { start: 0, count: put_index },
            ],
        ),
        rx_ack(put_index, depth) == if put_index == 0 {
            depth - 1
        } else {
            put_index - 1
        },
{
    if put_index == 0 {
        vstd::arithmetic::div_mod::lemma_small_mod((depth - 1) as nat, depth as nat);
    } else {
        vstd::arithmetic::div_mod::lemma_mod_add_multiples_vanish((put_index - 1) as int, depth as int);
        vstd::arithmetic::div_mod::lemma_small_mod((put_index - 1) as nat, depth as nat);
    }
}

/// Byte `i` of `data`, or 0 past its end.
pub open spec fn byte_or_zero(data: Seq<u8>, i: int) -> u8 {
    if 0 <= i < data.len() {
        data[i]
    } else {
        0
    }
}

/// Payload word `k` of a TX element: bytes `4k .. 4k + 4` of `data`, the
/// first in the lowest byte, zeros past the end.
pub open spec fn payload_word(data: Seq<u8>, k: int) -> u32 {
    (byte_or_zero(data, 4 * k) as u32) | ((byte_or_zero(data, 4 * k + 1) as u32) << 8u32) | ((
    byte_or_zero(data, 4 * k + 2) as u32) << 16u32) | ((byte_or_zero(data, 4 * k + 3) as u32)
        << 24u32)
}

/// First header word of a TX element: the extended identifier and the
/// extended-format bit.
pub open spec fn tx_header0(id: u32) -> u32 {
    REG_BITS_TX_ELEMENT_XTD | (id & EXT_ID_MASK)
}

/// Second header word of a TX element: message marker 0, event FIFO control,
/// FD format, bit rate switch, and the data length code.
pub open spec fn tx_header1(len: int) -> u32 {
    REG_BITS_TX_ELEMENT_EFC | REG_BITS_TX_ELEMENT_FDF | REG_BITS_TX_ELEMENT_BRS | ((dlc_of(len) as u32)
        << 16u32)
}

/// Number of payload words of a TX element that carries `len` bytes: the
/// payload of its data length code, in words.
pub open spec fn tx_payload_words(len: int) -> int {
    (dlc_len(dlc_of(len)) + 3) / 4
}

/// The words of the TX element that sends `data` with identifier `id`.
pub open spec fn tx_element(id: u32, data: Seq<u8>) -> Seq<u32> {
    seq![tx_header0(id), tx_header1(data.len() as int)] + Seq::new(
        tx_payload_words(data.len() as int) as nat,
        |k: int| payload_word(data, k),
    )
}

/// The words of the TX buffer element that sends `data` with extended
/// identifier `id`.
pub fn tx_element_words(id: u32, data: &[u8]) -> (r: Vec<u32>)
    requires
        data@.len() <= 64,
    ensures
        r@ == tx_element(id, data@),
        r@.len() <= 18,
{
    let len: usize = data.len();
    let dlc: u32 = to_dlc(len);
    let mut words: Vec<u32> = Vec::new();
    words.push(REG_BITS_TX_ELEMENT_XTD | (id & EXT_ID_MASK));
    words.push(
        REG_BITS_TX_ELEMENT_EFC | REG_BITS_TX_ELEMENT_FDF | REG_BITS_TX_ELEMENT_BRS | (dlc << 16u32),
    );
    let n: usize = (dlc_to_len(dlc) + 3) / 4;
    let mut k: usize = 0;
    while k < n
        invariant
            len == data@.len(),
            len <= 64,
            n == tx_payload_words(len as int),
            n <= 16,
            k <= n,
            words@ =~= tx_element(id, data@).subrange(0, 2 + k as int),
        decreases n - k,
    {
        let mut w: u32 = 0;
        let mut j: usize = 0;
        while j < 4
            invariant
                len == data@.len(),
                k < n,
                n <= 16,
                j <= 4,
                w == partial_word(data@, k as int, j as int),
            decreases 4 - j,
        {
            let i: usize = 4 * k + j;
            let b: u8 = if i < len {
                data[i]
            } else {
                0
            };
            w = w | ((b as u32) << (8 * j as u32));
            j = j + 1;
        }
        proof {
            lemma_partial_word_full(data@, k as int);
        }
        words.push(w);
        k = k + 1;
    }
    words
}

/// The payload word `k` with only its lowest `j` bytes filled in.
pub open spec fn partial_word(data: Seq<u8>, k: int, j: int) -> u32
    decreases j,
{
    if j <= 0 {
        0
    } else {
        partial_word(data, k, j - 1) | ((byte_or_zero(data, 4 * k + j - 1) as u32) << ((8 * (j
            - 1)) as u32))
    }
}

proof fn lemma_partial_word_full(data: Seq<u8>, k: int)
    ensures
        partial_word(data, k, 4) == payload_word(data, k),
{
    let b0 = byte_or_zero(data, 4 * k) as u32;
    let b1 = byte_or_zero(data, 4 * k + 1) as u32;
    let b2 = byte_or_zero(data, 4 * k + 2) as u32;
    let b3 = byte_or_zero(data, 4 * k + 3) as u32;
    reveal_with_fuel(partial_word, 5);
    assert((((0u32 | (b0 << 0u32)) | (b1 << 8u32)) | (b2 << 16u32)) | (b3 << 24u32) == b0 | (b1
        << 8u32) | (b2 << 16u32) | (b3 << 24u32)) by (bit_vector);
}

} // verus!
