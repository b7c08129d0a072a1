//! The SPI command codec: write frames, read frames and decoding of replies.

use vstd::prelude::*;

verus! {

/// Flag byte that opens a write command.
pub const WRITE_FLAG: u8 = 0x61;

/// Flag byte that opens a read command.
pub const READ_FLAG: u8 = 0x41;

/// The four bytes of `w`, most significant first.
pub open spec fn be_bytes(w: u32) -> Seq<u8> {
    seq![(w >> 24u32) as u8, (w >> 16u32) as u8, (w >> 8u32) as u8, w as u8]
}

/// The word whose big-endian bytes are `b0 b1 b2 b3`.
pub open spec fn be_word(b0: u8, b1: u8, b2: u8, b3: u8) -> u32 {
    ((b0 as u32) << 24u32) | ((b1 as u32) << 16u32) | ((b2 as u32) << 8u32) | (b3 as u32)
}

/// The words of `ws`, each as four big-endian bytes, one after the other.
pub open spec fn words_bytes(ws: Seq<u32>) -> Seq<u8> {
    Seq::new((4 * ws.len()) as nat, |i: int| be_bytes(ws[i / 4])[i % 4])
}

/// The four header bytes of a command: flag, address (big-endian) and word count.
pub open spec fn header(flag: u8, addr: u16, count: u8) -> Seq<u8> {
    seq![flag, (addr >> 8u16) as u8, addr as u8, count]
}

/// The frame that writes the words `ws` from register address `addr` on.
pub open spec fn write_frame(addr: u16, ws: Seq<u32>) -> Seq<u8> {
    header(WRITE_FLAG, addr, ws.len() as u8) + words_bytes(ws)
}

/// The frame that reads `count` words from `addr` on: the header and one zero
/// byte for each byte that the device clocks out in reply.
pub open spec fn read_frame(addr: u16, count: u8) -> Seq<u8> {
    header(READ_FLAG, addr, count) + Seq::new((4 * count) as nat, |i: int| 0u8)
}

/// The address that a frame carries in its bytes 1 and 2.
pub open spec fn frame_addr(f: Seq<u8>) -> u16 {
    ((f[1] as u16) << 8u16) | (f[2] as u16)
}

/// The `k`-th word of a frame's body (the bytes after the header).
pub open spec fn frame_word(f: Seq<u8>, k: int) -> u32 {
    be_word(f[4 + 4 * k], f[5 + 4 * k], f[6 + 4 * k], f[7 + 4 * k])
}

/// The words that a write frame carries, as many as its count byte says.
pub open spec fn frame_words(f: Seq<u8>) -> Seq<u32> {
    Seq::new(f[3] as nat, |k: int| frame_word(f, k))
}

/// The first word of a reply: the four bytes after the echoed header.
pub open spec fn reply_word(r: Seq<u8>) -> u32 {
    frame_word(r, 0)
}

/// Errors of the driver, and of the transports it runs on.
#[derive(Debug, Clone, Copy, PartialEq, Eq, Structural)]
pub enum DriverError {
    /// The device or its transport was not found.
    NotConnected,
    /// An operation took longer than its time limit.
    TimedOut,
    /// A reply was shorter than expected or malformed.
    InvalidData,
    /// The transmit FIFO has no free slot: try again later.
    Interrupted,
    /// Any other failure of the transport.
    Io,
}

/// Builds the command frames of the device's SPI protocol.
pub struct TCAN455xController {}

proof fn lemma_div4(i: int, k: int)
    requires
        4 * k <= i < 4 * k + 4,
    ensures
        i / 4 == k,
        i % 4 == i - 4 * k,
{
    assert(i / 4 == k && i % 4 == i - 4 * k) by (nonlinear_arith)
        requires
            4 * k <= i < 4 * k + 4,
    ;
}

proof fn lemma_word_bytes(w: u32)
    ensures
        be_word((w >> 24u32) as u8, (w >> 16u32) as u8, (w >> 8u32) as u8, w as u8) == w,
{
    assert(((((w >> 24u32) as u8) as u32) << 24u32) | ((((w >> 16u32) as u8) as u32) << 16u32)
        | ((((w >> 8u32) as u8) as u32) << 8u32) | ((w as u8) as u32) == w) by (bit_vector);
}

/// Bytes 1 and 2 of a frame give back its address.
pub proof fn lemma_addr_bytes(a: u16)
    ensures
        ((((a >> 8u16) as u8) as u16) << 8u16) | ((a as u8) as u16) == a,
{
    assert(((((a >> 8u16) as u8) as u16) << 8u16) | ((a as u8) as u16) == a) by (bit_vector);
}

/// A write frame carries its address and opens with the write flag.
pub proof fn lemma_frame_addr(addr: u16, ws: Seq<u32>)
    ensures
        write_frame(addr, ws).len() >= 4,
        write_frame(addr, ws)[0] == WRITE_FLAG,
        frame_addr(write_frame(addr, ws)) == addr,
{
    lemma_addr_bytes(addr);
}

/// Every write frame carries its address and opens with the write flag.
pub proof fn lemma_write_frames_addr()
    ensures
        forall|addr: u16, ws: Seq<u32>|
            #![trigger write_frame(addr, ws)]
            write_frame(addr, ws).len() >= 4 && write_frame(addr, ws)[0] == WRITE_FLAG
                && frame_addr(write_frame(addr, ws)) == addr,
{
    assert forall|addr: u16, ws: Seq<u32>|
        #![trigger write_frame(addr, ws)]
        write_frame(addr, ws).len() >= 4 && write_frame(addr, ws)[0] == WRITE_FLAG && frame_addr(
            write_frame(addr, ws),
        ) == addr by {
        lemma_frame_addr(addr, ws);
    }
}

/// Parsing a write frame gives back what it was built from: its flag is the
/// write flag, and its address and words are those that it was made of.
pub proof fn lemma_write_frame_round_trip(addr: u16, ws: Seq<u32>)
    requires
        ws.len() <= 255,
    ensures
        write_frame(addr, ws).len() == 4 + 4 * ws.len(),
        write_frame(addr, ws)[0] == WRITE_FLAG,
        frame_addr(write_frame(addr, ws)) == addr,
        frame_words(write_frame(addr, ws)) == ws,
{
    let f = write_frame(addr, ws);
    lemma_addr_bytes(addr);
    assert forall|k: int| 0 <= k < ws.len() implies #[trigger] frame_word(f, k) == ws[k] by {
        assert(4 * k + 3 < 4 * ws.len()) by (nonlinear_arith)
            requires
                0 <= k < ws.len(),
        ;
        lemma_div4(4 * k, k);
        lemma_div4(4 * k + 1, k);
        lemma_div4(4 * k + 2, k);
        lemma_div4(4 * k + 3, k);
        lemma_word_bytes(ws[k]);
    }
    assert(frame_words(f) =~= ws);
}

/// A read frame of `n` words is `4 + 4 * n` bytes long and opens with the
/// read flag, the address (high byte first) and `n`.
pub proof fn lemma_read_frame_shape(addr: u16, n: u8)
    ensures
        read_frame(addr, n).len() == 4 + 4 * (n as int),
        read_frame(addr, n).subrange(0, 4) == seq![READ_FLAG, (addr >> 8u16) as u8, addr as u8, n],
        forall|i: int| 4 <= i < 4 + 4 * (n as int) ==> read_frame(addr, n)[i] == 0u8,
{
    assert(read_frame(addr, n).subrange(0, 4) =~= seq![READ_FLAG, (addr >> 8u16) as u8, addr as u8, n]);
}

impl TCAN455xController {
    /// The frame that writes `data` to consecutive registers from `addr` on.
    pub fn generate_write_command(addr: u16, data: &Vec<u32>) -> (r: Vec<u8>)
        requires
            data@.len() <= 255,
        ensures
            r@ == write_frame(addr, data@),
    {
        let len: usize = data.len();
        let mut payload: Vec<u8> = Vec::new();
        payload.push(WRITE_FLAG);
        payload.push((addr >> 8u16) as u8);
        payload.push(addr as u8);
        payload.push(len as u8);
        let mut i: usize = 0;
        while i < len
            invariant
                len == data@.len(),
                len <= 255,
                i <= len,
                payload@.len() == 4 + 4 * i,
                payload@.subrange(0, 4) == header(WRITE_FLAG, addr, len as u8),
                forall|j: int|
                    4 <= j < 4 + 4 * i ==> #[trigger] payload@[j] == be_bytes(data@[(j - 4) / 4])[(j - 4)
                        % 4],
            decreases len - i,
        {
            let w: u32 = data[i];
            payload.push((w >> 24u32) as u8);
            payload.push((w >> 16u32) as u8);
            payload.push((w >> 8u32) as u8);
            payload.push(w as u8);
            proof {
                assert forall|j: int| 4 <= j < 4 + 4 * (i + 1) implies #[trigger] payload@[j]
                    == be_bytes(data@[(j - 4) / 4])[(j - 4) % 4] by {
                    if j >= 4 + 4 * i {
                        lemma_div4(j - 4, i as int);
                    }
                }
            }
            i = i + 1;
        }
        assert(payload@ =~= write_frame(addr, data@));
        payload
    }

    /// The frame that reads `len` words from `addr` on, padded with the zero
    /// bytes that clock the reply out of the device.
    pub fn generate_read_command(addr: u16, len: u8) -> (r: Vec<u8>)
        ensures
            r@ == read_frame(addr, len),
    {
        let mut payload: Vec<u8> = Vec::new();
        payload.push(READ_FLAG);
        payload.push((addr >> 8u16) as u8);
        payload.push(addr as u8);
        payload.push(len);
        let n: usize = 4 * len as usize;
        let mut i: usize = 0;
        while i < n
            invariant
                n == 4 * len,
                i <= n,
                payload@.len() == 4 + i,
                payload@.subrange(0, 4) == header(READ_FLAG, addr, len),
                forall|j: int| 4 <= j < 4 + i ==> payload@[j] == 0u8,
            decreases n - i,
        {
            payload.push(0u8);
            i = i + 1;
        }
        assert(payload@ =~= read_frame(addr, len));
        payload
    }

    /// The first word of a reply, the four bytes after its echoed header.
    pub fn decode_word(raw: &Vec<u8>) -> (r: Result<u32, DriverError>)
        ensures
            raw@.len() < 8 ==> r == Err::<u32, DriverError>(DriverError::InvalidData),
            raw@.len() >= 8 ==> r == Ok::<u32, DriverError>(reply_word(raw@)),
    {
        if raw.len() < 8 {
            return Err(DriverError::InvalidData);
        }
        let w: u32 = ((raw[4] as u32) << 24u32) | ((raw[5] as u32) << 16u32) | ((raw[6] as u32)
            << 8u32) | (raw[7] as u32);
        Ok(w)
    }
}

} // verus!
