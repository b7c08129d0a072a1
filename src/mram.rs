//! Layout of the message RAM: the size, offset and start address of each of
//! its seven sections, and the configuration words that announce them.

use vstd::prelude::*;
use crate::codec::write_frame;
use crate::filter::{sid_word, xid_word0, xid_word1, SIDFCONFIG, XIDFCONFIG};
use crate::register::{
    MRAM_BASEADDR, MRAM_SIZE, REG_BITS_MCAN_RXF0C_F0OM_OVERWRITE, REG_MCAN_RXBC, REG_MCAN_RXESC,
    REG_MCAN_RXF0C, REG_MCAN_RXF1C, REG_MCAN_SIDFC, REG_MCAN_TXBC, REG_MCAN_TXEFC, REG_MCAN_TXESC,
    REG_MCAN_XIDFC,
};
use crate::request::TCAN455xRequest;
use crate::codec::TCAN455xController;

verus! {

/// Number of message RAM sections, in this order: standard ID filters,
/// extended ID filters, RX FIFO 0, RX FIFO 1, RX buffers, TX event FIFO and
/// TX buffers.
pub const MRAM_SECTIONS_NUM: usize = 7;

/// Payload size of a FIFO element and the 3-bit code that selects it.
#[derive(Copy, Clone)]
pub struct FIFODATASIZE {
    pub size: u32,
    pub code: u32,
}

/// The payload size that each 3-bit element size code selects.
pub open spec fn fifo_size_of_code(code: u32) -> u32 {
    if code == 0 {
        8
    } else if code == 1 {
        12
    } else if code == 2 {
        16
    } else if code == 3 {
        20
    } else if code == 4 {
        24
    } else if code == 5 {
        32
    } else if code == 6 {
        48
    } else {
        64
    }
}

impl FIFODATASIZE {
    /// The entry of the table of legal payload sizes for `code`.
    pub fn from_code(code: u32) -> (r: FIFODATASIZE)
        requires
            code < 8,
        ensures
            r.code == code,
            r.size == fifo_size_of_code(code),
    {
        let size: u32 = if code == 0 {
            8
        } else if code == 1 {
            12
        } else if code == 2 {
            16
        } else if code == 3 {
            20
        } else if code == 4 {
            24
        } else if code == 5 {
            32
        } else if code == 6 {
            48
        } else {
            64
        };
        FIFODATASIZE { size, code }
    }
}

// Element size codes of the FIFOs and buffers
pub const RXFIFO0_DATASIZE_CODE: u32 = 0b111;
pub const RXFIFO1_DATASIZE_CODE: u32 = 0b111;
pub const RXBC_DATASIZE_CODE: u32 = 0b000;
pub const TXFIFO_DATASIZE_CODE: u32 = 0b111;

// Payload sizes that those codes select
pub const RXFIFO0_DATASIZE: u32 = 64;
pub const RXFIFO1_DATASIZE: u32 = 64;
pub const RXBC_DATASIZE: u32 = 8;
pub const TXFIFO_DATASIZE: u32 = 64;

// Bytes per element: FIFO elements carry an 8-byte header before the payload
pub const MRAMCONFIG_BYTESPERELEMENT_SID: u32 = 4;
pub const MRAMCONFIG_BYTESPERELEMENT_XID: u32 = 8;
pub const MRAMCONFIG_BYTESPERELEMENT_RXFIFO0: u32 = RXFIFO0_DATASIZE + 8;
pub const MRAMCONFIG_BYTESPERELEMENT_RXFIFO1: u32 = RXFIFO1_DATASIZE + 8;
pub const MRAMCONFIG_BYTESPERELEMENT_RXBC: u32 = 0;
pub const MRAMCONFIG_BYTESPERELEMENT_TXEFC: u32 = 8;
pub const MRAMCONFIG_BYTESPERELEMENT_TXBC: u32 = TXFIFO_DATASIZE + 8;

// Number of elements of each section
pub const MRAMCONFIG_NUMOFELEMENTS_SID: u32 = 2;
pub const MRAMCONFIG_NUMOFELEMENTS_XID: u32 = 1;
pub const MRAMCONFIG_NUMOFELEMENTS_RXFIFO0: u32 = 4;
pub const MRAMCONFIG_NUMOFELEMENTS_RXFIFO1: u32 = 5;
pub const MRAMCONFIG_NUMOFELEMENTS_RXBC: u32 = 0;
pub const MRAMCONFIG_NUMOFELEMENTS_TXEFC: u32 = 3;
pub const MRAMCONFIG_NUMOFELEMENTS_TXBC: u32 = 10;

// Watermark interrupt levels
pub const RXFIFO_WM_MAX: u32 = 64;
pub const TXEFC_WM_MAX: u32 = 32;
pub const RXFIFO0_WM: u32 = 0;
pub const RXFIFO1_WM: u32 = 0;
pub const TXEFC_WM: u32 = 2;

/// Bytes that section `i` takes: its elements times their size.
pub open spec fn section_bytes(elements: Seq<u32>, bytes_per_element: Seq<u32>, i: int) -> int {
    elements[i] as int * bytes_per_element[i] as int
}

/// Bytes that the sections before section `i` take together.
pub open spec fn prefix_bytes(elements: Seq<u32>, bytes_per_element: Seq<u32>, i: int) -> int
    decreases i,
{
    if i <= 0 {
        0
    } else {
        prefix_bytes(elements, bytes_per_element, i - 1) + section_bytes(
            elements,
            bytes_per_element,
            i - 1,
        )
    }
}

/// Offset of section `i` from the start of the message RAM: the bytes of
/// the sections before it, or 0 for a section without elements.
pub open spec fn section_offset(elements: Seq<u32>, bytes_per_element: Seq<u32>, i: int) -> int {
    if elements[i] == 0 {
        0
    } else {
        prefix_bytes(elements, bytes_per_element, i)
    }
}

/// A layout of seven sections that fits in the message RAM.
pub open spec fn valid_layout(elements: Seq<u32>, bytes_per_element: Seq<u32>) -> bool {
    &&& elements.len() == MRAM_SECTIONS_NUM
    &&& bytes_per_element.len() == MRAM_SECTIONS_NUM
    &&& prefix_bytes(elements, bytes_per_element, MRAM_SECTIONS_NUM as int) <= MRAM_SIZE
}

/// Element counts of the configured layout, in section order.
pub open spec fn config_elements() -> Seq<u32> {
    seq![
        MRAMCONFIG_NUMOFELEMENTS_SID,
        MRAMCONFIG_NUMOFELEMENTS_XID,
        MRAMCONFIG_NUMOFELEMENTS_RXFIFO0,
        MRAMCONFIG_NUMOFELEMENTS_RXFIFO1,
        MRAMCONFIG_NUMOFELEMENTS_RXBC,
        MRAMCONFIG_NUMOFELEMENTS_TXEFC,
        MRAMCONFIG_NUMOFELEMENTS_TXBC,
    ]
}

/// Element sizes of the configured layout, in section order.
pub open spec fn config_bytes_per_element() -> Seq<u32> {
    seq![
        MRAMCONFIG_BYTESPERELEMENT_SID,
        MRAMCONFIG_BYTESPERELEMENT_XID,
        MRAMCONFIG_BYTESPERELEMENT_RXFIFO0,
        MRAMCONFIG_BYTESPERELEMENT_RXFIFO1,
        MRAMCONFIG_BYTESPERELEMENT_RXBC,
        MRAMCONFIG_BYTESPERELEMENT_TXEFC,
        MRAMCONFIG_BYTESPERELEMENT_TXBC,
    ]
}

/// Offset of section `i` in the configured layout.
pub open spec fn mram_offset(i: int) -> u16 {
    section_offset(config_elements(), config_bytes_per_element(), i) as u16
}

/// Start address of section `i` in the configured layout.
pub open spec fn mram_start(i: int) -> u16 {
    (MRAM_BASEADDR + mram_offset(i)) as u16
}

proof fn lemma_prefix_monotone(elements: Seq<u32>, bytes_per_element: Seq<u32>, i: int, j: int)
    requires
        0 <= i <= j,
    ensures
        prefix_bytes(elements, bytes_per_element, i) <= prefix_bytes(
            elements,
            bytes_per_element,
            j,
        ),
    decreases j - i,
{
    if i < j {
        lemma_prefix_monotone(elements, bytes_per_element, i, j - 1);
        assert(section_bytes(elements, bytes_per_element, j - 1) >= 0) by (nonlinear_arith);
    }
}

/// Sections with elements lie in section order: the offset of each is at most
/// that of every later one with elements, and a section without elements
/// has offset 0.
pub proof fn lemma_offsets_ordered(elements: Seq<u32>, bytes_per_element: Seq<u32>, i: int, j: int)
    requires
        valid_layout(elements, bytes_per_element),
        0 <= i < j < MRAM_SECTIONS_NUM,
    ensures
        elements[i] != 0 && elements[j] != 0 ==> section_offset(elements, bytes_per_element, i)
            <= section_offset(elements, bytes_per_element, j),
        elements[i] == 0 ==> section_offset(elements, bytes_per_element, i) == 0,
        elements[j] == 0 ==> section_offset(elements, bytes_per_element, j) == 0,
        section_offset(elements, bytes_per_element, j) + section_bytes(elements, bytes_per_element, j)
            <= MRAM_SIZE,
{
    lemma_prefix_monotone(elements, bytes_per_element, i, j);
    lemma_prefix_monotone(elements, bytes_per_element, j + 1, MRAM_SECTIONS_NUM as int);
    assert(section_bytes(elements, bytes_per_element, j) >= 0) by (nonlinear_arith);
}

/// Offsets of the seven sections of a layout: the bytes of the sections
/// before each one, but 0 for a section without elements.
pub fn mram_layout(elements: &Vec<u32>, bytes_per_element: &Vec<u32>) -> (r: Vec<u16>)
    requires
        valid_layout(elements@, bytes_per_element@),
    ensures
        r@.len() == MRAM_SECTIONS_NUM,
        forall|i: int|
            0 <= i < MRAM_SECTIONS_NUM ==> r@[i] as int == section_offset(
                elements@,
                bytes_per_element@,
                i,
            ),
{
    let mut offsets: Vec<u16> = Vec::new();
    let mut running: u64 = 0;
    let mut i: usize = 0;
    while i < MRAM_SECTIONS_NUM
        invariant
            valid_layout(elements@, bytes_per_element@),
            i <= MRAM_SECTIONS_NUM,
            running as int == prefix_bytes(elements@, bytes_per_element@, i as int),
            offsets@.len() == i,
            forall|k: int|
                0 <= k < i ==> offsets@[k] as int == section_offset(
                    elements@,
                    bytes_per_element@,
                    k,
                ),
        decreases MRAM_SECTIONS_NUM - i,
    {
        proof {
            lemma_prefix_monotone(elements@, bytes_per_element@, i as int + 1, MRAM_SECTIONS_NUM as int);
            lemma_prefix_monotone(elements@, bytes_per_element@, i as int, MRAM_SECTIONS_NUM as int);
        }
        let e: u32 = elements[i];
        let b: u32 = bytes_per_element[i];
        if e == 0 {
            offsets.push(0);
        } else {
            offsets.push(running as u16);
        }
        let size: u64 = e as u64 * b as u64;
        running = running + size;
        i = i + 1;
    }
    offsets
}

/// Offsets of the sections of the configured layout.
pub fn get_mram_offset_addrs() -> (r: [u16; MRAM_SECTIONS_NUM])
    ensures
        forall|i: int| 0 <= i < MRAM_SECTIONS_NUM ==> r@[i] == mram_offset(i),
{
    let mut elements: Vec<u32> = Vec::new();
    elements.push(MRAMCONFIG_NUMOFELEMENTS_SID);
    elements.push(MRAMCONFIG_NUMOFELEMENTS_XID);
    elements.push(MRAMCONFIG_NUMOFELEMENTS_RXFIFO0);
    elements.push(MRAMCONFIG_NUMOFELEMENTS_RXFIFO1);
    elements.push(MRAMCONFIG_NUMOFELEMENTS_RXBC);
    elements.push(MRAMCONFIG_NUMOFELEMENTS_TXEFC);
    elements.push(MRAMCONFIG_NUMOFELEMENTS_TXBC);
    let mut sizes: Vec<u32> = Vec::new();
    sizes.push(MRAMCONFIG_BYTESPERELEMENT_SID);
    sizes.push(MRAMCONFIG_BYTESPERELEMENT_XID);
    sizes.push(MRAMCONFIG_BYTESPERELEMENT_RXFIFO0);
    sizes.push(MRAMCONFIG_BYTESPERELEMENT_RXFIFO1);
    sizes.push(MRAMCONFIG_BYTESPERELEMENT_RXBC);
    sizes.push(MRAMCONFIG_BYTESPERELEMENT_TXEFC);
    sizes.push(MRAMCONFIG_BYTESPERELEMENT_TXBC);
    assert(elements@ =~= config_elements());
    assert(sizes@ =~= config_bytes_per_element());
    proof {
        reveal_with_fuel(prefix_bytes, 8);
    }
    let o = mram_layout(&elements, &sizes);
    [o[0], o[1], o[2], o[3], o[4], o[5], o[6]]
}


/// The offsets of the configured layout, worked out.
pub proof fn lemma_config_layout()
    ensures
        valid_layout(config_elements(), config_bytes_per_element()),
        mram_offset(0) == 0,
        mram_offset(1) == 8,
        mram_offset(2) == 16,
        mram_offset(3) == 304,
        mram_offset(4) == 0,
        mram_offset(5) == 664,
        mram_offset(6) == 688,
{
    reveal_with_fuel(prefix_bytes, 8);
}

/// Start addresses of sections at the offsets `offset_addr`.
pub fn get_mram_start_addrs(offset_addr: [u16; MRAM_SECTIONS_NUM]) -> (r: [u16; MRAM_SECTIONS_NUM])
    requires
        forall|i: int| 0 <= i < MRAM_SECTIONS_NUM ==> offset_addr@[i] < MRAM_BASEADDR,
    ensures
        forall|i: int|
            0 <= i < MRAM_SECTIONS_NUM ==> r@[i] == MRAM_BASEADDR + offset_addr@[i],
{
    [
        MRAM_BASEADDR + offset_addr[0],
        MRAM_BASEADDR + offset_addr[1],
        MRAM_BASEADDR + offset_addr[2],
        MRAM_BASEADDR + offset_addr[3],
        MRAM_BASEADDR + offset_addr[4],
        MRAM_BASEADDR + offset_addr[5],
        MRAM_BASEADDR + offset_addr[6],
    ]
}

/// Start address of section `i` of the configured layout.
fn mram_start_addr(i: usize) -> (r: u16)
    requires
        i < MRAM_SECTIONS_NUM,
    ensures
        r == mram_start(i as int),
{
    proof {
        lemma_config_layout();
    }
    let offsets = get_mram_offset_addrs();
    let starts = get_mram_start_addrs(offsets);
    starts[i]
}

/// The words that hold the standard ID filters `f`, one per element.
pub open spec fn sid_words(f: Seq<SIDFCONFIG>) -> Seq<u32> {
    Seq::new(MRAMCONFIG_NUMOFELEMENTS_SID as nat, |i: int| sid_word(f[i]))
}

/// The words that hold the extended ID filters `f`, two per element.
pub open spec fn xid_words(f: Seq<XIDFCONFIG>) -> Seq<u32> {
    Seq::new(
        (2 * MRAMCONFIG_NUMOFELEMENTS_XID) as nat,
        |i: int|
            if i % 2 == 0 {
                xid_word0(f[i / 2])
            } else {
                xid_word1(f[i / 2])
            },
    )
}

/// Address of TX buffer element `put_index`.
pub open spec fn tx_data_addr(put_index: u16) -> int {
    mram_start(6) + MRAMCONFIG_BYTESPERELEMENT_TXBC * put_index
}

/// Address of element `get_index` of RX FIFO `ch` (0, or else 1).
pub open spec fn rx_data_addr(ch: u16, get_index: u16) -> int {
    if ch == 0 {
        mram_start(2) + MRAMCONFIG_BYTESPERELEMENT_RXFIFO0 * get_index
    } else {
        mram_start(3) + MRAMCONFIG_BYTESPERELEMENT_RXFIFO1 * get_index
    }
}

impl TCAN455xRequest {
    /// Standard ID filter configuration: element count and offset.
    pub fn set_sidfc() -> (r: Vec<u8>)
        ensures
            r@ == write_frame(
                REG_MCAN_SIDFC,
                seq![(MRAMCONFIG_NUMOFELEMENTS_SID << 16u32) | mram_offset(0) as u32],
            ),
    {
        let offsets = get_mram_offset_addrs();
        let data: u32 = (MRAMCONFIG_NUMOFELEMENTS_SID << 16u32) | offsets[0] as u32;
        Self::get_write_command(REG_MCAN_SIDFC, data)
    }

    /// Extended ID filter configuration: element count and offset.
    pub fn set_xidfc() -> (r: Vec<u8>)
        ensures
            r@ == write_frame(
                REG_MCAN_XIDFC,
                seq![(MRAMCONFIG_NUMOFELEMENTS_XID << 16u32) | mram_offset(1) as u32],
            ),
    {
        let offsets = get_mram_offset_addrs();
        let data: u32 = (MRAMCONFIG_NUMOFELEMENTS_XID << 16u32) | offsets[1] as u32;
        Self::get_write_command(REG_MCAN_XIDFC, data)
    }

    /// RX FIFO 0 configuration: overwrite mode, watermark, size and offset.
    pub fn set_rxf0c() -> (r: Vec<u8>)
        ensures
            r@ == write_frame(
                REG_MCAN_RXF0C,
                seq![
                    REG_BITS_MCAN_RXF0C_F0OM_OVERWRITE | (RXFIFO0_WM << 24u32) | (
                    MRAMCONFIG_NUMOFELEMENTS_RXFIFO0 << 16u32) | mram_offset(2) as u32,
                ],
            ),
    {
        let offsets = get_mram_offset_addrs();
        let data: u32 = REG_BITS_MCAN_RXF0C_F0OM_OVERWRITE | (RXFIFO0_WM << 24u32) | (
        MRAMCONFIG_NUMOFELEMENTS_RXFIFO0 << 16u32) | offsets[2] as u32;
        Self::get_write_command(REG_MCAN_RXF0C, data)
    }

    /// RX FIFO 1 configuration: overwrite mode, watermark, size and offset.
    pub fn set_rxf1c() -> (r: Vec<u8>)
        ensures
            r@ == write_frame(
                REG_MCAN_RXF1C,
                seq![
                    REG_BITS_MCAN_RXF0C_F0OM_OVERWRITE | (RXFIFO1_WM << 24u32) | (
                    MRAMCONFIG_NUMOFELEMENTS_RXFIFO1 << 16u32) | mram_offset(3) as u32,
                ],
            ),
    {
        let offsets = get_mram_offset_addrs();
        let data: u32 = REG_BITS_MCAN_RXF0C_F0OM_OVERWRITE | (RXFIFO1_WM << 24u32) | (
        MRAMCONFIG_NUMOFELEMENTS_RXFIFO1 << 16u32) | offsets[3] as u32;
        Self::get_write_command(REG_MCAN_RXF1C, data)
    }

    /// RX buffer configuration: offset.
    pub fn set_rxbc() -> (r: Vec<u8>)
        ensures
            r@ == write_frame(REG_MCAN_RXBC, seq![mram_offset(4) as u32]),
    {
        let offsets = get_mram_offset_addrs();
        Self::get_write_command(REG_MCAN_RXBC, offsets[4] as u32)
    }

    /// RX element size configuration: the size codes of the RX buffers and
    /// of both RX FIFOs.
    pub fn set_rxesc() -> (r: Vec<u8>)
        ensures
            r@ == write_frame(
                REG_MCAN_RXESC,
                seq![
                    (RXBC_DATASIZE_CODE << 8u32) | (RXFIFO1_DATASIZE_CODE << 4u32)
                        | RXFIFO0_DATASIZE_CODE,
                ],
            ),
    {
        let data: u32 = (RXBC_DATASIZE_CODE << 8u32) | (RXFIFO1_DATASIZE_CODE << 4u32)
            | RXFIFO0_DATASIZE_CODE;
        Self::get_write_command(REG_MCAN_RXESC, data)
    }

    /// TX event FIFO configuration: watermark, size and offset.
    pub fn set_txefc() -> (r: Vec<u8>)
        ensures
            r@ == write_frame(
                REG_MCAN_TXEFC,
                seq![
                    (TXEFC_WM << 24u32) | (MRAMCONFIG_NUMOFELEMENTS_TXEFC << 16u32) | mram_offset(
                        5,
                    ) as u32,
                ],
            ),
    {
        let offsets = get_mram_offset_addrs();
        let data: u32 = (TXEFC_WM << 24u32) | (MRAMCONFIG_NUMOFELEMENTS_TXEFC << 16u32)
            | offsets[5] as u32;
        Self::get_write_command(REG_MCAN_TXEFC, data)
    }

    /// TX buffer configuration: number of FIFO/queue elements and offset.
    pub fn set_txbc() -> (r: Vec<u8>)
        ensures
            r@ == write_frame(
                REG_MCAN_TXBC,
                seq![(MRAMCONFIG_NUMOFELEMENTS_TXBC << 24u32) | mram_offset(6) as u32],
            ),
    {
        let offsets = get_mram_offset_addrs();
        let data: u32 = (MRAMCONFIG_NUMOFELEMENTS_TXBC << 24u32) | offsets[6] as u32;
        Self::get_write_command(REG_MCAN_TXBC, data)
    }

    /// TX element size configuration: the size code of the TX buffers.
    pub fn set_txesc() -> (r: Vec<u8>)
        ensures
            r@ == write_frame(REG_MCAN_TXESC, seq![TXFIFO_DATASIZE_CODE]),
    {
        Self::get_write_command(REG_MCAN_TXESC, TXFIFO_DATASIZE_CODE)
    }

    /// The frame that writes the standard ID filter table.
    pub fn set_sid(sidf_config: &[SIDFCONFIG]) -> (r: Vec<u8>)
        requires
            sidf_config@.len() >= MRAMCONFIG_NUMOFELEMENTS_SID,
        ensures
            r@ == write_frame(mram_start(0), sid_words(sidf_config@)),
    {
        let mut reg_data: Vec<u32> = Vec::new();
        let n: usize = MRAMCONFIG_NUMOFELEMENTS_SID as usize;
        let mut i: usize = 0;
        while i < n
            invariant
                n == MRAMCONFIG_NUMOFELEMENTS_SID,
                n <= sidf_config@.len(),
                i <= n,
                reg_data@ =~= sid_words(sidf_config@).subrange(0, i as int),
            decreases n - i,
        {
            let f: SIDFCONFIG = sidf_config[i];
            reg_data.push((f.sft << 30u32) | (f.sfec << 27u32) | (f.sidf1 << 16u32) | f.sidf2);
            i = i + 1;
        }
        let addr: u16 = mram_start_addr(0);
        TCAN455xController::generate_write_command(addr, &reg_data)
    }

    /// The frame that writes the extended ID filter table.
    pub fn set_xid(xidf_config: &[XIDFCONFIG]) -> (r: Vec<u8>)
        requires
            xidf_config@.len() >= MRAMCONFIG_NUMOFELEMENTS_XID,
        ensures
            r@ == write_frame(mram_start(1), xid_words(xidf_config@)),
    {
        let mut reg_data: Vec<u32> = Vec::new();
        let n: usize = MRAMCONFIG_NUMOFELEMENTS_XID as usize;
        let mut i: usize = 0;
        while i < n
            invariant
                n == MRAMCONFIG_NUMOFELEMENTS_XID,
                n <= xidf_config@.len(),
                i <= n,
                reg_data@ =~= xid_words(xidf_config@).subrange(0, 2 * i as int),
            decreases n - i,
        {
            let f: XIDFCONFIG = xidf_config[i];
            reg_data.push((f.efec << 29u32) | f.eidf1);
            reg_data.push((f.eft << 30u32) | f.eidf2);
            proof {
                assert((2 * i) / 2 == i as int && (2 * i) % 2 == 0);
                assert((2 * i + 1) / 2 == i as int && (2 * i + 1) % 2 == 1);
            }
            i = i + 1;
        }
        let addr: u16 = mram_start_addr(1);
        TCAN455xController::generate_write_command(addr, &reg_data)
    }

    /// Address of TX buffer element `put_index`.
    pub fn get_txdata_start_addr(put_index: u16) -> (r: u16)
        requires
            tx_data_addr(put_index) <= u16::MAX,
        ensures
            r == tx_data_addr(put_index),
    {
        let start: u16 = mram_start_addr(6);
        start + MRAMCONFIG_BYTESPERELEMENT_TXBC as u16 * put_index
    }

    /// Address of element `get_index` of RX FIFO `ch` (0, or else 1).
    pub fn get_rxdata_start_addr(ch: u16, get_index: u16) -> (r: u16)
        requires
            rx_data_addr(ch, get_index) <= u16::MAX,
        ensures
            r == rx_data_addr(ch, get_index),
    {
        if ch == 0 {
            let start: u16 = mram_start_addr(2);
            start + MRAMCONFIG_BYTESPERELEMENT_RXFIFO0 as u16 * get_index
        } else {
            let start: u16 = mram_start_addr(3);
            start + MRAMCONFIG_BYTESPERELEMENT_RXFIFO1 as u16 * get_index
        }
    }
}

} // verus!
