//! The bring-up sequence: its steps, the program of steps for a filter
//! configuration, and what carrying out each step does on the bus.

use vstd::prelude::*;
use crate::bus::{is_read_of, op_ok, read_value, writes_to, BusOp};
use crate::codec::{lemma_write_frames_addr, write_frame, TCAN455xController};
use crate::filter::{SIDFCONFIG, XIDFCONFIG};
use crate::mcan::{
    dbtp_word, nbtp_word, protected, tdcr_word, unprotected, DBRPRS, DTSEG1, DTSEG2,
    MCAN_CCCR_CONFIG, MCAN_IE_CONFIG, MCAN_ILE_CONFIG, NBPRS, NTSEG1, NTSEG2,
};
use crate::modes::{switched_mode_word, DeviceMode, DEVICE_MODES_AND_PINS_CONFIG};
use crate::mram::{
    lemma_config_layout, mram_offset, mram_start, sid_words, xid_words,
    MRAMCONFIG_NUMOFELEMENTS_RXFIFO0, MRAMCONFIG_NUMOFELEMENTS_RXFIFO1,
    MRAMCONFIG_NUMOFELEMENTS_SID, MRAMCONFIG_NUMOFELEMENTS_TXBC, MRAMCONFIG_NUMOFELEMENTS_TXEFC,
    MRAMCONFIG_NUMOFELEMENTS_XID, RXBC_DATASIZE_CODE, RXFIFO0_DATASIZE_CODE, RXFIFO0_WM,
    RXFIFO1_DATASIZE_CODE, RXFIFO1_WM, TXEFC_WM, TXFIFO_DATASIZE_CODE,
};
use crate::register::{
    MRAM_BASEADDR, REG_BITS_MCAN_CCCR_MON, REG_BITS_MCAN_CCCR_TEST,
    REG_BITS_MCAN_GFC_ANFE_RXFIFO1, REG_BITS_MCAN_GFC_ANFS_RXFIFO0, REG_BITS_MCAN_GFC_RRFE,
    REG_BITS_MCAN_GFC_RRFS, REG_BITS_MCAN_RXF0C_F0OM_OVERWRITE, REG_BITS_MCAN_TEST_LOOP_BACK,
    REG_DEV_IR, REG_DEV_MODES_AND_PINS, REG_MCAN_CCCR, REG_MCAN_DBTP, REG_MCAN_GFC, REG_MCAN_IE,
    REG_MCAN_ILE, REG_MCAN_IR, REG_MCAN_NBTP, REG_MCAN_RXBC, REG_MCAN_RXESC, REG_MCAN_RXF0C,
    REG_MCAN_RXF1C, REG_MCAN_SIDFC, REG_MCAN_TDCR, REG_MCAN_TEST, REG_MCAN_TXBC, REG_MCAN_TXEFC,
    REG_MCAN_TXESC, REG_MCAN_XIDFC, REG_SPI_STATUS,
};
use crate::request::TCAN455xRequest;

verus! {

/// Words of message RAM that one clearing frame writes.
pub const MRAM_CLEAR_WORDS: usize = 64;

/// Clearing frames that cover the whole message RAM.
pub const MRAM_CLEAR_FRAMES: usize = 8;

/// One step of the bring-up sequence.
pub enum SetupStep {
    /// Pulse the reset line.
    Reset,
    /// Switch the device mode.
    SwitchMode(DeviceMode),
    /// Send a prepared write frame.
    Send(Vec<u8>),
    /// Read the device interrupt flags and clear those that are set.
    ClearDeviceInterrupts,
    /// Unlock the protected configuration registers.
    Unprotect,
    /// Lock the protected configuration registers.
    Protect,
    /// Enable loopback where test mode and bus monitoring are already on.
    TestMode,
    /// Zero the whole message RAM.
    ClearMram,
}

/// A step that may stand in a bring-up sequence: a frame that it sends does
/// not touch the MCAN interrupt register.
pub open spec fn step_allowed(step: SetupStep) -> bool {
    step is Send ==> !writes_to(BusOp::Write { frame: step->Send_0@, ok: true }, REG_MCAN_IR)
}

/// Global filter policy: non-matching standard frames go to RX FIFO 0,
/// non-matching extended frames to RX FIFO 1, remote frames are rejected.
pub const MCAN_GFC_CONFIG: u32 = REG_BITS_MCAN_GFC_ANFS_RXFIFO0 | REG_BITS_MCAN_GFC_ANFE_RXFIFO1
    | REG_BITS_MCAN_GFC_RRFS | REG_BITS_MCAN_GFC_RRFE;

/// Written to the SPI status register, clears all its error flags.
pub const SPI_STATUS_CLEAR: u32 = 0xFFFF_FFFF;

/// Written to the MCAN interrupt register, clears all its flags.
pub const MCAN_IR_CLEAR: u32 = 0xFFFF_FFFF;

/// Number of steps of the bring-up sequence before the final switch to
/// normal mode.
pub const SETUP_STEPS: usize = 27;

/// The step sends the frame `f`.
pub open spec fn sends(step: SetupStep, f: Seq<u8>) -> bool {
    step is Send && step->Send_0@ == f
}

/// The step is `s`, one that carries no frame.
pub open spec fn is_step(step: SetupStep, s: SetupStep) -> bool {
    !(s is Send) && step == s
}

/// The frame that zeros clearing block `k` of the message RAM.
pub open spec fn mram_clear_frame(k: int) -> Seq<u8> {
    write_frame(
        (MRAM_BASEADDR + 4 * MRAM_CLEAR_WORDS * k) as u16,
        Seq::new(MRAM_CLEAR_WORDS as nat, |i: int| 0u32),
    )
}

/// Operation `start + k` zeroed clearing block `k` of the message RAM.
pub open spec fn cleared_at(ops: Seq<BusOp>, start: int, k: int) -> bool {
    ops[start + k] == (BusOp::Write { frame: mram_clear_frame(k), ok: true })
}

/// The operations `seg` carried out `step`, and all went through.
#[verifier::opaque]
pub open spec fn step_done(step: SetupStep, seg: Seq<BusOp>) -> bool {
    match step {
        SetupStep::Reset => seg == seq![BusOp::Reset { ok: true }],
        SetupStep::SwitchMode(mode) => {
            &&& seg.len() == 2
            &&& is_read_of(seg[0], REG_DEV_MODES_AND_PINS, 1)
            &&& op_ok(seg[0])
            &&& seg[1] == BusOp::Write {
                frame: write_frame(
                    REG_DEV_MODES_AND_PINS,
                    seq![switched_mode_word(read_value(seg[0]), mode)],
                ),
                ok: true,
            }
        },
        SetupStep::Send(frame) => seg == seq![BusOp::Write { frame: frame@, ok: true }],
        SetupStep::ClearDeviceInterrupts => {
            &&& 1 <= seg.len()
            &&& is_read_of(seg[0], REG_DEV_IR, 1)
            &&& op_ok(seg[0])
            &&& if read_value(seg[0]) != 0 {
                seg.len() == 2 && seg[1] == BusOp::Write {
                    frame: write_frame(REG_DEV_IR, seq![read_value(seg[0])]),
                    ok: true,
                }
            } else {
                seg.len() == 1
            }
        },
        SetupStep::Unprotect => {
            &&& seg.len() == 2
            &&& is_read_of(seg[0], REG_MCAN_CCCR, 1)
            &&& op_ok(seg[0])
            &&& seg[1] == BusOp::Write {
                frame: write_frame(REG_MCAN_CCCR, seq![unprotected(read_value(seg[0]))]),
                ok: true,
            }
        },
        SetupStep::Protect => {
            &&& seg.len() == 2
            &&& is_read_of(seg[0], REG_MCAN_CCCR, 1)
            &&& op_ok(seg[0])
            &&& seg[1] == BusOp::Write {
                frame: write_frame(REG_MCAN_CCCR, seq![protected(read_value(seg[0]))]),
                ok: true,
            }
        },
        SetupStep::TestMode => {
            let cccr = read_value(seg[0]);
            &&& 1 <= seg.len()
            &&& is_read_of(seg[0], REG_MCAN_CCCR, 1)
            &&& op_ok(seg[0])
            &&& if cccr & REG_BITS_MCAN_CCCR_TEST != 0 && cccr & REG_BITS_MCAN_CCCR_MON != 0 {
                seg.len() == 2 && seg[1] == BusOp::Write {
                    frame: write_frame(REG_MCAN_TEST, seq![REG_BITS_MCAN_TEST_LOOP_BACK]),
                    ok: true,
                }
            } else {
                seg.len() == 1
            }
        },
        SetupStep::ClearMram => {
            &&& seg.len() == MRAM_CLEAR_FRAMES
            &&& forall|k: int|
                0 <= k < MRAM_CLEAR_FRAMES ==> #[trigger] seg[k] == (BusOp::Write {
                    frame: mram_clear_frame(k),
                    ok: true,
                })
        },
    }
}

/// Step `k` of `p` was carried out by the operations from `b[k]` up to
/// `b[k + 1]`.
pub open spec fn step_at(p: Seq<SetupStep>, b: Seq<int>, ops: Seq<BusOp>, k: int) -> bool {
    b[k] <= b[k + 1] && step_done(p[k], ops.subrange(b[k], b[k + 1]))
}

/// The steps of `p` were carried out one after the other by the operations
/// of `ops` from `s` up to `e`, split at the bounds `b`.
pub open spec fn steps_traced(p: Seq<SetupStep>, b: Seq<int>, ops: Seq<BusOp>, s: int, e: int) -> bool {
    &&& b.len() == p.len() + 1
    &&& b[0] == s
    &&& b[p.len() as int] == e
    &&& forall|k: int| 0 <= k < p.len() ==> #[trigger] step_at(p, b, ops, k)
}

/// Adding operations leaves the steps already traced as they were.
pub proof fn lemma_steps_kept(p: Seq<SetupStep>, b: Seq<int>, before: Seq<BusOp>, after: Seq<BusOp>, n: int)
    requires
        0 <= n < b.len(),
        forall|k: int| 0 <= k < n ==> #[trigger] step_at(p, b, before, k),
        forall|k: int| 0 <= k <= n ==> 0 <= #[trigger] b[k] <= before.len(),
        before.len() <= after.len(),
        forall|i: int| 0 <= i < before.len() ==> after[i] == before[i],
    ensures
        forall|k: int| 0 <= k < n ==> #[trigger] step_at(p, b, after, k),
{
    assert forall|k: int| 0 <= k < n implies #[trigger] step_at(p, b, after, k) by {
        assert(step_at(p, b, before, k));
        assert(b[k + 1] <= before.len());
        assert(after.subrange(b[k], b[k + 1]) =~= before.subrange(b[k], b[k + 1]));
    }
}

/// `p` is the bring-up sequence for the filter elements `sid` and `xid`, up
/// to the final switch to normal mode: reset, standby, clear the SPI and
/// device error flags, unlock the configuration, configure the controller,
/// the global filter and bit timing, zero the message RAM, lay out its
/// sections, write the filters, lock the configuration, enable loopback where
/// test mode asks for it, then enable interrupts and configure the pins.
#[verifier::opaque]
pub open spec fn is_setup_program(p: Seq<SetupStep>, sid: Seq<SIDFCONFIG>, xid: Seq<XIDFCONFIG>) -> bool {
    &&& p.len() == SETUP_STEPS
    &&& forall|k: int| 0 <= k < p.len() ==> step_allowed(#[trigger] p[k])
    &&& is_step(p[0], SetupStep::Reset)
    &&& is_step(p[1], SetupStep::SwitchMode(DeviceMode::Standby))
    &&& sends(p[2], write_frame(REG_SPI_STATUS, seq![SPI_STATUS_CLEAR]))
    &&& is_step(p[3], SetupStep::ClearDeviceInterrupts)
    &&& is_step(p[4], SetupStep::Unprotect)
    &&& sends(p[5], write_frame(REG_MCAN_CCCR, seq![unprotected(MCAN_CCCR_CONFIG)]))
    &&& sends(p[6], write_frame(REG_MCAN_GFC, seq![MCAN_GFC_CONFIG]))
    &&& sends(p[7], write_frame(REG_MCAN_NBTP, seq![nbtp_word(NBPRS, NTSEG1, NTSEG2)]))
    &&& sends(p[8], write_frame(REG_MCAN_DBTP, seq![dbtp_word(DBRPRS, DTSEG1, DTSEG2, true)]))
    &&& sends(p[9], write_frame(REG_MCAN_TDCR, seq![tdcr_word(DTSEG1)]))
    &&& is_step(p[10], SetupStep::ClearMram)
    &&& sends(
        p[11],
        write_frame(
            REG_MCAN_SIDFC,
            seq![(MRAMCONFIG_NUMOFELEMENTS_SID << 16u32) | mram_offset(0) as u32],
        ),
    )
    &&& sends(
        p[12],
        write_frame(
            REG_MCAN_XIDFC,
            seq![(MRAMCONFIG_NUMOFELEMENTS_XID << 16u32) | mram_offset(1) as u32],
        ),
    )
    &&& sends(
        p[13],
        write_frame(
            REG_MCAN_RXF0C,
            seq![
                REG_BITS_MCAN_RXF0C_F0OM_OVERWRITE | (RXFIFO0_WM << 24u32) | (
                MRAMCONFIG_NUMOFELEMENTS_RXFIFO0 << 16u32) | mram_offset(2) as u32,
            ],
        ),
    )
    &&& sends(
        p[14],
        write_frame(
            REG_MCAN_RXF1C,
            seq![
                REG_BITS_MCAN_RXF0C_F0OM_OVERWRITE | (RXFIFO1_WM << 24u32) | (
                MRAMCONFIG_NUMOFELEMENTS_RXFIFO1 << 16u32) | mram_offset(3) as u32,
            ],
        ),
    )
    &&& sends(p[15], write_frame(REG_MCAN_RXBC, seq![mram_offset(4) as u32]))
    &&& sends(
        p[16],
        write_frame(
            REG_MCAN_RXESC,
            seq![
                (RXBC_DATASIZE_CODE << 8u32) | (RXFIFO1_DATASIZE_CODE << 4u32)
                    | RXFIFO0_DATASIZE_CODE,
            ],
        ),
    )
    &&& sends(
        p[17],
        write_frame(
            REG_MCAN_TXEFC,
            seq![
                (TXEFC_WM << 24u32) | (MRAMCONFIG_NUMOFELEMENTS_TXEFC << 16u32) | mram_offset(
                    5,
                ) as u32,
            ],
        ),
    )
    &&& sends(
        p[18],
        write_frame(
            REG_MCAN_TXBC,
            seq![(MRAMCONFIG_NUMOFELEMENTS_TXBC << 24u32) | mram_offset(6) as u32],
        ),
    )
    &&& sends(p[19], write_frame(REG_MCAN_TXESC, seq![TXFIFO_DATASIZE_CODE]))
    &&& sends(p[20], write_frame(mram_start(0), sid_words(sid)))
    &&& sends(p[21], write_frame(mram_start(1), xid_words(xid)))
    &&& is_step(p[22], SetupStep::Protect)
    &&& is_step(p[23], SetupStep::TestMode)
    &&& sends(p[24], write_frame(REG_MCAN_IE, seq![MCAN_IE_CONFIG]))
    &&& sends(p[25], write_frame(REG_MCAN_ILE, seq![MCAN_ILE_CONFIG]))
    &&& sends(p[26], write_frame(REG_DEV_MODES_AND_PINS, seq![DEVICE_MODES_AND_PINS_CONFIG]))
}

/// The bring-up sequence for the filter elements `sid` and `xid`.
pub fn setup_program(sid: &[SIDFCONFIG], xid: &[XIDFCONFIG]) -> (r: Vec<SetupStep>)
    requires
        sid@.len() >= MRAMCONFIG_NUMOFELEMENTS_SID,
        xid@.len() >= MRAMCONFIG_NUMOFELEMENTS_XID,
    ensures
        is_setup_program(r@, sid@, xid@),
        r@.len() == SETUP_STEPS,
        forall|k: int| 0 <= k < r@.len() ==> step_allowed(#[trigger] r@[k]),
        r@[0] is Reset,
{
    proof {
        reveal(is_setup_program);
    }
    let mut p: Vec<SetupStep> = Vec::new();
    p.push(SetupStep::Reset);
    p.push(SetupStep::SwitchMode(DeviceMode::Standby));
    p.push(SetupStep::Send(TCAN455xRequest::get_write_command(REG_SPI_STATUS, SPI_STATUS_CLEAR)));
    p.push(SetupStep::ClearDeviceInterrupts);
    p.push(SetupStep::Unprotect);
    p.push(SetupStep::Send(TCAN455xController::set_mcan_cccr()));
    p.push(SetupStep::Send(TCAN455xRequest::get_write_command(REG_MCAN_GFC, MCAN_GFC_CONFIG)));
    p.push(SetupStep::Send(TCAN455xController::set_nbtp()));
    p.push(SetupStep::Send(TCAN455xController::set_dbtp()));
    p.push(SetupStep::Send(TCAN455xController::set_tdcr()));
    p.push(SetupStep::ClearMram);
    p.push(SetupStep::Send(TCAN455xRequest::set_sidfc()));
    p.push(SetupStep::Send(TCAN455xRequest::set_xidfc()));
    p.push(SetupStep::Send(TCAN455xRequest::set_rxf0c()));
    p.push(SetupStep::Send(TCAN455xRequest::set_rxf1c()));
    p.push(SetupStep::Send(TCAN455xRequest::set_rxbc()));
    p.push(SetupStep::Send(TCAN455xRequest::set_rxesc()));
    p.push(SetupStep::Send(TCAN455xRequest::set_txefc()));
    p.push(SetupStep::Send(TCAN455xRequest::set_txbc()));
    p.push(SetupStep::Send(TCAN455xRequest::set_txesc()));
    p.push(SetupStep::Send(TCAN455xRequest::set_sid(sid)));
    p.push(SetupStep::Send(TCAN455xRequest::set_xid(xid)));
    p.push(SetupStep::Protect);
    p.push(SetupStep::TestMode);
    p.push(SetupStep::Send(TCAN455xController::set_mcan_ie()));
    p.push(SetupStep::Send(TCAN455xController::set_mcan_ile()));
    p.push(SetupStep::Send(TCAN455xRequest::set_device_modes_and_pins()));
    proof {
        lemma_config_layout();
        lemma_write_frames_addr();
    }
    p
}

} // verus!
