//! Data length codes of CAN-FD frames.

use vstd::prelude::*;

verus! {

/// Payload length that data length code `d` stands for.
pub open spec fn dlc_len(d: int) -> int {
    if d <= 8 {
        d
    } else if d <= 12 {
        8 + 4 * (d - 8)
    } else if d == 13 {
        32
    } else if d == 14 {
        48
    } else {
        64
    }
}

/// Smallest data length code whose payload holds `len` bytes.
pub open spec fn dlc_of(len: int) -> int {
    if len <= 8 {
        len
    } else if len <= 12 {
        9
    } else if len <= 16 {
        10
    } else if len <= 20 {
        11
    } else if len <= 24 {
        12
    } else if len <= 32 {
        13
    } else if len <= 48 {
        14
    } else {
        15
    }
}

/// Data length code for a payload of `len` bytes: lengths up to 8 stand for
/// themselves, longer ones round up to the next CAN-FD payload size.
pub fn to_dlc(len: usize) -> (r: u32)
    requires
        len <= 64,
    ensures
        r == dlc_of(len as int),
        r <= 15,
        len <= dlc_len(r as int),
{
    if len <= 8 {
        len as u32
    } else if len <= 12 {
        9
    } else if len <= 16 {
        10
    } else if len <= 20 {
        11
    } else if len <= 24 {
        12
    } else if len <= 32 {
        13
    } else if len <= 48 {
        14
    } else {
        15
    }
}

/// Payload length of data length code `dlc`.
pub fn dlc_to_len(dlc: u32) -> (r: usize)
    requires
        dlc <= 15,
    ensures
        r == dlc_len(dlc as int),
{
    if dlc <= 8 {
        dlc as usize
    } else if dlc <= 12 {
        8 + 4 * (dlc as usize - 8)
    } else if dlc == 13 {
        32
    } else if dlc == 14 {
        48
    } else {
        64
    }
}

/// The length-to-code table is ordered, is the identity up to 8, gives 15 for
/// 64, and sends every length between two neighbouring codes' lengths (the
/// upper one included) to the upper code.
pub proof fn lemma_dlc_table(a: int, b: int, d: int, len: int)
    requires
        0 <= a <= b <= 64,
        0 <= d < 15,
    ensures
        dlc_of(a) <= dlc_of(b),
        a <= 8 ==> dlc_of(a) == a,
        dlc_of(64) == 15,
        dlc_len(d) < len <= dlc_len(d + 1) ==> dlc_of(len) == d + 1,
{
}

} // verus!
