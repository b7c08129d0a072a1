//! Acceptance filter elements for standard (11-bit) and extended (29-bit)
//! CAN identifiers.

use vstd::prelude::*;

verus! {

/// One standard-identifier filter element as it is packed into message RAM.
#[derive(Copy, Clone)]
pub struct SIDFCONFIG {
    pub sft: u32,
    pub sfec: u32,
    pub sidf1: u32,
    pub sidf2: u32,
}

impl SIDFCONFIG {
    pub fn new() -> (r: Self)
        ensures
            r.sft == 0 && r.sfec == 0 && r.sidf1 == 0 && r.sidf2 == 0,
    {
        Self { sft: 0, sfec: 0, sidf1: 0, sidf2: 0 }
    }
}

/// One extended-identifier filter element as it is packed into message RAM.
#[derive(Copy, Clone)]
pub struct XIDFCONFIG {
    pub eft: u32,
    pub efec: u32,
    pub eidf1: u32,
    pub eidf2: u32,
}

impl XIDFCONFIG {
    pub fn new() -> (r: Self)
        ensures
            r.eft == 0 && r.efec == 0 && r.eidf1 == 0 && r.eidf2 == 0,
    {
        Self { eft: 0, efec: 0, eidf1: 0, eidf2: 0 }
    }
}

/// Standard ID filter, as a user of the driver gives it: type, element
/// configuration and two comparator values.
#[derive(Copy, Clone)]
pub struct SIDConfig {
    pub sft: u32,
    pub sfec: u32,
    pub sidf1: u32,
    pub sidf2: u32,
}

impl SIDConfig {
    pub fn new() -> (r: Self)
        ensures
            r.sft == 0 && r.sfec == 0 && r.sidf1 == 0 && r.sidf2 == 0,
    {
        Self { sft: 0, sfec: 0, sidf1: 0, sidf2: 0 }
    }

    /// The message RAM element that holds this filter.
    pub fn element(&self) -> (r: SIDFCONFIG)
        ensures
            r == sid_element(*self),
    {
        SIDFCONFIG { sft: self.sft, sfec: self.sfec, sidf1: self.sidf1, sidf2: self.sidf2 }
    }
}

/// Extended ID filter, as a user of the driver gives it: type, element
/// configuration and two comparator values.
#[derive(Copy, Clone)]
pub struct XIDConfig {
    pub eft: u32,
    pub efec: u32,
    pub eidf1: u32,
    pub eidf2: u32,
}

impl XIDConfig {
    pub fn new() -> (r: Self)
        ensures
            r.eft == 0 && r.efec == 0 && r.eidf1 == 0 && r.eidf2 == 0,
    {
        Self { eft: 0, efec: 0, eidf1: 0, eidf2: 0 }
    }

    /// The message RAM element that holds this filter.
    pub fn element(&self) -> (r: XIDFCONFIG)
        ensures
            r == xid_element(*self),
    {
        XIDFCONFIG { eft: self.eft, efec: self.efec, eidf1: self.eidf1, eidf2: self.eidf2 }
    }
}

/// The message RAM element of a standard ID filter: the same four fields.
pub open spec fn sid_element(c: SIDConfig) -> SIDFCONFIG {
    SIDFCONFIG { sft: c.sft, sfec: c.sfec, sidf1: c.sidf1, sidf2: c.sidf2 }
}

/// The message RAM element of an extended ID filter: the same four fields.
pub open spec fn xid_element(c: XIDConfig) -> XIDFCONFIG {
    XIDFCONFIG { eft: c.eft, efec: c.efec, eidf1: c.eidf1, eidf2: c.eidf2 }
}

/// The message RAM elements of the standard ID filters `f`.
pub open spec fn sid_elements(f: Seq<SIDConfig>) -> Seq<SIDFCONFIG> {
    Seq::new(f.len(), |i: int| sid_element(f[i]))
}

/// The message RAM elements of the extended ID filters `f`.
pub open spec fn xid_elements(f: Seq<XIDConfig>) -> Seq<XIDFCONFIG> {
    Seq::new(f.len(), |i: int| xid_element(f[i]))
}

/// The word that holds a standard ID filter element.
pub open spec fn sid_word(f: SIDFCONFIG) -> u32 {
    (f.sft << 30u32) | (f.sfec << 27u32) | (f.sidf1 << 16u32) | f.sidf2
}

/// The first of the two words that hold an extended ID filter element.
pub open spec fn xid_word0(f: XIDFCONFIG) -> u32 {
    (f.efec << 29u32) | f.eidf1
}

/// The second of the two words that hold an extended ID filter element.
pub open spec fn xid_word1(f: XIDFCONFIG) -> u32 {
    (f.eft << 30u32) | f.eidf2
}

} // verus!
