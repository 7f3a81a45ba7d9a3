//! RX FIFO status register (RXFS).
use vstd::prelude::*;
use super::{lemma_field_bounds, field, get_field};

verus! {

/// Description of the RX FIFO status register.
#[allow(non_camel_case_types)]
#[derive(Clone, Copy, Debug, PartialEq, Eq, Structural)]
pub struct RXFS_SPEC;

/// Register `RXFS` reader
#[derive(Clone, Copy, Debug, PartialEq, Eq, Structural)]
pub struct R {
    /// Register value
    pub bits: u32,
}

impl R {
    /// Bits 0:6 - Rx FIFO Fill Level
    pub fn ffl(&self) -> (r: u8)
        ensures
            r == field(self.bits, 0, 7),
    {
        let v = get_field(self.bits, 0, 7);
        proof {
            lemma_field_bounds(self.bits);
        }
        v as u8
    }

    /// Bits 8:13 - Rx FIFO Get Index
    pub fn fgi(&self) -> (r: u8)
        ensures
            r == field(self.bits, 8, 6),
    {
        let v = get_field(self.bits, 8, 6);
        proof {
            lemma_field_bounds(self.bits);
        }
        v as u8
    }

    /// Bits 16:21 - Rx FIFO Put Index
    pub fn fpi(&self) -> (r: u8)
        ensures
            r == field(self.bits, 16, 6),
    {
        let v = get_field(self.bits, 16, 6);
        proof {
            lemma_field_bounds(self.bits);
        }
        v as u8
    }

    /// Bit 24 - Rx FIFO Full
    pub fn ff(&self) -> (r: bool)
        ensures
            r == (field(self.bits, 24, 1) == 1),
    {
        get_field(self.bits, 24, 1) == 1
    }

    /// Bit 25 - Rx FIFO Message Lost
    pub fn rfl(&self) -> (r: bool)
        ensures
            r == (field(self.bits, 25, 1) == 1),
    {
        get_field(self.bits, 25, 1) == 1
    }
}

} // verus!
