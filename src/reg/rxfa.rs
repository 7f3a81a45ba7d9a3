//! RX FIFO acknowledge register (RXFA).
use vstd::prelude::*;
use super::{lemma_field_bounds, field, get_field, set_field, with_field};

verus! {

/// Description of the RX FIFO acknowledge register.
#[allow(non_camel_case_types)]
#[derive(Clone, Copy, Debug, PartialEq, Eq, Structural)]
pub struct RXFA_SPEC;

/// Register `RXFA` reader
#[derive(Clone, Copy, Debug, PartialEq, Eq, Structural)]
pub struct R {
    /// Register value
    pub bits: u32,
}

/// Register `RXFA` writer
#[derive(Clone, Copy, Debug, PartialEq, Eq, Structural)]
pub struct W {
    /// Value to be written
    pub bits: u32,
}

/// Field `FAI` reader - Rx FIFO Acknowledge Index
#[allow(non_camel_case_types)]
#[derive(Clone, Copy, Debug, PartialEq, Eq, Structural)]
pub struct FAI_R(u8);

/// Field `FAI` writer - Rx FIFO Acknowledge Index
#[allow(non_camel_case_types)]
#[derive(Clone, Copy, Debug, PartialEq, Eq, Structural)]
pub struct FAI_W(u8);

impl FAI_R {
    /// Field value.
    pub closed spec fn value(self) -> u8 {
        self.0
    }

    /// Wraps a field value.
    pub fn new(bits: u8) -> (r: Self)
        ensures
            r.value() == bits,
    {
        FAI_R(bits)
    }

    /// Field value.
    pub fn bits(&self) -> (r: u8)
        ensures
            r == self.value(),
    {
        self.0
    }
}

impl FAI_W {
    /// Field value to be written.
    pub closed spec fn value(self) -> u8 {
        self.0
    }

    /// Wraps a field value to be written; only the low six bits are kept.
    pub fn bits(value: u8) -> (r: Self)
        ensures
            r.value() == value % 64,
    {
        FAI_W(value % 64)
    }

    /// Field value to be written.
    pub fn bits_value(&self) -> (r: u8)
        ensures
            r == self.value(),
    {
        self.0
    }
}

impl R {
    /// Bits 0:5 - Rx FIFO Acknowledge Index
    pub fn fai(&self) -> (r: FAI_R)
        ensures
            r.value() == field(self.bits, 0, 6),
    {
        let v = get_field(self.bits, 0, 6);
        proof {
            lemma_field_bounds(self.bits);
        }
        FAI_R::new(v as u8)
    }
}

impl W {
    /// Bits 0:5 - Rx FIFO Acknowledge Index
    pub fn fai(&mut self, value: FAI_W)
        ensures
            final(self).bits == with_field(old(self).bits, 0, 6, value.value() as u32),
    {
        self.bits = set_field(self.bits, 0, 6, value.bits_value() as u32);
    }

    /// Writes raw bits to the register.
    pub fn bits(&mut self, bits: u32)
        ensures
            final(self).bits == bits,
    {
        self.bits = bits;
    }
}

} // verus!
