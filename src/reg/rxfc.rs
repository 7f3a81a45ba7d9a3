//! RX FIFO configuration register (RXFC).
use vstd::prelude::*;
use super::{lemma_field_bounds, field, get_field, set_field, with_field};

verus! {

/// Description of the RX FIFO configuration register.
#[allow(non_camel_case_types)]
#[derive(Clone, Copy, Debug, PartialEq, Eq, Structural)]
pub struct RXFC_SPEC;

/// Register `RXFC` reader
#[derive(Clone, Copy, Debug, PartialEq, Eq, Structural)]
pub struct R {
    /// Register value
    pub bits: u32,
}

/// Register `RXFC` writer
#[derive(Clone, Copy, Debug, PartialEq, Eq, Structural)]
pub struct W {
    /// Value to be written
    pub bits: u32,
}

impl R {
    /// Bits 0:15 - Rx FIFO Start Address
    pub fn fsa(&self) -> (r: u16)
        ensures
            r == field(self.bits, 0, 16),
    {
        let v = get_field(self.bits, 0, 16);
        proof {
            lemma_field_bounds(self.bits);
        }
        v as u16
    }

    /// Bits 16:22 - Rx FIFO Size
    pub fn fs(&self) -> (r: u8)
        ensures
            r == field(self.bits, 16, 7),
    {
        let v = get_field(self.bits, 16, 7);
        proof {
            lemma_field_bounds(self.bits);
        }
        v as u8
    }

    /// Bits 24:30 - Rx FIFO Watermark
    pub fn fwm(&self) -> (r: u8)
        ensures
            r == field(self.bits, 24, 7),
    {
        let v = get_field(self.bits, 24, 7);
        proof {
            lemma_field_bounds(self.bits);
        }
        v as u8
    }

    /// Bit 31 - FIFO Operation Mode: set for overwrite mode
    pub fn fom(&self) -> (r: bool)
        ensures
            r == (field(self.bits, 31, 1) == 1),
    {
        get_field(self.bits, 31, 1) == 1
    }
}

impl W {
    /// Bits 0:15 - Rx FIFO Start Address
    pub fn fsa(&mut self, value: u16)
        ensures
            final(self).bits == with_field(old(self).bits, 0, 16, value as u32),
    {
        self.bits = set_field(self.bits, 0, 16, value as u32);
    }

    /// Bits 16:22 - Rx FIFO Size
    pub fn fs(&mut self, value: u8)
        ensures
            final(self).bits == with_field(old(self).bits, 16, 7, value as u32),
    {
        self.bits = set_field(self.bits, 16, 7, value as u32);
    }

    /// Bits 24:30 - Rx FIFO Watermark
    pub fn fwm(&mut self, value: u8)
        ensures
            final(self).bits == with_field(old(self).bits, 24, 7, value as u32),
    {
        self.bits = set_field(self.bits, 24, 7, value as u32);
    }

    /// Bit 31 - FIFO Operation Mode: set for overwrite mode
    pub fn fom(&mut self, value: bool)
        ensures
            final(self).bits == with_field(
                old(self).bits,
                31,
                1,
                if value {
                    1
                } else {
                    0
                },
            ),
    {
        self.bits = set_field(
            self.bits,
            31,
            1,
            if value {
                1
            } else {
                0
            },
        );
    }

    /// Writes raw bits to the register.
    pub fn bits(&mut self, bits: u32)
        ensures
            final(self).bits == bits,
    {
        self.bits = bits;
    }
}

} // verus!
