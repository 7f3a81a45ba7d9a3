//! Customer register: 32 bits without defined fields.
use vstd::prelude::*;

verus! {

/// Description of the customer register.
#[allow(non_camel_case_types)]
#[derive(Clone, Copy, Debug, PartialEq, Eq, Structural)]
pub struct CUST_SPEC;

/// Register `CUST` reader
#[derive(Clone, Copy, Debug, PartialEq, Eq, Structural)]
pub struct R {
    /// Register value
    pub bits: u32,
}

/// Register `CUST` writer
#[derive(Clone, Copy, Debug, PartialEq, Eq, Structural)]
pub struct W {
    /// Value to be written
    pub bits: u32,
}

impl R {
    /// Raw bits of the register.
    pub fn bits(&self) -> (r: u32)
        ensures
            r == self.bits,
    {
        self.bits
    }
}

impl W {
    /// Writes raw bits to the register.
    pub fn bits(&mut self, bits: u32)
        ensures
            final(self).bits == bits,
    {
        self.bits = bits;
    }
}

} // verus!
