//! CAN identifiers: 11-bit standard and 29-bit extended.
use vstd::prelude::*;

verus! {

/// Largest standard (11-bit) identifier.
pub const STANDARD_ID_MAX: u16 = 0x7ff;

/// Largest extended (29-bit) identifier.
pub const EXTENDED_ID_MAX: u32 = 0x1fff_ffff;

/// An 11-bit CAN identifier.
#[derive(Clone, Copy, Debug, PartialEq, Eq, Structural)]
pub struct StandardId(u16);

/// A 29-bit CAN identifier.
#[derive(Clone, Copy, Debug, PartialEq, Eq, Structural)]
pub struct ExtendedId(u32);

/// A standard or extended CAN identifier.
#[derive(Clone, Copy, Debug, PartialEq, Eq, Structural)]
pub enum Id {
    /// 11-bit identifier
    Standard(StandardId),
    /// 29-bit identifier
    Extended(ExtendedId),
}

impl StandardId {
    #[verifier::type_invariant]
    closed spec fn inv(self) -> bool {
        self.0 <= STANDARD_ID_MAX
    }

    /// The raw identifier value.
    pub closed spec fn raw(self) -> u16 {
        self.0
    }

    /// Creates an identifier; `None` when `raw` does not fit in 11 bits.
    pub fn new(raw: u16) -> (r: Option<StandardId>)
        ensures
            r is Some <==> raw <= STANDARD_ID_MAX,
            r matches Some(id) ==> id.raw() == raw,
    {
        if raw <= STANDARD_ID_MAX {
            Some(StandardId(raw))
        } else {
            None
        }
    }

    /// The raw identifier value.
    pub fn as_raw(&self) -> (r: u16)
        ensures
            r == self.raw(),
            r <= STANDARD_ID_MAX,
    {
        proof {
            use_type_invariant(self);
        }
        self.0
    }
}

impl ExtendedId {
    #[verifier::type_invariant]
    closed spec fn inv(self) -> bool {
        self.0 <= EXTENDED_ID_MAX
    }

    /// The raw identifier value.
    pub closed spec fn raw(self) -> u32 {
        self.0
    }

    /// Creates an identifier; `None` when `raw` does not fit in 29 bits.
    pub fn new(raw: u32) -> (r: Option<ExtendedId>)
        ensures
            r is Some <==> raw <= EXTENDED_ID_MAX,
            r matches Some(id) ==> id.raw() == raw,
    {
        if raw <= EXTENDED_ID_MAX {
            Some(ExtendedId(raw))
        } else {
            None
        }
    }

    /// The raw identifier value.
    pub fn as_raw(&self) -> (r: u32)
        ensures
            r == self.raw(),
            r <= EXTENDED_ID_MAX,
    {
        proof {
            use_type_invariant(self);
        }
        self.0
    }
}

impl Id {
    /// `true` for a 29-bit identifier.
    pub open spec fn is_extended_spec(self) -> bool {
        self is Extended
    }

    /// The raw value fits the identifier's kind: 11 or 29 bits.
    pub open spec fn valid(self) -> bool {
        match self {
            Id::Standard(s) => s.raw() <= STANDARD_ID_MAX,
            Id::Extended(e) => e.raw() <= EXTENDED_ID_MAX,
        }
    }

    /// The raw identifier value.
    pub open spec fn raw(self) -> u32 {
        match self {
            Id::Standard(s) => s.raw() as u32,
            Id::Extended(e) => e.raw(),
        }
    }

    /// The order in which the bus arbitrates identifiers: the raw value.
    pub fn raw_value(&self) -> (r: u32)
        ensures
            r == self.raw(),
            self.valid(),
    {
        match self {
            Id::Standard(s) => s.as_raw() as u32,
            Id::Extended(e) => e.as_raw(),
        }
    }
}

} // verus!
