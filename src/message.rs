//! Handling of messages/frames in the peripheral's representation.
pub mod rx;
pub mod tx;
pub mod tx_event;

use vstd::prelude::*;
use crate::id::{ExtendedId, Id, StandardId};

pub use tx_event::{TxEvent, TxEventType};

verus! {

/// Data does not fit in the backing buffer
#[derive(Debug, Clone, Copy, PartialEq, Eq, Structural)]
pub struct TooMuchData;

/// Payload width of a message slot: one of the sizes the peripheral supports.
#[derive(Debug, Clone, Copy, PartialEq, Eq, Structural)]
pub enum DataFieldSize {
    /// 8 bytes
    Bytes8,
    /// 12 bytes
    Bytes12,
    /// 16 bytes
    Bytes16,
    /// 20 bytes
    Bytes20,
    /// 24 bytes
    Bytes24,
    /// 32 bytes
    Bytes32,
    /// 48 bytes
    Bytes48,
    /// 64 bytes
    Bytes64,
}

impl DataFieldSize {
    /// Number of payload bytes in a slot of this width.
    pub open spec fn bytes(self) -> nat {
        match self {
            DataFieldSize::Bytes8 => 8,
            DataFieldSize::Bytes12 => 12,
            DataFieldSize::Bytes16 => 16,
            DataFieldSize::Bytes20 => 20,
            DataFieldSize::Bytes24 => 24,
            DataFieldSize::Bytes32 => 32,
            DataFieldSize::Bytes48 => 48,
            DataFieldSize::Bytes64 => 64,
        }
    }

    /// The value of the data size register field that selects this width.
    pub open spec fn reg_spec(self) -> u8 {
        match self {
            DataFieldSize::Bytes8 => 0,
            DataFieldSize::Bytes12 => 1,
            DataFieldSize::Bytes16 => 2,
            DataFieldSize::Bytes20 => 3,
            DataFieldSize::Bytes24 => 4,
            DataFieldSize::Bytes32 => 5,
            DataFieldSize::Bytes48 => 6,
            DataFieldSize::Bytes64 => 7,
        }
    }

    /// Number of payload bytes in a slot of this width.
    pub fn len(&self) -> (r: usize)
        ensures
            r == self.bytes(),
    {
        match self {
            DataFieldSize::Bytes8 => 8,
            DataFieldSize::Bytes12 => 12,
            DataFieldSize::Bytes16 => 16,
            DataFieldSize::Bytes20 => 20,
            DataFieldSize::Bytes24 => 24,
            DataFieldSize::Bytes32 => 32,
            DataFieldSize::Bytes48 => 48,
            DataFieldSize::Bytes64 => 64,
        }
    }

    /// The value of the data size register field that selects this width.
    pub fn reg(&self) -> (r: u8)
        ensures
            r == self.reg_spec(),
            r <= 7,
    {
        match self {
            DataFieldSize::Bytes8 => 0,
            DataFieldSize::Bytes12 => 1,
            DataFieldSize::Bytes16 => 2,
            DataFieldSize::Bytes20 => 3,
            DataFieldSize::Bytes24 => 4,
            DataFieldSize::Bytes32 => 5,
            DataFieldSize::Bytes48 => 6,
            DataFieldSize::Bytes64 => 7,
        }
    }
}

/// Number of payload bytes that a data length code stands for.
pub open spec fn dlc_len(dlc: u8, fd_format: bool) -> nat {
    if dlc <= 8 {
        dlc as nat
    } else if !fd_format {
        8
    } else if dlc == 9 {
        12
    } else if dlc == 10 {
        16
    } else if dlc == 11 {
        20
    } else if dlc == 12 {
        24
    } else if dlc == 13 {
        32
    } else if dlc == 14 {
        48
    } else {
        64
    }
}

/// Largest payload a frame can carry: 64 bytes for CAN FD, 8 for classic.
pub open spec fn max_payload(fd_format: bool) -> nat {
    if fd_format {
        64
    } else {
        8
    }
}

/// The smallest data length code that encodes at least `len` bytes, if any.
pub open spec fn dlc_of_len(len: nat, fd_format: bool) -> Option<u8> {
    if len > max_payload(fd_format) {
        None
    } else if len <= 8 {
        Some(len as u8)
    } else if len <= 12 {
        Some(9)
    } else if len <= 16 {
        Some(10)
    } else if len <= 20 {
        Some(11)
    } else if len <= 24 {
        Some(12)
    } else if len <= 32 {
        Some(13)
    } else if len <= 48 {
        Some(14)
    } else {
        Some(15)
    }
}

/// Finds the smallest data length code that encodes at least len bytes
pub fn len_to_dlc(len: usize, fd_format: bool) -> (r: Result<u8, TooMuchData>)
    ensures
        r is Err <==> len > max_payload(fd_format),
        r matches Ok(dlc) ==> Some(dlc) == dlc_of_len(len as nat, fd_format),
        r matches Ok(dlc) ==> dlc <= 15 && dlc_len(dlc, fd_format) >= len,
        r matches Ok(dlc) ==> dlc == 0 || dlc_len((dlc - 1) as u8, fd_format) < len,
{
    if len > 64 || (!fd_format && len > 8) {
        Err(TooMuchData)
    } else if len <= 8 {
        Ok(len as u8)
    } else if len <= 12 {
        Ok(9)
    } else if len <= 16 {
        Ok(10)
    } else if len <= 20 {
        Ok(11)
    } else if len <= 24 {
        Ok(12)
    } else if len <= 32 {
        Ok(13)
    } else if len <= 48 {
        Ok(14)
    } else {
        Ok(15)
    }
}

/// Converts data length code to a length in bytes
pub fn dlc_to_len(dlc: u8, fd_format: bool) -> (r: usize)
    ensures
        r == dlc_len(dlc, fd_format),
        r <= 64,
{
    if dlc <= 8 {
        dlc as usize
    } else if !fd_format {
        8
    } else if dlc == 9 {
        12
    } else if dlc == 10 {
        16
    } else if dlc == 11 {
        20
    } else if dlc == 12 {
        24
    } else if dlc == 13 {
        32
    } else if dlc == 14 {
        48
    } else {
        64
    }
}

/// Decoding a data length code and encoding the length again gives the same
/// code, for every code the hardware defines (0 to 15 for CAN FD, 0 to 8 for
/// classic frames).
pub proof fn lemma_dlc_round_trip(dlc: u8, fd_format: bool)
    requires
        dlc <= 15,
        !fd_format ==> dlc <= 8,
    ensures
        dlc_of_len(dlc_len(dlc, fd_format), fd_format) == Some(dlc),
{
}

/// Encoding a length that is too large for the frame format always fails.
pub proof fn lemma_oversized_len_rejected(len: nat, fd_format: bool)
    requires
        len > max_payload(fd_format),
    ensures
        dlc_of_len(len, fd_format) is None,
{
}


/// `1` for `true`, `0` for `false`.
pub open spec fn bit_of(b: bool) -> u32 {
    if b {
        1
    } else {
        0
    }
}

/// Extended identifier flag (XTD) of the first header word.
pub open spec fn xtd_bit(t0: u32) -> bool {
    t0 & 0x4000_0000 != 0
}

/// Remote transmission request flag (RTR) of the first header word.
pub open spec fn rtr_bit(t0: u32) -> bool {
    t0 & 0x2000_0000 != 0
}

/// Error state indicator flag (ESI) of the first header word.
pub open spec fn esi_bit(t0: u32) -> bool {
    t0 & 0x8000_0000 != 0
}

/// The identifier held by the first header word: bits 0 to 28 for an extended
/// identifier, bits 18 to 28 for a standard one.
pub open spec fn id_field(t0: u32) -> u32 {
    if xtd_bit(t0) {
        t0 & 0x1fff_ffff
    } else {
        (t0 >> 18) & 0x7ff
    }
}

/// Data length code (DLC) of the second header word.
pub open spec fn dlc_field(t1: u32) -> u8 {
    ((t1 >> 16) & 0xf) as u8
}

/// Bit rate switching flag (BRS) of the second header word.
pub open spec fn brs_bit(t1: u32) -> bool {
    t1 & 0x10_0000 != 0
}

/// FD format flag (FDF) of the second header word.
pub open spec fn fdf_bit(t1: u32) -> bool {
    t1 & 0x20_0000 != 0
}

/// The payload bytes that a slot holding `data` reports: none for a remote
/// frame, else as many as the data length code gives, cut to the slot width.
pub open spec fn data_view(t0: u32, t1: u32, data: Seq<u8>) -> Seq<u8> {
    if rtr_bit(t0) {
        Seq::empty()
    } else {
        let n = dlc_len(dlc_field(t1), fdf_bit(t1));
        data.subrange(0, if n <= data.len() { n as int } else { data.len() as int })
    }
}

/// RX or TX message in the peripheral's representation: two header words
/// followed by the payload slot.
#[derive(Clone, Debug)]
pub struct RawMessage {
    /// First header word: identifier and the RTR, XTD and ESI flags
    pub t0: u32,
    /// Second header word: DLC, BRS, FDF and the fields of each message kind
    pub t1: u32,
    /// Payload slot; its length is the configured width
    pub data: Vec<u8>,
}

impl View for RawMessage {
    type V = (u32, u32, Seq<u8>);

    open spec fn view(&self) -> (u32, u32, Seq<u8>) {
        (self.t0, self.t1, self.data@)
    }
}

impl RawMessage {
    /// A copy of the message.
    pub fn copy(&self) -> (r: RawMessage)
        ensures
            r@ == self@,
    {
        let mut data: Vec<u8> = Vec::new();
        let mut i: usize = 0;
        while i < self.data.len()
            invariant
                i <= self.data.len(),
                data@ == self.data@.subrange(0, i as int),
            decreases self.data.len() - i,
        {
            data.push(self.data[i]);
            i = i + 1;
            assert(data@ =~= self.data@.subrange(0, i as int));
        }
        assert(data@ =~= self.data@);
        RawMessage { t0: self.t0, t1: self.t1, data }
    }

    /// Returns the CAN identifier of the message
    pub fn id(&self) -> (r: Id)
        ensures
            r.is_extended_spec() == xtd_bit(self.t0),
            r.raw() == id_field(self.t0),
    {
        let t0 = self.t0;
        if t0 & 0x4000_0000 != 0 {
            let raw = t0 & 0x1fff_ffff;
            assert(t0 & 0x1fff_ffff <= 0x1fff_ffff) by (bit_vector);
            match ExtendedId::new(raw) {
                Some(e) => Id::Extended(e),
                None => Id::Extended(ExtendedId::new(0).unwrap()),
            }
        } else {
            let raw = (t0 >> 18) & 0x7ff;
            assert((t0 >> 18) & 0x7ff <= 0x7ff) by (bit_vector);
            match StandardId::new(raw as u16) {
                Some(s) => Id::Standard(s),
                None => Id::Standard(StandardId::new(0).unwrap()),
            }
        }
    }

    /// Data length in bytes
    pub fn decoded_dlc(&self) -> (r: usize)
        ensures
            r == dlc_len(dlc_field(self.t1), fdf_bit(self.t1)),
    {
        dlc_to_len(self.dlc(), self.fd_format())
    }

    /// Data length code
    pub fn dlc(&self) -> (r: u8)
        ensures
            r == dlc_field(self.t1),
    {
        ((self.t1 >> 16) & 0xf) as u8
    }

    /// True if the header indicates that the frame uses the CAN FD format
    pub fn fd_format(&self) -> (r: bool)
        ensures
            r == fdf_bit(self.t1),
    {
        self.t1 & 0x20_0000 != 0
    }

    /// Remote Transmission Request
    pub fn is_remote_frame(&self) -> (r: bool)
        ensures
            r == rtr_bit(self.t0),
    {
        self.t0 & 0x2000_0000 != 0
    }

    /// Data field
    pub fn data(&self) -> (r: Vec<u8>)
        ensures
            r@ == data_view(self.t0, self.t1, self.data@),
    {
        let mut out: Vec<u8> = Vec::new();
        if self.is_remote_frame() {
            return out;
        }
        let n = self.decoded_dlc();
        let end = if n <= self.data.len() {
            n
        } else {
            self.data.len()
        };
        let mut i: usize = 0;
        while i < end
            invariant
                end <= self.data.len(),
                i <= end,
                out@ == self.data@.subrange(0, i as int),
            decreases end - i,
        {
            out.push(self.data[i]);
            i = i + 1;
            assert(out@ =~= self.data@.subrange(0, i as int));
        }
        out
    }

    /// Check if the frame uses and extended (29-bit) ID
    pub fn is_extended(&self) -> (r: bool)
        ensures
            r == xtd_bit(self.t0),
    {
        self.t0 & 0x4000_0000 != 0
    }

    /// `true` if the sender of the message indicates that it is in "error
    /// passive" state.
    pub fn is_transmitter_error_passive(&self) -> (r: bool)
        ensures
            r == esi_bit(self.t0),
    {
        self.t0 & 0x8000_0000 != 0
    }

    /// `true` if bit rate switching is used
    pub fn bit_rate_switching(&self) -> (r: bool)
        ensures
            r == brs_bit(self.t1),
    {
        self.t1 & 0x10_0000 != 0
    }
}


/// CAN frame/message.
#[derive(Clone, Debug)]
pub enum Message {
    /// Message received from a CAN bus
    Rx(rx::Message),
    /// Message that may be transmitted to a CAN bus
    Tx(tx::Message),
}

impl Message {
    /// The message in the peripheral's representation.
    pub open spec fn raw_spec(&self) -> RawMessage {
        match self {
            Message::Rx(m) => m.0,
            Message::Tx(m) => m.0,
        }
    }

    /// The message in the peripheral's representation.
    pub fn raw(&self) -> (r: &RawMessage)
        ensures
            *r == self.raw_spec(),
    {
        match self {
            Message::Rx(m) => &m.0,
            Message::Tx(m) => &m.0,
        }
    }

    /// A classic data frame with `data` as payload, for a slot of `size`
    /// bytes; `None` when the payload does not fit.
    pub fn new(id: Id, data: Vec<u8>, size: DataFieldSize) -> (r: Option<Message>)
        ensures
            r is Some <==> data@.len() <= 8 && data@.len() <= size.bytes(),
            r matches Some(m) ==> m is Tx && m.raw_spec().t0 == (tx::MessageBuilder {
                id,
                frame_type: tx::FrameType::Classic(tx::ClassicFrameType::Data(data)),
                store_tx_event: None,
            }).header0(),
            r matches Some(m) ==> m.raw_spec().t1 == (tx::MessageBuilder {
                id,
                frame_type: tx::FrameType::Classic(tx::ClassicFrameType::Data(data)),
                store_tx_event: None,
            }).header1(),
            r matches Some(m) ==> m.raw_spec().data@ == tx::padded(data@, size.bytes()),
    {
        let b = tx::MessageBuilder {
            id,
            frame_type: tx::FrameType::Classic(tx::ClassicFrameType::Data(data)),
            store_tx_event: None,
        };
        match b.build(size) {
            Ok(m) => Some(Message::Tx(m)),
            Err(_) => None,
        }
    }

    /// A classic remote frame requesting `dlc` as data length code; `None`
    /// when `dlc` is above 15.
    pub fn new_remote(id: Id, dlc: usize, size: DataFieldSize) -> (r: Option<Message>)
        ensures
            r is Some <==> dlc <= 15,
            r matches Some(m) ==> m is Tx && rtr_bit(m.raw_spec().t0) && dlc_field(
                m.raw_spec().t1,
            ) == dlc_of_len(dlc_len(dlc as u8, false), false)->0,
            r matches Some(m) ==> m.raw_spec().t0 == (tx::MessageBuilder {
                id,
                frame_type: tx::FrameType::Classic(
                    tx::ClassicFrameType::Remote { desired_len: dlc_len(dlc as u8, false) as usize },
                ),
                store_tx_event: None,
            }).header0(),
            r matches Some(m) ==> m.raw_spec().t1 == (tx::MessageBuilder {
                id,
                frame_type: tx::FrameType::Classic(
                    tx::ClassicFrameType::Remote { desired_len: dlc_len(dlc as u8, false) as usize },
                ),
                store_tx_event: None,
            }).header1(),
            r matches Some(m) ==> xtd_bit(m.raw_spec().t0) == (id is Extended) && id_field(
                m.raw_spec().t0,
            ) == id.raw() && !fdf_bit(m.raw_spec().t1),
    {
        if dlc > 15 {
            return None;
        }
        // The identifier's raw value fits its kind.
        let _ = id.raw_value();
        let b = tx::MessageBuilder {
            id,
            frame_type: tx::FrameType::Classic(
                tx::ClassicFrameType::Remote { desired_len: dlc_to_len(dlc as u8, false) },
            ),
            store_tx_event: None,
        };
        let ghost gb = b;
        match b.build(size) {
            Ok(m) => {
                proof {
                    tx::lemma_header_fields(gb);
                }
                Some(Message::Tx(m))
            },
            Err(_) => None,
        }
    }

    /// Check if the frame uses and extended (29-bit) ID
    pub fn is_extended(&self) -> (r: bool)
        ensures
            r == xtd_bit(self.raw_spec().t0),
    {
        self.raw().is_extended()
    }

    /// Remote Transmission Request
    pub fn is_remote_frame(&self) -> (r: bool)
        ensures
            r == rtr_bit(self.raw_spec().t0),
    {
        self.raw().is_remote_frame()
    }

    /// Returns the CAN identifier of the message
    pub fn id(&self) -> (r: Id)
        ensures
            r.is_extended_spec() == xtd_bit(self.raw_spec().t0),
            r.raw() == id_field(self.raw_spec().t0),
    {
        self.raw().id()
    }

    /// Data length code
    pub fn dlc(&self) -> (r: usize)
        ensures
            r == dlc_field(self.raw_spec().t1),
    {
        self.raw().dlc() as usize
    }

    /// Data field
    pub fn data(&self) -> (r: Vec<u8>)
        ensures
            r@ == data_view(self.raw_spec().t0, self.raw_spec().t1, self.raw_spec().data@),
    {
        self.raw().data()
    }
}

} // verus!
