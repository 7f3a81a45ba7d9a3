//! Messages received from the bus.
use vstd::prelude::*;
use crate::id::Id;
use super::{
    brs_bit, data_view, dlc_field, dlc_len, esi_bit, fdf_bit, id_field, rtr_bit, xtd_bit, RawMessage,
    dlc_to_len,
};
use super::tx::{ClassicFrameType, FrameType, MessageBuilder};

verus! {

/// RX message in the peripheral's representation
#[derive(Clone, Debug)]
pub struct Message(pub RawMessage);

/// Accepted non-matching frame flag (ANMF) of the second header word.
pub open spec fn anmf_bit(r1: u32) -> bool {
    r1 & 0x8000_0000 != 0
}

/// Filter index field (FIDX) of the second header word.
pub open spec fn fidx_field(r1: u32) -> u8 {
    ((r1 >> 24) & 0x7f) as u8
}

impl View for Message {
    type V = (u32, u32, Seq<u8>);

    open spec fn view(&self) -> (u32, u32, Seq<u8>) {
        self.0@
    }
}

impl Message {
    /// A copy of the message.
    pub fn copy(&self) -> (r: Message)
        ensures
            r@ == self@,
    {
        Message(self.0.copy())
    }

    /// Returns the CAN identifier of the message
    pub fn id(&self) -> (r: Id)
        ensures
            r.is_extended_spec() == xtd_bit(self.0.t0),
            r.raw() == id_field(self.0.t0),
    {
        self.0.id()
    }

    /// Data length in bytes
    pub fn decoded_dlc(&self) -> (r: usize)
        ensures
            r == dlc_len(dlc_field(self.0.t1), fdf_bit(self.0.t1)),
    {
        self.0.decoded_dlc()
    }

    /// Data length code
    pub fn dlc(&self) -> (r: u8)
        ensures
            r == dlc_field(self.0.t1),
    {
        self.0.dlc()
    }

    /// True if the header indicates that the frame uses the CAN FD format
    pub fn fd_format(&self) -> (r: bool)
        ensures
            r == fdf_bit(self.0.t1),
    {
        self.0.fd_format()
    }

    /// Remote Transmission Request
    pub fn is_remote_frame(&self) -> (r: bool)
        ensures
            r == rtr_bit(self.0.t0),
    {
        self.0.is_remote_frame()
    }

    /// Data field
    pub fn data(&self) -> (r: Vec<u8>)
        ensures
            r@ == data_view(self.0.t0, self.0.t1, self.0.data@),
    {
        self.0.data()
    }

    /// Check if the frame uses and extended (29-bit) ID
    pub fn is_extended(&self) -> (r: bool)
        ensures
            r == xtd_bit(self.0.t0),
    {
        self.0.is_extended()
    }

    /// `true` if the sender of the message indicates that it is in "error
    /// passive" state.
    pub fn is_transmitter_error_passive(&self) -> (r: bool)
        ensures
            r == esi_bit(self.0.t0),
    {
        self.0.is_transmitter_error_passive()
    }

    /// `true` if bit rate switching is used
    pub fn bit_rate_switching(&self) -> (r: bool)
        ensures
            r == brs_bit(self.0.t1),
    {
        self.0.bit_rate_switching()
    }

    /// Timestamp counter value captured on start of frame reception
    pub fn timestamp(&self) -> (r: u16)
        ensures
            r == self.0.t1 as u16,
    {
        self.0.t1 as u16
    }

    /// Index of the filter that accepted the frame. `None` if no filter
    /// matched, but the message was accepted due to peripheral-wide settings.
    pub fn filter_index(&self) -> (r: Option<u8>)
        ensures
            r is None <==> anmf_bit(self.0.t1),
            r matches Some(i) ==> i == fidx_field(self.0.t1),
    {
        if self.accepted_non_matching_frame() {
            None
        } else {
            Some(((self.0.t1 >> 24) & 0x7f) as u8)
        }
    }

    /// `true` if no filter matched, but the message was accepted due to
    /// peripheral-wide settings. See also [`Self::filter_index`]
    pub fn accepted_non_matching_frame(&self) -> (r: bool)
        ensures
            r == anmf_bit(self.0.t1),
    {
        self.0.t1 & 0x8000_0000 != 0
    }

    /// Create a transmission object from rx object: same identifier, format
    /// and payload; no TX event is requested.
    pub fn as_tx_builder(&self) -> (r: MessageBuilder)
        ensures
            r.id.raw() == id_field(self.0.t0),
            r.id.is_extended_spec() == xtd_bit(self.0.t0),
            r.store_tx_event is None,
            r.fdf() == fdf_bit(self.0.t1),
            fdf_bit(self.0.t1) ==> r.brs() == brs_bit(self.0.t1) && !r.esi(),
            r.rtr() == (!fdf_bit(self.0.t1) && rtr_bit(self.0.t0)),
            r.rtr() ==> r.frame_len() == dlc_len(dlc_field(self.0.t1), false),
            !r.rtr() ==> r.payload() == data_view(self.0.t0, self.0.t1, self.0.data@),
    {
        let frame_type = if self.fd_format() {
            FrameType::FlexibleDatarate {
                payload: self.data(),
                bit_rate_switching: self.bit_rate_switching(),
                force_error_state_indicator: false,
            }
        } else if self.is_remote_frame() {
            FrameType::Classic(
                ClassicFrameType::Remote { desired_len: dlc_to_len(self.dlc(), false) },
            )
        } else {
            FrameType::Classic(ClassicFrameType::Data(self.data()))
        };
        MessageBuilder { id: self.id(), frame_type, store_tx_event: None }
    }
}

} // verus!
