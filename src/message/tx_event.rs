//! Events for messages sent on the bus
use vstd::prelude::*;
use crate::id::Id;
use super::{
    brs_bit, data_view, dlc_field, dlc_len, esi_bit, fdf_bit, id_field, rtr_bit, xtd_bit, RawMessage,
};

verus! {

/// TX event in the peripheral's representation: the header of a transmitted
/// message, without payload.
#[derive(Clone, Debug)]
pub struct TxEvent(pub RawMessage);

/// Indicates whether cancellation was requested at the time transmission
/// succeeded
#[derive(Clone, Copy, Debug, PartialEq, Eq, Structural)]
pub enum TxEventType {
    /// Unrecognized field value
    Reserved,
    /// Transmission was successful
    TxEvent,
    /// Transmission was successful AND cancellation was requested
    ///
    /// This can happen if transmission had already started when the
    /// cancellation request was made.
    TxInSpiteOfCancellation,
}

/// Event type named by the value of the event type field.
pub open spec fn event_type_of(value: u32) -> TxEventType {
    if value == 1 {
        TxEventType::TxEvent
    } else if value == 2 {
        TxEventType::TxInSpiteOfCancellation
    } else {
        TxEventType::Reserved
    }
}

impl TxEventType {
    /// Parses the value of the event type field.
    pub fn from(value: u32) -> (r: TxEventType)
        ensures
            r == event_type_of(value),
    {
        if value == 1 {
            TxEventType::TxEvent
        } else if value == 2 {
            TxEventType::TxInSpiteOfCancellation
        } else {
            TxEventType::Reserved
        }
    }
}

impl View for TxEvent {
    type V = (u32, u32, Seq<u8>);

    open spec fn view(&self) -> (u32, u32, Seq<u8>) {
        self.0@
    }
}

impl TxEvent {
    /// A copy of the message.
    pub fn copy(&self) -> (r: TxEvent)
        ensures
            r@ == self@,
    {
        TxEvent(self.0.copy())
    }

    /// Returns the CAN identifier of the message
    pub fn id(&self) -> (r: Id)
        ensures
            r.is_extended_spec() == xtd_bit(self.0.t0),
            r.raw() == id_field(self.0.t0),
    {
        self.0.id()
    }

    /// Data length in bytes
    pub fn decoded_dlc(&self) -> (r: usize)
        ensures
            r == dlc_len(dlc_field(self.0.t1), fdf_bit(self.0.t1)),
    {
        self.0.decoded_dlc()
    }

    /// Data length code
    pub fn dlc(&self) -> (r: u8)
        ensures
            r == dlc_field(self.0.t1),
    {
        self.0.dlc()
    }

    /// True if the header indicates that the frame uses the CAN FD format
    pub fn fd_format(&self) -> (r: bool)
        ensures
            r == fdf_bit(self.0.t1),
    {
        self.0.fd_format()
    }

    /// Remote Transmission Request
    pub fn is_remote_frame(&self) -> (r: bool)
        ensures
            r == rtr_bit(self.0.t0),
    {
        self.0.is_remote_frame()
    }

    /// Data field
    pub fn data(&self) -> (r: Vec<u8>)
        ensures
            r@ == data_view(self.0.t0, self.0.t1, self.0.data@),
    {
        self.0.data()
    }

    /// Check if the frame uses and extended (29-bit) ID
    pub fn is_extended(&self) -> (r: bool)
        ensures
            r == xtd_bit(self.0.t0),
    {
        self.0.is_extended()
    }

    /// `true` if the sender of the message indicates that it is in "error
    /// passive" state.
    pub fn is_transmitter_error_passive(&self) -> (r: bool)
        ensures
            r == esi_bit(self.0.t0),
    {
        self.0.is_transmitter_error_passive()
    }

    /// `true` if bit rate switching is used
    pub fn bit_rate_switching(&self) -> (r: bool)
        ensures
            r == brs_bit(self.0.t1),
    {
        self.0.bit_rate_switching()
    }

    /// Returns the message marker that was set in the builder's
    /// `store_tx_event`
    pub fn message_marker(&self) -> (r: u8)
        ensures
            r == (self.0.t1 >> 24) as u8,
    {
        (self.0.t1 >> 24) as u8
    }

    /// Parse the event type field. Indicates whether cancellation was requested
    /// at the time transmission succeeded.
    pub fn event_type(&self) -> (r: TxEventType)
        ensures
            r == event_type_of((self.0.t1 >> 22) & 3),
    {
        TxEventType::from((self.0.t1 >> 22) & 3)
    }
}

} // verus!
