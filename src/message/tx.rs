//! Messages to be sent on the bus
use vstd::prelude::*;
use crate::id::Id;
use super::{
    bit_of, brs_bit, data_view, dlc_field, dlc_len, dlc_of_len, esi_bit, fdf_bit, id_field,
    len_to_dlc, rtr_bit, xtd_bit, DataFieldSize, RawMessage, TooMuchData,
};

verus! {

/// TX message in the peripheral's representation
#[derive(Clone, Debug)]
pub struct Message(pub RawMessage);

/// Selects the type of the Classic CAN frame.
#[derive(Clone, Debug)]
pub enum ClassicFrameType {
    /// 0-8 byte message payload
    Data(Vec<u8>),
    /// Requests transmission of the identified frame
    Remote {
        /// Length, in bytes, of the requested frame
        desired_len: usize,
    },
}

/// Selects frame type along with the valid payload type and configuration
/// specific to the chosen format.
#[derive(Clone, Debug)]
pub enum FrameType {
    /// Classic CAN
    Classic(ClassicFrameType),
    /// CAN FD frame. Note that the peripheral must be initialized with CAN FD
    /// enabled to support this format.
    FlexibleDatarate {
        /// 0-64 byte message payload; it must fit the slot width
        payload: Vec<u8>,
        /// Parts of the frame are transmitted at a higher bit rate.
        bit_rate_switching: bool,
        /// If `true`, the error state indicator of the message will indicate
        /// 'error passive'. If `false`, the actual state of the peripheral
        /// will be indicated.
        force_error_state_indicator: bool,
    },
}

/// Describes a CAN message/frame that is not yet converted to the
/// representation the peripheral understands.
#[derive(Clone, Debug)]
pub struct MessageBuilder {
    /// CAN identifier for the frame
    pub id: Id,
    /// Message frame type with a payload
    pub frame_type: FrameType,
    /// If `Some(marker)`, this message will store an event identified by
    /// `marker` in the TX event queue.
    pub store_tx_event: Option<u8>,
}

/// `p` followed by zeros up to `width` bytes.
pub open spec fn padded(p: Seq<u8>, width: nat) -> Seq<u8> {
    p + Seq::new((width - p.len()) as nat, |i: int| 0u8)
}

/// The identifier as it stands in bits 0 to 28 of the first header word.
pub open spec fn id_word(id: Id) -> u32 {
    match id {
        Id::Standard(s) => (s.raw() as u32) << 18,
        Id::Extended(e) => e.raw(),
    }
}

/// First header word from its fields.
pub open spec fn pack_t0(id_word: u32, rtr: bool, xtd: bool, esi: bool) -> u32 {
    id_word | (bit_of(rtr) << 29) | (bit_of(xtd) << 30) | (bit_of(esi) << 31)
}

/// Second header word of a TX message from its fields.
pub open spec fn pack_t1(dlc: u8, brs: bool, fdf: bool, efc: bool, mm: u8) -> u32 {
    ((dlc as u32) << 16) | (bit_of(brs) << 20) | (bit_of(fdf) << 21) | (bit_of(efc) << 23) | (
    (mm as u32) << 24)
}

impl View for Message {
    type V = (u32, u32, Seq<u8>);

    open spec fn view(&self) -> (u32, u32, Seq<u8>) {
        self.0@
    }
}

impl Message {
    /// A copy of the message.
    pub fn copy(&self) -> (r: Message)
        ensures
            r@ == self@,
    {
        Message(self.0.copy())
    }

    /// Returns the CAN identifier of the message
    pub fn id(&self) -> (r: Id)
        ensures
            r.is_extended_spec() == xtd_bit(self.0.t0),
            r.raw() == id_field(self.0.t0),
    {
        self.0.id()
    }

    /// Data length in bytes
    pub fn decoded_dlc(&self) -> (r: usize)
        ensures
            r == dlc_len(dlc_field(self.0.t1), fdf_bit(self.0.t1)),
    {
        self.0.decoded_dlc()
    }

    /// Data length code
    pub fn dlc(&self) -> (r: u8)
        ensures
            r == dlc_field(self.0.t1),
    {
        self.0.dlc()
    }

    /// True if the header indicates that the frame uses the CAN FD format
    pub fn fd_format(&self) -> (r: bool)
        ensures
            r == fdf_bit(self.0.t1),
    {
        self.0.fd_format()
    }

    /// Remote Transmission Request
    pub fn is_remote_frame(&self) -> (r: bool)
        ensures
            r == rtr_bit(self.0.t0),
    {
        self.0.is_remote_frame()
    }

    /// Data field
    pub fn data(&self) -> (r: Vec<u8>)
        ensures
            r@ == data_view(self.0.t0, self.0.t1, self.0.data@),
    {
        self.0.data()
    }

    /// Check if the frame uses and extended (29-bit) ID
    pub fn is_extended(&self) -> (r: bool)
        ensures
            r == xtd_bit(self.0.t0),
    {
        self.0.is_extended()
    }

    /// `true` if the sender of the message indicates that it is in "error
    /// passive" state.
    pub fn is_transmitter_error_passive(&self) -> (r: bool)
        ensures
            r == esi_bit(self.0.t0),
    {
        self.0.is_transmitter_error_passive()
    }

    /// `true` if bit rate switching is used
    pub fn bit_rate_switching(&self) -> (r: bool)
        ensures
            r == brs_bit(self.0.t1),
    {
        self.0.bit_rate_switching()
    }
}

impl MessageBuilder {
    /// Payload bytes to be copied into the slot.
    pub open spec fn payload(self) -> Seq<u8> {
        match self.frame_type {
            FrameType::Classic(ClassicFrameType::Data(p)) => p@,
            FrameType::Classic(ClassicFrameType::Remote { .. }) => Seq::empty(),
            FrameType::FlexibleDatarate { payload, .. } => payload@,
        }
    }

    /// Length the data length code has to encode.
    pub open spec fn frame_len(self) -> nat {
        match self.frame_type {
            FrameType::Classic(ClassicFrameType::Data(p)) => p@.len(),
            FrameType::Classic(ClassicFrameType::Remote { desired_len }) => desired_len as nat,
            FrameType::FlexibleDatarate { payload, .. } => payload@.len(),
        }
    }

    /// CAN FD format.
    pub open spec fn fdf(self) -> bool {
        self.frame_type is FlexibleDatarate
    }

    /// Remote transmission request.
    pub open spec fn rtr(self) -> bool {
        self.frame_type matches FrameType::Classic(ClassicFrameType::Remote { .. })
    }

    /// Bit rate switching.
    pub open spec fn brs(self) -> bool {
        match self.frame_type {
            FrameType::FlexibleDatarate { bit_rate_switching, .. } => bit_rate_switching,
            _ => false,
        }
    }

    /// Forced error state indicator.
    pub open spec fn esi(self) -> bool {
        match self.frame_type {
            FrameType::FlexibleDatarate { force_error_state_indicator, .. } =>
                force_error_state_indicator,
            _ => false,
        }
    }

    /// The message can be built for a slot of `width` bytes.
    pub open spec fn fits(self, width: nat) -> bool {
        self.payload().len() <= width && dlc_of_len(self.frame_len(), self.fdf()) is Some
    }

    /// Data length code of the built message.
    pub open spec fn dlc(self) -> u8 {
        match dlc_of_len(self.frame_len(), self.fdf()) {
            Some(d) => d,
            None => 0,
        }
    }

    /// First header word of the built message.
    pub open spec fn header0(self) -> u32 {
        pack_t0(id_word(self.id), self.rtr(), self.id is Extended, self.esi())
    }

    /// Second header word of the built message.
    pub open spec fn header1(self) -> u32 {
        pack_t1(
            self.dlc(),
            self.brs(),
            self.fdf(),
            self.store_tx_event is Some,
            match self.store_tx_event {
                Some(m) => m,
                None => 0,
            },
        )
    }

    /// Create the message in the format required by the peripheral, for a
    /// slot of `size` payload bytes.
    pub fn build(self, size: DataFieldSize) -> (r: Result<Message, TooMuchData>)
        ensures
            r is Ok <==> self.fits(size.bytes()),
            r matches Ok(m) ==> {
                &&& m.0.t0 == self.header0()
                &&& m.0.t1 == self.header1()
                &&& m.0.data@ == padded(self.payload(), size.bytes())
            },
    {
        let width = size.len();
        let ghost this = self;
        let (id_word, xtd): (u32, bool) = match &self.id {
            Id::Standard(s) => ((s.as_raw() as u32) << 18, false),
            Id::Extended(e) => (e.as_raw(), true),
        };
        let (fdf, brs, esi, rtr, len, payload): (bool, bool, bool, bool, usize, Vec<u8>) =
            match self.frame_type {
            FrameType::Classic(ClassicFrameType::Data(p)) => {
                let n = p.len();
                (false, false, false, false, n, p)
            },
            FrameType::Classic(ClassicFrameType::Remote { desired_len }) => {
                (false, false, false, true, desired_len, Vec::new())
            },
            FrameType::FlexibleDatarate {
                payload,
                bit_rate_switching,
                force_error_state_indicator,
            } => {
                let n = payload.len();
                (true, bit_rate_switching, force_error_state_indicator, false, n, payload)
            },
        };
        assert(payload@ == this.payload());
        if payload.len() > width {
            return Err(TooMuchData);
        }
        let dlc = match len_to_dlc(len, fdf) {
            Ok(d) => d,
            Err(e) => {
                return Err(e);
            },
        };
        let mut data: Vec<u8> = Vec::new();
        let mut i: usize = 0;
        while i < width
            invariant
                payload.len() <= width,
                width == size.bytes(),
                i <= width,
                data@ =~= padded(payload@, size.bytes()).subrange(0, i as int),
            decreases width - i,
        {
            if i < payload.len() {
                data.push(payload[i]);
            } else {
                data.push(0);
            }
            i = i + 1;
        }
        assert(data@ =~= padded(payload@, size.bytes()));
        let efc = self.store_tx_event.is_some();
        let mm: u8 = match self.store_tx_event {
            Some(m) => m,
            None => 0,
        };
        let rtr_b: u32 = if rtr {
            1
        } else {
            0
        };
        let xtd_b: u32 = if xtd {
            1
        } else {
            0
        };
        let esi_b: u32 = if esi {
            1
        } else {
            0
        };
        let brs_b: u32 = if brs {
            1
        } else {
            0
        };
        let fdf_b: u32 = if fdf {
            1
        } else {
            0
        };
        let efc_b: u32 = if efc {
            1
        } else {
            0
        };
        let t0 = id_word | (rtr_b << 29) | (xtd_b << 30) | (esi_b << 31);
        let t1 = ((dlc as u32) << 16) | (brs_b << 20) | (fdf_b << 21) | (efc_b << 23) | ((
        mm as u32) << 24);
        Ok(Message(RawMessage { t0, t1, data }))
    }
}

proof fn lemma_t0_fields(id_word: u32, rtr: u32, xtd: u32, esi: u32, t0: u32)
    by (bit_vector)
    requires
        id_word <= 0x1fff_ffff,
        rtr <= 1,
        xtd <= 1,
        esi <= 1,
        t0 == id_word | (rtr << 29) | (xtd << 30) | (esi << 31),
    ensures
        t0 & 0x1fff_ffff == id_word,
        (t0 & 0x2000_0000 != 0) == (rtr == 1),
        (t0 & 0x4000_0000 != 0) == (xtd == 1),
        (t0 & 0x8000_0000 != 0) == (esi == 1),
        (t0 >> 18) & 0x7ff == (id_word >> 18) & 0x7ff,
{
}

proof fn lemma_standard_word(s: u32)
    by (bit_vector)
    requires
        s <= 0x7ff,
    ensures
        (s << 18) <= 0x1fff_ffff,
        ((s << 18) >> 18) & 0x7ff == s,
{
}

proof fn lemma_t1_fields(dlc: u32, brs: u32, fdf: u32, efc: u32, mm: u32, t1: u32)
    by (bit_vector)
    requires
        dlc <= 15,
        brs <= 1,
        fdf <= 1,
        efc <= 1,
        mm <= 0xff,
        t1 == (dlc << 16) | (brs << 20) | (fdf << 21) | (efc << 23) | (mm << 24),
    ensures
        (t1 >> 16) & 0xf == dlc,
        (t1 & 0x10_0000 != 0) == (brs == 1),
        (t1 & 0x20_0000 != 0) == (fdf == 1),
        (t1 & 0x80_0000 != 0) == (efc == 1),
        t1 >> 24 == mm,
{
}

proof fn lemma_dlc_covers(len: nat, fd_format: bool)
    requires
        dlc_of_len(len, fd_format) is Some,
    ensures
        dlc_len(dlc_of_len(len, fd_format)->0, fd_format) >= len,
        dlc_of_len(len, fd_format)->0 <= 15,
{
}

/// The header fields of a built message decode to what the builder holds.
pub proof fn lemma_header_fields(b: MessageBuilder)
    requires
        b.id.valid(),
        dlc_of_len(b.frame_len(), b.fdf()) is Some,
    ensures
        xtd_bit(b.header0()) == (b.id is Extended),
        id_field(b.header0()) == b.id.raw(),
        fdf_bit(b.header1()) == b.fdf(),
        rtr_bit(b.header0()) == b.rtr(),
        esi_bit(b.header0()) == b.esi(),
        brs_bit(b.header1()) == b.brs(),
        dlc_field(b.header1()) == b.dlc(),
        dlc_len(b.dlc(), b.fdf()) >= b.frame_len(),
{
    let w = id_word(b.id);
    if let Id::Standard(s) = b.id {
        lemma_standard_word(s.raw() as u32);
    }
    lemma_t0_fields(w, bit_of(b.rtr()), bit_of(b.id is Extended), bit_of(b.esi()), b.header0());
    lemma_dlc_covers(b.frame_len(), b.fdf());
    let mm: u8 = match b.store_tx_event {
        Some(m) => m,
        None => 0,
    };
    lemma_t1_fields(
        b.dlc() as u32,
        bit_of(b.brs()),
        bit_of(b.fdf()),
        bit_of(b.store_tx_event is Some),
        mm as u32,
        b.header1(),
    );
}

/// Building a message and decoding its header and payload gives back the
/// identifier, its kind, the FD flag and the payload; where the payload length
/// is not one the data length code can state exactly, the decoded payload is
/// the given one followed by zero padding.
pub proof fn lemma_build_round_trip(b: MessageBuilder, size: DataFieldSize)
    requires
        b.id.valid(),
        b.fits(size.bytes()),
    ensures
        xtd_bit(b.header0()) == (b.id is Extended),
        id_field(b.header0()) == b.id.raw(),
        fdf_bit(b.header1()) == b.fdf(),
        rtr_bit(b.header0()) == b.rtr(),
        esi_bit(b.header0()) == b.esi(),
        brs_bit(b.header1()) == b.brs(),
        dlc_field(b.header1()) == b.dlc(),
        data_view(b.header0(), b.header1(), padded(b.payload(), size.bytes())).subrange(
            0,
            b.payload().len() as int,
        ) == b.payload(),
        dlc_len(b.dlc(), b.fdf()) == b.frame_len() ==> data_view(
            b.header0(),
            b.header1(),
            padded(b.payload(), size.bytes()),
        ) == b.payload(),
{
    lemma_header_fields(b);
    let data = padded(b.payload(), size.bytes());
    assert(data.subrange(0, b.payload().len() as int) =~= b.payload());
    if !b.rtr() {
        let n = dlc_len(b.dlc(), b.fdf());
        let end = if n <= data.len() {
            n as int
        } else {
            data.len() as int
        };
        assert(data.subrange(0, end).subrange(0, b.payload().len() as int) =~= b.payload());
    }
}

} // verus!
