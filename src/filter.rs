//! Message acceptance filters and their table in Message RAM.
use vstd::prelude::*;
use crate::id::{ExtendedId, StandardId};

verus! {

/// 11-bit filter in the peripheral's representation
#[derive(Clone, Copy, Debug, PartialEq, Eq, Structural)]
pub struct FilterStandardId(pub u32);

/// 29-bit filter in the peripheral's representation: two words
#[derive(Clone, Copy, Debug, PartialEq, Eq, Structural)]
pub struct FilterExtendedId(pub u32, pub u32);

/// Filter element configurations
#[derive(Clone, Copy, Debug, PartialEq, Eq, Structural)]
pub enum Action {
    /// Store in RX FIFO 0 if filter matches
    StoreFifo0,
    /// Store in RX FIFO 1 if filter matches
    StoreFifo1,
    /// Reject ID if filter matches
    Reject,
    /// Set priority if filter matches
    Priority,
    /// Set priority and store in FIFO 0 if filter matches
    PriorityFifo0,
    /// Set priority and store in FIFO 1 if filter matches
    PriorityFifo1,
}

/// Store buffer message types
#[derive(Clone, Copy, Debug, PartialEq, Eq, Structural)]
pub enum SbMsgType {
    /// Store into RX buffer slot pointed to by id
    RxBuffer,
    /// Debug message A
    DebugA,
    /// Debug message B
    DebugB,
    /// Debug message C
    DebugC,
}

/// Message filter field for 11-bit RX messages
#[derive(Clone, Copy, Debug, PartialEq, Eq, Structural)]
pub enum Filter {
    /// The filter is skipped
    Disabled,
    /// Range filter from low to high IDs
    Range {
        /// Action to take on a matched element
        action: Action,
        /// Lower filter limit
        low: StandardId,
        /// Upper filter limit
        high: StandardId,
    },
    /// Filter for two IDs
    Dual {
        /// Action to take on a matched element
        action: Action,
        /// Individual filter 1
        id1: StandardId,
        /// Individual filter 2
        id2: StandardId,
    },
    /// Traditional filter/mask CAN filter
    Classic {
        /// Action to take on a matched element
        action: Action,
        /// ID filter
        filter: StandardId,
        /// ID mask
        mask: StandardId,
    },
    /// Store into RX buffer or as debug message (ignores filter type)
    StoreBuffer {
        /// 11-bit filter ID 1
        id: StandardId,
        /// Special message type for StoreRxBuffer
        msg_type: SbMsgType,
        /// Offset to Rx buffer SA for
        offset: u8,
    },
}

/// Message filter field for 29-bit RX messages
#[derive(Clone, Copy, Debug, PartialEq, Eq, Structural)]
pub enum ExtFilter {
    /// The filter is skipped
    Disabled,
    /// Range filter from low to high IDs with the extended ID mask applied
    MaskedRange {
        /// Action to take on a matched element
        action: Action,
        /// Lower filter limit
        low: ExtendedId,
        /// Upper filter limit
        high: ExtendedId,
    },
    /// Filter for two IDs
    Dual {
        /// Action to take on a matched element
        action: Action,
        /// Individual filter 1
        id1: ExtendedId,
        /// Individual filter 2
        id2: ExtendedId,
    },
    /// Traditional filter/mask CAN filter
    Classic {
        /// Action to take on a matched element
        action: Action,
        /// ID filter
        filter: ExtendedId,
        /// ID mask
        mask: ExtendedId,
    },
    /// Range filter from low to high IDs without the extended ID mask
    Range {
        /// Action to take on a matched element
        action: Action,
        /// Lower filter limit
        low: ExtendedId,
        /// Upper filter limit
        high: ExtendedId,
    },
    /// Store into RX buffer or as debug message (ignores filter type)
    StoreBuffer {
        /// 29-bit filter ID 1
        id: ExtendedId,
        /// Special message type for StoreRxBuffer
        msg_type: SbMsgType,
        /// Offset to Rx buffer SA for
        offset: u8,
    },
}

impl SbMsgType {
    /// Field value of the message type.
    pub open spec fn code_spec(self) -> u32 {
        match self {
            SbMsgType::RxBuffer => 0,
            SbMsgType::DebugA => 1,
            SbMsgType::DebugB => 2,
            SbMsgType::DebugC => 3,
        }
    }

    /// Field value of the message type.
    pub fn code(&self) -> (r: u32)
        ensures
            r == self.code_spec(),
    {
        match self {
            SbMsgType::RxBuffer => 0,
            SbMsgType::DebugA => 1,
            SbMsgType::DebugB => 2,
            SbMsgType::DebugC => 3,
        }
    }

    /// Store into the RX buffer.
    pub fn default() -> (r: Self)
        ensures
            r == SbMsgType::RxBuffer,
    {
        SbMsgType::RxBuffer
    }
}

impl Action {
    /// Filter element configuration field value of the action.
    pub open spec fn code_spec(self) -> u32 {
        match self {
            Action::StoreFifo0 => 1,
            Action::StoreFifo1 => 2,
            Action::Reject => 3,
            Action::Priority => 4,
            Action::PriorityFifo0 => 5,
            Action::PriorityFifo1 => 6,
        }
    }

    /// Filter element configuration field value of the action.
    pub fn code(&self) -> (r: u32)
        ensures
            r == self.code_spec(),
            1 <= r <= 6,
    {
        match self {
            Action::StoreFifo0 => 1,
            Action::StoreFifo1 => 2,
            Action::Reject => 3,
            Action::Priority => 4,
            Action::PriorityFifo0 => 5,
            Action::PriorityFifo1 => 6,
        }
    }
}

/// Standard filter word from its fields: filter type (SFT), element
/// configuration (SFEC), first and second identifier (SFID1, SFID2).
pub open spec fn std_word(sft: u32, sfec: u32, sfid1: u32, sfid2: u32) -> u32 {
    sfid2 | (sfid1 << 16) | (sfec << 27) | (sft << 30)
}

/// Standard filter word of `f`.
pub open spec fn encode_standard(f: Filter) -> u32 {
    match f {
        Filter::Disabled => 0,
        Filter::Range { action, low, high } => std_word(
            0,
            action.code_spec(),
            low.raw() as u32,
            high.raw() as u32,
        ),
        Filter::Dual { action, id1, id2 } => std_word(
            1,
            action.code_spec(),
            id1.raw() as u32,
            id2.raw() as u32,
        ),
        Filter::Classic { action, filter, mask } => std_word(
            2,
            action.code_spec(),
            filter.raw() as u32,
            mask.raw() as u32,
        ),
        Filter::StoreBuffer { id, msg_type, offset } => ((id.raw() as u32) << 16) | (
        msg_type.code_spec() << 9) | (offset as u32) | (7u32 << 27),
    }
}

/// Extended filter words of `f`: element configuration (EFEC) and first
/// identifier in the first word, filter type (EFT) and second identifier in
/// the second.
pub open spec fn encode_extended(f: ExtFilter) -> (u32, u32) {
    match f {
        ExtFilter::Disabled => (0, 0),
        ExtFilter::MaskedRange { action, low, high } => (
            (action.code_spec() << 29) | low.raw(),
            high.raw(),
        ),
        ExtFilter::Dual { action, id1, id2 } => (
            (action.code_spec() << 29) | id1.raw(),
            (1u32 << 30) | id2.raw(),
        ),
        ExtFilter::Classic { action, filter, mask } => (
            (action.code_spec() << 29) | filter.raw(),
            (2u32 << 30) | mask.raw(),
        ),
        ExtFilter::Range { action, low, high } => (
            (action.code_spec() << 29) | low.raw(),
            (3u32 << 30) | high.raw(),
        ),
        ExtFilter::StoreBuffer { id, msg_type, offset } => (
            (7u32 << 29) | id.raw(),
            (msg_type.code_spec() << 9) | (offset as u32),
        ),
    }
}

impl FilterStandardId {
    /// The filter in the peripheral's representation.
    pub fn from(val: Filter) -> (r: Self)
        ensures
            r.0 == encode_standard(val),
    {
        let v = match val {
            Filter::Disabled => 0,
            Filter::Range { action, high, low } => {
                let action = action.code();
                (high.as_raw() as u32) | ((low.as_raw() as u32) << 16) | (action << 27) | (
                0u32 << 30)
            },
            Filter::Dual { action, id1, id2 } => {
                let action = action.code();
                (id2.as_raw() as u32) | ((id1.as_raw() as u32) << 16) | (action << 27) | (1u32
                    << 30)
            },
            Filter::Classic { action, filter, mask } => {
                let action = action.code();
                (mask.as_raw() as u32) | ((filter.as_raw() as u32) << 16) | (action << 27) | (
                2u32 << 30)
            },
            Filter::StoreBuffer { id, msg_type, offset } => ((id.as_raw() as u32) << 16) | (
            msg_type.code() << 9) | (offset as u32) | (7u32 << 27),
        };
        FilterStandardId(v)
    }
}

impl FilterExtendedId {
    /// The filter in the peripheral's representation.
    pub fn from(val: ExtFilter) -> (r: Self)
        ensures
            (r.0, r.1) == encode_extended(val),
    {
        let (v1, v2) = match val {
            ExtFilter::Disabled => (0, 0),
            ExtFilter::MaskedRange { action, high, low } => {
                let action = action.code();
                ((action << 29) | low.as_raw(), high.as_raw())
            },
            ExtFilter::Dual { action, id1, id2 } => {
                let action = action.code();
                ((action << 29) | id1.as_raw(), (1u32 << 30) | id2.as_raw())
            },
            ExtFilter::Classic { action, filter, mask } => {
                let action = action.code();
                ((action << 29) | filter.as_raw(), (2u32 << 30) | mask.as_raw())
            },
            ExtFilter::Range { action, high, low } => {
                let action = action.code();
                ((action << 29) | low.as_raw(), (3u32 << 30) | high.as_raw())
            },
            ExtFilter::StoreBuffer { id, msg_type, offset } => (
                (7u32 << 29) | id.as_raw(),
                (msg_type.code() << 9) | (offset as u32),
            ),
        };
        FilterExtendedId(v1, v2)
    }
}


/// Acceptance filters for incoming messages: the filter table in Message RAM
/// and the number of entries pushed so far. Entries are only appended, so the
/// index of an entry is its place in the order in which the peripheral scans
/// the table.
pub struct Filters<T> {
    memory: Vec<T>,
    len: usize,
}

/// Table of standard filters
pub type FiltersStandard = Filters<FilterStandardId>;

/// Table of extended filters
pub type FiltersExtended = Filters<FilterExtendedId>;

impl<T> Filters<T> {
    /// Table contents.
    pub closed spec fn memory_spec(self) -> Seq<T> {
        self.memory@
    }

    /// Number of entries pushed.
    pub closed spec fn len_spec(self) -> nat {
        self.len as nat
    }

    /// Takes over a filter table whose entries are all disabled (zeroed).
    pub fn new(memory: Vec<T>) -> (r: Self)
        ensures
            r.memory_spec() == memory@,
            r.len_spec() == 0,
    {
        Filters { memory, len: 0 }
    }

    /// Number of entries pushed.
    pub fn len(&self) -> (r: usize)
        ensures
            r == self.len_spec(),
    {
        self.len
    }

    /// Number of entries the table holds.
    pub fn capacity(&self) -> (r: usize)
        ensures
            r == self.memory_spec().len(),
    {
        self.memory.len()
    }

    /// Overwrites the entry at `index`. Returns back the `element` if the
    /// `index` is out of range.
    fn set(&mut self, index: usize, element: T) -> (r: Result<(), T>)
        ensures
            r is Ok <==> index < old(self).memory_spec().len(),
            r matches Err(e) ==> e == element && *final(self) == *old(self),
            r is Ok ==> final(self).memory_spec() == old(self).memory_spec().update(
                index as int,
                element,
            ),
            final(self).len_spec() == old(self).len_spec(),
    {
        if index < self.memory.len() {
            self.memory.set(index, element);
            Ok(())
        } else {
            Err(element)
        }
    }
}

impl Filters<FilterStandardId> {
    /// Appends a `filter` to the back of the list. Returns the assigned index
    /// if successful. Returns back the `filter` if the list is full.
    pub fn push(&mut self, filter: Filter) -> (r: Result<usize, Filter>)
        ensures
            r is Ok <==> old(self).len_spec() < old(self).memory_spec().len(),
            r matches Err(f) ==> f == filter && *final(self) == *old(self),
            r matches Ok(i) ==> {
                &&& i == old(self).len_spec()
                &&& final(self).len_spec() == old(self).len_spec() + 1
                &&& final(self).memory_spec() == old(self).memory_spec().update(
                    i as int,
                    FilterStandardId(encode_standard(filter)),
                )
            },
    {
        let index = self.len;
        let capacity = self.memory.len();
        match self.set(index, FilterStandardId::from(filter)) {
            Ok(()) => {
                assert(index < capacity);
                self.len = index + 1;
                Ok(index)
            },
            Err(_) => Err(filter),
        }
    }
}

impl Filters<FilterExtendedId> {
    /// Appends a `filter` to the back of the list. Returns the assigned index
    /// if successful. Returns back the `filter` if the list is full.
    pub fn push(&mut self, filter: ExtFilter) -> (r: Result<usize, ExtFilter>)
        ensures
            r is Ok <==> old(self).len_spec() < old(self).memory_spec().len(),
            r matches Err(f) ==> f == filter && *final(self) == *old(self),
            r matches Ok(i) ==> {
                &&& i == old(self).len_spec()
                &&& final(self).len_spec() == old(self).len_spec() + 1
                &&& final(self).memory_spec() == old(self).memory_spec().update(
                    i as int,
                    FilterExtendedId(encode_extended(filter).0, encode_extended(filter).1),
                )
            },
    {
        let index = self.len;
        let capacity = self.memory.len();
        match self.set(index, FilterExtendedId::from(filter)) {
            Ok(()) => {
                assert(index < capacity);
                self.len = index + 1;
                Ok(index)
            },
            Err(_) => Err(filter),
        }
    }
}

/// How the peripheral reads a standard filter word: whether it matches the
/// 11-bit identifier `id`.
pub open spec fn std_word_matches(word: u32, id: u32) -> bool {
    let sft = word >> 30;
    let sfec = (word >> 27) & 7;
    let id1 = (word >> 16) & 0x7ff;
    let id2 = word & 0x7ff;
    if sfec == 0 {
        false
    } else if sfec == 7 {
        id == id1
    } else if sft == 0 {
        id1 <= id && id <= id2
    } else if sft == 1 {
        id == id1 || id == id2
    } else if sft == 2 {
        id & id2 == id1 & id2
    } else {
        false
    }
}

/// What a filter means: whether it matches the 11-bit identifier `id`.
pub open spec fn filter_matches(f: Filter, id: u32) -> bool {
    match f {
        Filter::Disabled => false,
        Filter::Range { low, high, .. } => low.raw() <= id && id <= high.raw(),
        Filter::Dual { id1, id2, .. } => id == id1.raw() || id == id2.raw(),
        Filter::Classic { filter, mask, .. } => id & (mask.raw() as u32) == (filter.raw() as u32)
            & (mask.raw() as u32),
        Filter::StoreBuffer { id: sid, .. } => id == sid.raw(),
    }
}

/// Every identifier of the filter fits in 11 bits.
pub open spec fn filter_valid(f: Filter) -> bool {
    match f {
        Filter::Disabled => true,
        Filter::Range { low, high, .. } => low.raw() <= 0x7ff && high.raw() <= 0x7ff,
        Filter::Dual { id1, id2, .. } => id1.raw() <= 0x7ff && id2.raw() <= 0x7ff,
        Filter::Classic { filter, mask, .. } => filter.raw() <= 0x7ff && mask.raw() <= 0x7ff,
        Filter::StoreBuffer { id, .. } => id.raw() <= 0x7ff,
    }
}

proof fn lemma_std_word_fields(sft: u32, sfec: u32, id1: u32, id2: u32)
    by (bit_vector)
    requires
        sft <= 3,
        sfec <= 7,
        id1 <= 0x7ff,
        id2 <= 0x7ff,
    ensures
        (id2 | (id1 << 16) | (sfec << 27) | (sft << 30)) >> 30 == sft,
        ((id2 | (id1 << 16) | (sfec << 27) | (sft << 30)) >> 27) & 7 == sfec,
        ((id2 | (id1 << 16) | (sfec << 27) | (sft << 30)) >> 16) & 0x7ff == id1,
        (id2 | (id1 << 16) | (sfec << 27) | (sft << 30)) & 0x7ff == id2,
{
}

proof fn lemma_store_word_fields(id: u32, t: u32, offset: u32)
    by (bit_vector)
    requires
        id <= 0x7ff,
        t <= 3,
        offset <= 0xff,
    ensures
        (((id << 16) | (t << 9) | offset | (7u32 << 27)) >> 27) & 7 == 7,
        (((id << 16) | (t << 9) | offset | (7u32 << 27)) >> 16) & 0x7ff == id,
{
}

/// The peripheral reads the word of an encoded filter as the filter means it.
pub proof fn lemma_encoding_matches(f: Filter, id: u32)
    requires
        filter_valid(f),
    ensures
        std_word_matches(encode_standard(f), id) == filter_matches(f, id),
{
    match f {
        Filter::Disabled => {
            assert(((0u32 >> 27) & 7) == 0) by (bit_vector);
        },
        Filter::Range { action, low, high } => {
            lemma_std_word_fields(0, action.code_spec(), low.raw() as u32, high.raw() as u32);
        },
        Filter::Dual { action, id1, id2 } => {
            lemma_std_word_fields(1, action.code_spec(), id1.raw() as u32, id2.raw() as u32);
        },
        Filter::Classic { action, filter, mask } => {
            lemma_std_word_fields(2, action.code_spec(), filter.raw() as u32, mask.raw() as u32);
        },
        Filter::StoreBuffer { id: sid, msg_type, offset } => {
            lemma_store_word_fields(sid.raw() as u32, msg_type.code_spec(), offset as u32);
        },
    }
}

/// Index of the first word of `words`, from `from` on, that matches `id`.
pub open spec fn first_match_from(words: Seq<u32>, id: u32, from: nat) -> Option<nat>
    decreases words.len() - from,
{
    if from >= words.len() {
        None
    } else if std_word_matches(words[from as int], id) {
        Some(from)
    } else {
        first_match_from(words, id, from + 1)
    }
}

/// The filter that decides on a message: the first in table order that
/// matches its identifier.
pub open spec fn deciding_filter(words: Seq<u32>, id: u32) -> Option<nat> {
    first_match_from(words, id, 0)
}

proof fn lemma_first_match_from(words: Seq<u32>, id: u32, from: nat, i: nat)
    requires
        from <= i < words.len(),
        std_word_matches(words[i as int], id),
        forall|k: int| from <= k < i ==> !std_word_matches(#[trigger] words[k], id),
    ensures
        first_match_from(words, id, from) == Some(i),
    decreases i - from,
{
    if from < i {
        lemma_first_match_from(words, id, from + 1, i);
    }
}

/// Filter priority: of two filters at indices `i < j` that both match an
/// identifier, the one at `i` decides, provided no filter before `i`
/// matches it as well.
pub proof fn lemma_lower_index_decides(words: Seq<u32>, id: u32, i: nat, j: nat)
    requires
        i < j < words.len(),
        std_word_matches(words[i as int], id),
        std_word_matches(words[j as int], id),
        forall|k: int| 0 <= k < i ==> !std_word_matches(#[trigger] words[k], id),
    ensures
        deciding_filter(words, id) == Some(i),
{
    lemma_first_match_from(words, id, 0, i);
}

} // verus!
