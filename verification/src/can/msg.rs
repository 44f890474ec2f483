//! CAN message identifiers and message descriptions.
use vstd::prelude::*;
use vstd::std_specs::convert::FromSpecImpl;
use vstd::std_specs::convert::TryFromSpecImpl;
use crate::can::frame::DataLenghtCode;

verus! {

#[verifier::external_type_specification]
#[verifier::external_body]
pub struct ExStandardId(embedded_can::StandardId);

#[verifier::external_type_specification]
#[verifier::external_body]
pub struct ExExtendedId(embedded_can::ExtendedId);

#[verifier::external_type_specification]
#[verifier::external_body]
pub struct ExId(embedded_can::Id);

/// Whether an identifier is standard (11 bits) or extended (29 bits).
#[derive(Debug, PartialEq, Eq, Structural, Clone, Copy)]
pub enum MessageIdLenght {
    Standard,
    Extended,
    Both,
}

/// A CAN message identifier.
#[derive(Debug, PartialEq, Eq, Structural, Clone, Copy)]
pub struct MessageId {
    pub data: u32,
    pub length: MessageIdLenght,
}

/// The two kinds of identifier of `embedded_can::Id`, told apart.
pub enum IdKind {
    Standard(embedded_can::StandardId),
    Extended(embedded_can::ExtendedId),
}

/// The raw value that `embedded_can::StandardId::as_raw` gives for `id`.
pub uninterp spec fn standard_id_raw_of(id: embedded_can::StandardId) -> u16;

/// The raw value that `embedded_can::ExtendedId::as_raw` gives for `id`.
pub uninterp spec fn extended_id_raw_of(id: embedded_can::ExtendedId) -> u32;

/// Calls `embedded_can::StandardId::as_raw`, which returns the 16-bit value
/// the identifier holds; the contract names it and says no more (an
/// identifier built with `new_unchecked` may hold any value, so no bound is
/// stated).
#[verifier::external_body]
fn standard_id_raw(id: &embedded_can::StandardId) -> (r: u16)
    ensures
        r == standard_id_raw_of(*id),
{
    id.as_raw()
}

/// Calls `embedded_can::ExtendedId::as_raw`, which returns the 32-bit value
/// the identifier holds; the contract names it and says no more (an
/// identifier built with `new_unchecked` may hold any value, so no bound is
/// stated).
#[verifier::external_body]
fn extended_id_raw(id: &embedded_can::ExtendedId) -> (r: u32)
    ensures
        r == extended_id_raw_of(*id),
{
    id.as_raw()
}

/// The variant of `id`, with the identifier it holds.
pub uninterp spec fn id_kind_of(id: embedded_can::Id) -> IdKind;

/// Tells apart the variants of `embedded_can::Id`, moving the identifier out;
/// the contract names the outcome.
#[verifier::external_body]
fn id_kind(id: embedded_can::Id) -> (r: IdKind)
    ensures
        r == id_kind_of(id),
{
    match id {
        embedded_can::Id::Standard(s) => IdKind::Standard(s),
        embedded_can::Id::Extended(e) => IdKind::Extended(e),
    }
}

impl MessageId {
    /// A standard identifier with the raw value `raw`.
    pub fn standard(raw: u16) -> (r: Self)
        ensures
            r.data == raw,
            r.length == MessageIdLenght::Standard,
    {
        MessageId { data: raw as u32, length: MessageIdLenght::Standard }
    }

    /// An extended identifier with the raw value `raw`.
    pub fn extended(raw: u32) -> (r: Self)
        ensures
            r.data == raw,
            r.length == MessageIdLenght::Extended,
    {
        MessageId { data: raw, length: MessageIdLenght::Extended }
    }
}

/// A standard identifier converts to its raw value.
impl FromSpecImpl<embedded_can::StandardId> for MessageId {
    open spec fn obeys_from_spec() -> bool {
        true
    }

    open spec fn from_spec(v: embedded_can::StandardId) -> MessageId {
        MessageId { data: standard_id_raw_of(v) as u32, length: MessageIdLenght::Standard }
    }
}

impl From<embedded_can::StandardId> for MessageId {
    fn from(id: embedded_can::StandardId) -> (r: Self)
        ensures
            r.length == MessageIdLenght::Standard,
            r.data == standard_id_raw_of(id),
    {
        MessageId::standard(standard_id_raw(&id))
    }
}

/// An extended identifier converts to its raw value.
impl FromSpecImpl<embedded_can::ExtendedId> for MessageId {
    open spec fn obeys_from_spec() -> bool {
        true
    }

    open spec fn from_spec(v: embedded_can::ExtendedId) -> MessageId {
        MessageId { data: extended_id_raw_of(v), length: MessageIdLenght::Extended }
    }
}

impl From<embedded_can::ExtendedId> for MessageId {
    fn from(id: embedded_can::ExtendedId) -> (r: Self)
        ensures
            r.length == MessageIdLenght::Extended,
            r.data == extended_id_raw_of(id),
    {
        MessageId::extended(extended_id_raw(&id))
    }
}

/// An identifier converts to the raw value of the identifier it holds.
impl FromSpecImpl<embedded_can::Id> for MessageId {
    open spec fn obeys_from_spec() -> bool {
        true
    }

    open spec fn from_spec(v: embedded_can::Id) -> MessageId {
        match id_kind_of(v) {
            IdKind::Standard(s) => MessageId {
                data: standard_id_raw_of(s) as u32,
                length: MessageIdLenght::Standard,
            },
            IdKind::Extended(e) => MessageId {
                data: extended_id_raw_of(e),
                length: MessageIdLenght::Extended,
            },
        }
    }
}

impl From<embedded_can::Id> for MessageId {
    fn from(id: embedded_can::Id) -> (r: Self)
        ensures
            (match id_kind_of(id) {
                IdKind::Standard(s) => r.data == standard_id_raw_of(s) && r.length
                    == MessageIdLenght::Standard,
                IdKind::Extended(e) => r.data == extended_id_raw_of(e) && r.length
                    == MessageIdLenght::Extended,
            }),
    {
        match id_kind(id) {
            IdKind::Standard(s) => MessageId::standard(standard_id_raw(&s)),
            IdKind::Extended(e) => MessageId::extended(extended_id_raw(&e)),
        }
    }
}


/// Frame format: classic CAN, CAN FD, or CAN FD with bit rate switching.
#[derive(PartialEq, Eq, Structural, Debug, Copy, Clone)]
pub enum FrameMode {
    Standard,
    FdLong,
    FdLongAndFast,
}

impl Default for FrameMode {
    fn default() -> (r: Self)
        ensures
            r == FrameMode::Standard,
    {
        FrameMode::Standard
    }
}

/// A message read from the message RAM.
#[derive(Debug)]
pub struct RxMessage {
    pub buffer_id: RxBufferId,
    pub id: MessageId,
    pub data_length_code: DataLenghtCode,
    pub from: ReadFrom,
    pub frame_mode: FrameMode,
}

/// A message to write into the message RAM.
#[derive(Debug)]
pub struct TxMessage {
    pub id: MessageId,
    pub buffer_id: Option<TxBufferId>,
    pub remote_transmit_request: bool,
    pub error_state_indicator: bool,
    pub tx_event_fifo_control: bool,
    pub data_length_code: DataLenghtCode,
    pub frame_mode: FrameMode,
    pub from: ReadFrom,
}

impl Default for TxMessage {
    fn default() -> (r: Self)
        ensures
            r.id == (MessageId { data: 0, length: MessageIdLenght::Standard }),
            r.buffer_id matches Some(b) && b@ == 0,
            !r.remote_transmit_request,
            !r.error_state_indicator,
            !r.tx_event_fifo_control,
            r.data_length_code == DataLenghtCode::_8,
            r.frame_mode == FrameMode::Standard,
            r.from matches ReadFrom::Buffer(b) && b@ == 0,
    {
        Self {
            id: MessageId { data: 0, length: MessageIdLenght::Standard },
            buffer_id: Some(TxBufferId(0)),
            remote_transmit_request: false,
            error_state_indicator: false,
            tx_event_fifo_control: false,
            data_length_code: DataLenghtCode::_8,
            frame_mode: FrameMode::Standard,
            from: ReadFrom::Buffer(RxBufferId(0)),
        }
    }
}

#[derive(Clone, Copy)]
pub enum FrameType {
    Receive,
    Transmit,
    TransmitAndReceive,
    RemoteRequest,
    RemoteAnswer,
}

/// Largest transmit buffer index.
const TX_BUFFER_ID_MAX: u8 = 31;

/// Index of a transmit buffer, in `0..=31`.
#[derive(Clone, Copy, Debug)]
pub struct TxBufferId(u8);

impl TxBufferId {
    #[verifier::type_invariant]
    closed spec fn inv(self) -> bool {
        self.0 <= 31
    }

    /// The index as a number.
    pub closed spec fn view(self) -> u8 {
        self.0
    }

    /// The index, which is at most 31.
    pub fn value(&self) -> (r: u8)
        ensures
            r == self@,
            r <= 31,
    {
        proof {
            use_type_invariant(self);
        }
        self.0
    }
}

impl TryFrom<u8> for TxBufferId {
    type Error = ();

    fn try_from(value: u8) -> (r: Result<Self, Self::Error>)
        ensures
            r is Ok <==> value <= 31,
            r matches Ok(b) ==> b@ == value,
    {
        if value > TX_BUFFER_ID_MAX {
            Err(())
        } else {
            Ok(Self(value))
        }
    }
}

impl TryFromSpecImpl<u8> for TxBufferId {
    open spec fn obeys_try_from_spec() -> bool {
        true
    }

    closed spec fn try_from_spec(v: u8) -> Result<Self, ()> {
        if v <= 31 {
            Ok(TxBufferId(v))
        } else {
            Err(())
        }
    }
}

impl From<TxBufferId> for u8 {
    fn from(value: TxBufferId) -> (r: u8)
        ensures
            r == value@,
            r <= 31,
    {
        value.value()
    }
}

impl FromSpecImpl<TxBufferId> for u8 {
    open spec fn obeys_from_spec() -> bool {
        true
    }

    open spec fn from_spec(v: TxBufferId) -> u8 {
        v@
    }
}

/// Index of a receive buffer, in `0..=63`.
#[derive(PartialEq, PartialOrd, Clone, Copy, Debug)]
pub struct RxBufferId(u8);

impl RxBufferId {
    pub const MAX: u8 = 63;

    #[verifier::type_invariant]
    closed spec fn inv(self) -> bool {
        self.0 <= 63
    }

    /// The index as a number.
    pub closed spec fn view(self) -> u8 {
        self.0
    }

    /// The index, which is at most 63.
    pub fn value(&self) -> (r: u8)
        ensures
            r == self@,
            r <= 63,
    {
        proof {
            use_type_invariant(self);
        }
        self.0
    }

    /// The receive buffer `n`, if `n` is at most 63.
    pub fn new(n: u8) -> (r: Option<Self>)
        ensures
            r is Some <==> n <= 63,
            r matches Some(b) ==> b@ == n,
    {
        if n <= Self::MAX {
            Some(Self(n))
        } else {
            None
        }
    }
}

impl From<RxBufferId> for u8 {
    fn from(value: RxBufferId) -> (r: u8)
        ensures
            r == value@,
            r <= 63,
    {
        value.value()
    }
}

impl FromSpecImpl<RxBufferId> for u8 {
    open spec fn obeys_from_spec() -> bool {
        true
    }

    open spec fn from_spec(v: RxBufferId) -> u8 {
        v@
    }
}

impl From<RxBufferId> for u16 {
    fn from(value: RxBufferId) -> (r: u16)
        ensures
            r == value@,
    {
        value.value() as u16
    }
}

impl FromSpecImpl<RxBufferId> for u16 {
    open spec fn obeys_from_spec() -> bool {
        true
    }

    open spec fn from_spec(v: RxBufferId) -> u16 {
        v@ as u16
    }
}

impl From<RxBufferId> for u32 {
    fn from(value: RxBufferId) -> (r: u32)
        ensures
            r == value@,
    {
        value.value() as u32
    }
}

impl FromSpecImpl<RxBufferId> for u32 {
    open spec fn obeys_from_spec() -> bool {
        true
    }

    open spec fn from_spec(v: RxBufferId) -> u32 {
        v@ as u32
    }
}

/// Where a received message is read from.
#[derive(Clone, Copy, Debug)]
pub enum ReadFrom {
    RxFifo0,
    RxFifo1,
    Buffer(RxBufferId),
}

/// What a filter does with a matching message.
#[derive(Clone, Copy, PartialEq, Eq, Structural)]
pub enum FilterElementConfiguration {
    Disable,
    StoreInRxFifo0,
    StoreInRxFifo1,
    RejectId,
    SetPriority,
    SetPriorityAndStoreInFifo0,
    SetPriorityAndStoreInFifo1,
    StoreInRxBuffer,
}

/// How a filter's two identifiers are interpreted.
#[derive(Clone, Copy, PartialEq, Eq, Structural)]
pub enum FilterType {
    Range,
    Dualid,
    Classic,
    NoFilter,
}

/// An acceptance filter.
#[derive(Clone, Copy)]
pub struct Filter {
    pub number: u8,
    pub element_configuration: FilterElementConfiguration,
    pub typ: FilterType,
    pub id1: u32,
    pub id2: u32,
    pub rx_buffer_offset: RxBufferId,
}

} // verus!
