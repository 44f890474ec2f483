//! CAN nodes: configuration types, pin routing and the decisions a node makes
//! when it is configured, transmits and receives.
pub mod effects;
pub mod node;

use vstd::prelude::*;
use core::marker::PhantomData;
use vstd::std_specs::convert::FromSpecImpl;
use crate::can::msg::{FrameMode, TxBufferId, RxBufferId};
use crate::can::can_module::{ModuleId, ClockSource};
use crate::can::baud_rate::{BitTimingConfig, FastBitTimingConfig};
use crate::cpu::Priority;

verus! {

/// Direction of the frames a node handles.
#[derive(PartialEq, Eq, Structural, Debug)]
pub enum FrameType {
    Receive,
    Transmit,
    TransmitAndReceive,
    RemoteRequest,
    RemoteAnswer,
}

impl Default for FrameType {
    fn default() -> (r: Self)
        ensures
            r == FrameType::Receive,
    {
        FrameType::Receive
    }
}

/// How the transmit buffers are organised.
#[derive(Clone, Copy, PartialEq, Eq, Structural)]
pub enum TxMode {
    DedicatedBuffers,
    Fifo,
    Queue,
    SharedFifo,
    SharedQueue,
}

impl Default for TxMode {
    fn default() -> (r: Self)
        ensures
            r == TxMode::DedicatedBuffers,
    {
        TxMode::DedicatedBuffers
    }
}

/// How the receive buffers are organised.
#[derive(Clone, Copy, PartialEq, Eq, Structural)]
pub enum RxMode {
    DedicatedBuffers,
    Fifo0,
    Fifo1,
    SharedFifo0,
    SharedFifo1,
    SharedAll,
}

impl Default for RxMode {
    fn default() -> (r: Self)
        ensures
            r == RxMode::DedicatedBuffers,
    {
        RxMode::DedicatedBuffers
    }
}

/// Offset of the transmit buffers in the message RAM.
pub const TX_BUFFER_START_ADDRESS: u32 = 0x0440u32;

/// A node of a CAN module, by its index.
pub trait NodeId {
    spec fn index_spec(&self) -> usize;

    /// The node's index, 0 to 3.
    fn as_index(&self) -> (r: usize)
        ensures
            r == self.index_spec(),
            r < 4,
    ;
}

/// Node 0.
pub struct Node0;

/// Node 1.
pub struct Node1;

/// Node 2.
pub struct Node2;

/// Node 3.
pub struct Node3;

impl NodeId for Node0 {
    open spec fn index_spec(&self) -> usize {
        0
    }

    fn as_index(&self) -> (r: usize) {
        0
    }
}

impl NodeId for Node1 {
    open spec fn index_spec(&self) -> usize {
        1
    }

    fn as_index(&self) -> (r: usize) {
        1
    }
}

impl NodeId for Node2 {
    open spec fn index_spec(&self) -> usize {
        2
    }

    fn as_index(&self) -> (r: usize) {
        2
    }
}

impl NodeId for Node3 {
    open spec fn index_spec(&self) -> usize {
        3
    }

    fn as_index(&self) -> (r: usize) {
        3
    }
}

/// Type state of a node whose configuration is locked.
pub struct Configured;

/// Type state of a node that accepts configuration changes.
pub struct Configurable;

/// Why a node could not be created.
#[derive(Debug, PartialEq, Eq, Structural)]
pub enum ConfigError {
    CannotSetClockSource,
}

/// Why a frame could not be transmitted.
#[derive(Debug, PartialEq, Eq, Structural)]
pub enum TransmitError {
    Busy,
    InvalidDataLength,
    InvalidAccess,
}

/// Configuration of a receive FIFO.
#[derive(Clone, Copy)]
pub struct FifoData {
    pub field_size: DataFieldSize,
    pub operation_mode: RxFifoMode,
    pub watermark_level: u8,
    pub size: u8,
    pub start_address: u16,
}

/// What a receive FIFO does when it is full.
#[derive(Clone, Copy, PartialEq, Eq, Structural)]
pub enum RxFifoMode {
    Blocking,
    Overwrite,
}

/// Size of the data field of a buffer element.
#[derive(Clone, Copy, PartialEq, Eq, Structural)]
pub enum DataFieldSize {
    _8,
    _12,
    _16,
    _20,
    _24,
    _32,
    _48,
    _64,
}

impl Default for DataFieldSize {
    fn default() -> (r: Self)
        ensures
            r == DataFieldSize::_8,
    {
        DataFieldSize::_8
    }
}

/// Register code of a data field size.
pub open spec fn dfs_code(d: DataFieldSize) -> u8 {
    match d {
        DataFieldSize::_8 => 0,
        DataFieldSize::_12 => 1,
        DataFieldSize::_16 => 2,
        DataFieldSize::_20 => 3,
        DataFieldSize::_24 => 4,
        DataFieldSize::_32 => 5,
        DataFieldSize::_48 => 6,
        DataFieldSize::_64 => 7,
    }
}

/// Number of data bytes of a data field size.
pub open spec fn dfs_bytes(d: DataFieldSize) -> nat {
    match d {
        DataFieldSize::_8 => 8,
        DataFieldSize::_12 => 12,
        DataFieldSize::_16 => 16,
        DataFieldSize::_20 => 20,
        DataFieldSize::_24 => 24,
        DataFieldSize::_32 => 32,
        DataFieldSize::_48 => 48,
        DataFieldSize::_64 => 64,
    }
}

/// Number of data bytes that a register code of a data field size stands for.
pub open spec fn code_bytes(code: u8) -> int {
    if code < 5 { (code + 2) * 4 } else { (code - 3) * 16 }
}

impl DataFieldSize {
    /// The code written into the element size configuration register.
    pub fn to_esci_register_value(self) -> (r: u8)
        ensures
            r == dfs_code(self),
    {
        match self {
            DataFieldSize::_8 => 0,
            DataFieldSize::_12 => 1,
            DataFieldSize::_16 => 2,
            DataFieldSize::_20 => 3,
            DataFieldSize::_24 => 4,
            DataFieldSize::_32 => 5,
            DataFieldSize::_48 => 6,
            DataFieldSize::_64 => 7,
        }
    }
}

/// The register code of a data field size decodes back to its number of bytes.
pub proof fn lemma_data_field_size_round_trip(d: DataFieldSize)
    ensures
        code_bytes(dfs_code(d)) == dfs_bytes(d),
{
}

/// Number of data bytes of an element, given the 3-bit size code read from
/// the element size configuration register.
pub fn data_field_bytes(size_code: u8) -> (r: u8)
    requires
        size_code <= 7,
    ensures
        r == code_bytes(size_code),
{
    if size_code < 5 {
        (size_code + 2) * 4
    } else {
        (size_code - 3) * 16
    }
}

/// Configuration of the dedicated transmit buffers.
#[derive(Clone, Copy)]
pub struct DedicatedData {
    pub field_size: DataFieldSize,
    pub start_address: u16,
}

/// Interrupt groups, in the order of their routing fields.
#[derive(Debug, Clone, Copy, PartialEq, Eq, Structural)]
pub enum InterruptGroup {
    Tefifo,
    Hpe,
    Wati,
    Alrt,
    Moer,
    Safe,
    Boff,
    Loi,
    Reint,
    Rxf1f,
    Rxf0f,
    Rxf1n,
    Rxf0n,
    Reti,
    Traq,
    Traco,
}

/// Index of an interrupt group.
pub open spec fn interrupt_group_code(g: InterruptGroup) -> u8 {
    match g {
        InterruptGroup::Tefifo => 0,
        InterruptGroup::Hpe => 1,
        InterruptGroup::Wati => 2,
        InterruptGroup::Alrt => 3,
        InterruptGroup::Moer => 4,
        InterruptGroup::Safe => 5,
        InterruptGroup::Boff => 6,
        InterruptGroup::Loi => 7,
        InterruptGroup::Reint => 8,
        InterruptGroup::Rxf1f => 9,
        InterruptGroup::Rxf0f => 10,
        InterruptGroup::Rxf1n => 11,
        InterruptGroup::Rxf0n => 12,
        InterruptGroup::Reti => 13,
        InterruptGroup::Traq => 14,
        InterruptGroup::Traco => 15,
    }
}

impl From<InterruptGroup> for u8 {
    fn from(value: InterruptGroup) -> (r: u8) {
        match value {
            InterruptGroup::Tefifo => 0,
            InterruptGroup::Hpe => 1,
            InterruptGroup::Wati => 2,
            InterruptGroup::Alrt => 3,
            InterruptGroup::Moer => 4,
            InterruptGroup::Safe => 5,
            InterruptGroup::Boff => 6,
            InterruptGroup::Loi => 7,
            InterruptGroup::Reint => 8,
            InterruptGroup::Rxf1f => 9,
            InterruptGroup::Rxf0f => 10,
            InterruptGroup::Rxf1n => 11,
            InterruptGroup::Rxf0n => 12,
            InterruptGroup::Reti => 13,
            InterruptGroup::Traq => 14,
            InterruptGroup::Traco => 15,
        }
    }
}

impl FromSpecImpl<InterruptGroup> for u8 {
    open spec fn obeys_from_spec() -> bool {
        true
    }

    open spec fn from_spec(v: InterruptGroup) -> u8 {
        interrupt_group_code(v)
    }
}

/// Node interrupts, in the order of their bits in the interrupt registers.
#[derive(Debug, Clone, Copy, PartialEq, Eq, Structural)]
pub enum Interrupt {
    RxFifo0newMessage,
    RxFifo0watermarkReached,
    RxFifo0full,
    RxFifo0messageLost,
    RxFifo1newMessage,
    RxFifo1watermarkReached,
    RxFifo1full,
    RxFifo1messageLost,
    HighPriorityMessage,
    TransmissionCompleted,
    TransmissionCancellationFinished,
    TxFifoEmpty,
    TxEventFifoNewEntry,
    TxEventFifoWatermarkReached,
    TxEventFifoFull,
    TxEventFifoEventLost,
    TimestampWraparound,
    MessageRamaccessFailure,
    TimeoutOccurred,
    MessageStoredToDedicatedRxBuffer,
    BitErrorCorrected,
    BitErrorUncorrected,
    ErrorLoggingOverflow,
    ErrorPassive,
    WarningStatus,
    BusOffStatus,
    Watchdog,
    ProtocolErrorArbitration,
    ProtocolErrorData,
    AccessToReservedAddress,
}

/// Bit of an interrupt in the interrupt enable and flag registers.
pub open spec fn interrupt_bit(i: Interrupt) -> u32 {
    match i {
        Interrupt::RxFifo0newMessage => 0,
        Interrupt::RxFifo0watermarkReached => 1,
        Interrupt::RxFifo0full => 2,
        Interrupt::RxFifo0messageLost => 3,
        Interrupt::RxFifo1newMessage => 4,
        Interrupt::RxFifo1watermarkReached => 5,
        Interrupt::RxFifo1full => 6,
        Interrupt::RxFifo1messageLost => 7,
        Interrupt::HighPriorityMessage => 8,
        Interrupt::TransmissionCompleted => 9,
        Interrupt::TransmissionCancellationFinished => 10,
        Interrupt::TxFifoEmpty => 11,
        Interrupt::TxEventFifoNewEntry => 12,
        Interrupt::TxEventFifoWatermarkReached => 13,
        Interrupt::TxEventFifoFull => 14,
        Interrupt::TxEventFifoEventLost => 15,
        Interrupt::TimestampWraparound => 16,
        Interrupt::MessageRamaccessFailure => 17,
        Interrupt::TimeoutOccurred => 18,
        Interrupt::MessageStoredToDedicatedRxBuffer => 19,
        Interrupt::BitErrorCorrected => 20,
        Interrupt::BitErrorUncorrected => 21,
        Interrupt::ErrorLoggingOverflow => 22,
        Interrupt::ErrorPassive => 23,
        Interrupt::WarningStatus => 24,
        Interrupt::BusOffStatus => 25,
        Interrupt::Watchdog => 26,
        Interrupt::ProtocolErrorArbitration => 27,
        Interrupt::ProtocolErrorData => 28,
        Interrupt::AccessToReservedAddress => 29,
    }
}

/// Bit of an interrupt in the interrupt enable and flag registers.
pub fn interrupt_bit_index(i: Interrupt) -> (r: u32)
    ensures
        r == interrupt_bit(i),
        r < 30,
{
    match i {
        Interrupt::RxFifo0newMessage => 0,
        Interrupt::RxFifo0watermarkReached => 1,
        Interrupt::RxFifo0full => 2,
        Interrupt::RxFifo0messageLost => 3,
        Interrupt::RxFifo1newMessage => 4,
        Interrupt::RxFifo1watermarkReached => 5,
        Interrupt::RxFifo1full => 6,
        Interrupt::RxFifo1messageLost => 7,
        Interrupt::HighPriorityMessage => 8,
        Interrupt::TransmissionCompleted => 9,
        Interrupt::TransmissionCancellationFinished => 10,
        Interrupt::TxFifoEmpty => 11,
        Interrupt::TxEventFifoNewEntry => 12,
        Interrupt::TxEventFifoWatermarkReached => 13,
        Interrupt::TxEventFifoFull => 14,
        Interrupt::TxEventFifoEventLost => 15,
        Interrupt::TimestampWraparound => 16,
        Interrupt::MessageRamaccessFailure => 17,
        Interrupt::TimeoutOccurred => 18,
        Interrupt::MessageStoredToDedicatedRxBuffer => 19,
        Interrupt::BitErrorCorrected => 20,
        Interrupt::BitErrorUncorrected => 21,
        Interrupt::ErrorLoggingOverflow => 22,
        Interrupt::ErrorPassive => 23,
        Interrupt::WarningStatus => 24,
        Interrupt::BusOffStatus => 25,
        Interrupt::Watchdog => 26,
        Interrupt::ProtocolErrorArbitration => 27,
        Interrupt::ProtocolErrorData => 28,
        Interrupt::AccessToReservedAddress => 29,
    }
}

/// One of the 16 interrupt lines of a module.
#[derive(PartialEq, Eq, Structural, Clone, Copy, Debug)]
pub enum InterruptLine {
    Line0,
    Line1,
    Line2,
    Line3,
    Line4,
    Line5,
    Line6,
    Line7,
    Line8,
    Line9,
    Line10,
    Line11,
    Line12,
    Line13,
    Line14,
    Line15,
}

impl Default for InterruptLine {
    fn default() -> (r: Self)
        ensures
            r == InterruptLine::Line0,
    {
        InterruptLine::Line0
    }
}

/// Index of an interrupt line.
pub open spec fn interrupt_line_code(l: InterruptLine) -> u8 {
    match l {
        InterruptLine::Line0 => 0,
        InterruptLine::Line1 => 1,
        InterruptLine::Line2 => 2,
        InterruptLine::Line3 => 3,
        InterruptLine::Line4 => 4,
        InterruptLine::Line5 => 5,
        InterruptLine::Line6 => 6,
        InterruptLine::Line7 => 7,
        InterruptLine::Line8 => 8,
        InterruptLine::Line9 => 9,
        InterruptLine::Line10 => 10,
        InterruptLine::Line11 => 11,
        InterruptLine::Line12 => 12,
        InterruptLine::Line13 => 13,
        InterruptLine::Line14 => 14,
        InterruptLine::Line15 => 15,
    }
}

impl From<InterruptLine> for u8 {
    fn from(value: InterruptLine) -> (r: u8) {
        match value {
            InterruptLine::Line0 => 0,
            InterruptLine::Line1 => 1,
            InterruptLine::Line2 => 2,
            InterruptLine::Line3 => 3,
            InterruptLine::Line4 => 4,
            InterruptLine::Line5 => 5,
            InterruptLine::Line6 => 6,
            InterruptLine::Line7 => 7,
            InterruptLine::Line8 => 8,
            InterruptLine::Line9 => 9,
            InterruptLine::Line10 => 10,
            InterruptLine::Line11 => 11,
            InterruptLine::Line12 => 12,
            InterruptLine::Line13 => 13,
            InterruptLine::Line14 => 14,
            InterruptLine::Line15 => 15,
        }
    }
}

impl FromSpecImpl<InterruptLine> for u8 {
    open spec fn obeys_from_spec() -> bool {
        true
    }

    open spec fn from_spec(v: InterruptLine) -> u8 {
        interrupt_line_code(v)
    }
}

/// Type of service: which core or the DMA handles the request.
#[derive(Debug, Clone, Copy, PartialEq, Eq, Structural)]
pub enum Tos {
    Cpu0,
    Dma,
    Cpu1,
    Cpu2,
}

impl Default for Tos {
    fn default() -> (r: Self)
        ensures
            r == Tos::Cpu0,
    {
        Tos::Cpu0
    }
}

/// Register code of a type of service.
pub open spec fn tos_code(t: Tos) -> u8 {
    match t {
        Tos::Cpu0 => 0,
        Tos::Dma => 1,
        Tos::Cpu1 => 2,
        Tos::Cpu2 => 3,
    }
}

impl From<Tos> for u8 {
    fn from(value: Tos) -> (r: u8) {
        match value {
            Tos::Cpu0 => 0,
            Tos::Dma => 1,
            Tos::Cpu1 => 2,
            Tos::Cpu2 => 3,
        }
    }
}

impl FromSpecImpl<Tos> for u8 {
    open spec fn obeys_from_spec() -> bool {
        true
    }

    open spec fn from_spec(v: Tos) -> u8 {
        tos_code(v)
    }
}


/// Input pad configuration (pull device) of a pin.
#[derive(Clone, Copy, PartialEq, Eq, Structural, Debug)]
pub enum InputMode {
    NoPullDevice,
    PullDown,
    PullUp,
}

/// Value of an input mode in a pin's IOCR field.
pub open spec fn input_mode_bits(m: InputMode) -> u32 {
    match m {
        InputMode::NoPullDevice => 0,
        InputMode::PullDown => 8,
        InputMode::PullUp => 0x10,
    }
}

impl InputMode {
    /// Value of the mode in a pin's IOCR field.
    pub fn value(self) -> (r: u32)
        ensures
            r == input_mode_bits(self),
    {
        match self {
            InputMode::NoPullDevice => 0,
            InputMode::PullDown => 8,
            InputMode::PullUp => 0x10,
        }
    }
}

/// Output pad configuration (push-pull or open drain) of a pin.
#[derive(Clone, Copy, PartialEq, Eq, Structural, Debug)]
pub enum OutputMode {
    PushPull,
    OpenDrain,
    Off,
}

/// Value of an output mode in a pin's IOCR field.
pub open spec fn output_mode_bits(m: OutputMode) -> u32 {
    match m {
        OutputMode::PushPull => 0x80,
        OutputMode::OpenDrain => 0xC0,
        OutputMode::Off => 0,
    }
}

impl OutputMode {
    /// Value of the mode in a pin's IOCR field.
    pub fn value(self) -> (r: u32)
        ensures
            r == output_mode_bits(self),
    {
        match self {
            OutputMode::PushPull => 0x80,
            OutputMode::OpenDrain => 0xC0,
            OutputMode::Off => 0,
        }
    }
}

/// Pad driver strength.
#[derive(Clone, Copy, PartialEq, Eq, Structural)]
pub enum PadDriver {
    CmosAutomotiveSpeed1,
    CmosAutomotiveSpeed2,
    CmosAutomotiveSpeed3,
    CmosAutomotiveSpeed4,
    TtlSpeed1,
    TtlSpeed2,
    TtlSpeed3,
    TtlSpeed4,
    Ttl3v3speed1,
    Ttl3v3speed2,
    Ttl3v3speed3,
    Ttl3v3speed4,
}

/// Register code of a pad driver.
pub open spec fn pad_driver_code(d: PadDriver) -> u32 {
    match d {
        PadDriver::CmosAutomotiveSpeed1 => 0,
        PadDriver::CmosAutomotiveSpeed2 => 1,
        PadDriver::CmosAutomotiveSpeed3 => 2,
        PadDriver::CmosAutomotiveSpeed4 => 3,
        PadDriver::TtlSpeed1 => 8,
        PadDriver::TtlSpeed2 => 9,
        PadDriver::TtlSpeed3 => 10,
        PadDriver::TtlSpeed4 => 11,
        PadDriver::Ttl3v3speed1 => 12,
        PadDriver::Ttl3v3speed2 => 13,
        PadDriver::Ttl3v3speed3 => 14,
        PadDriver::Ttl3v3speed4 => 15,
    }
}

impl PadDriver {
    /// Register code of the driver.
    pub fn value(self) -> (r: u32)
        ensures
            r == pad_driver_code(self),
            r <= 15,
    {
        match self {
            PadDriver::CmosAutomotiveSpeed1 => 0,
            PadDriver::CmosAutomotiveSpeed2 => 1,
            PadDriver::CmosAutomotiveSpeed3 => 2,
            PadDriver::CmosAutomotiveSpeed4 => 3,
            PadDriver::TtlSpeed1 => 8,
            PadDriver::TtlSpeed2 => 9,
            PadDriver::TtlSpeed3 => 10,
            PadDriver::TtlSpeed4 => 11,
            PadDriver::Ttl3v3speed1 => 12,
            PadDriver::Ttl3v3speed2 => 13,
            PadDriver::Ttl3v3speed3 => 14,
            PadDriver::Ttl3v3speed4 => 15,
        }
    }
}

/// GPIO ports that CAN pins are on.
#[derive(Clone, Copy, PartialEq, Eq, Structural, Debug)]
pub enum PortNumber {
    _00,
    _01,
    _02,
    _10,
    _11,
    _12,
    _13,
    _14,
    _15,
    _20,
    _21,
    _22,
    _23,
    _32,
    _33,
    _34,
    _40,
}

/// Action on a pin's output, as the two bits (set at bit 0, clear at bit 16)
/// of the output modification register for pin 0.
#[derive(Debug, PartialEq, Eq, Structural, Clone, Copy)]
pub enum State {
    NotChanged,
    High,
    Low,
    Toggled,
}

/// Output modification bits of a pin action for pin 0.
pub open spec fn state_bits(s: State) -> u32 {
    match s {
        State::NotChanged => 0,
        State::High => 1,
        State::Low => 0x10000,
        State::Toggled => 0x10001,
    }
}

impl State {
    /// Output modification bits of the action for pin 0.
    pub fn value(self) -> (r: u32)
        ensures
            r == state_bits(self),
    {
        match self {
            State::NotChanged => 0,
            State::High => 1,
            State::Low => 0x10000,
            State::Toggled => 0x10001,
        }
    }
}

/// Pad configuration of a pin, as the value of its IOCR field.
#[derive(Clone, Copy)]
pub struct Mode(pub u32);

impl Mode {
    /// The pad configuration of an input mode.
    pub fn from_input(value: InputMode) -> (r: Mode)
        ensures
            r.0 == input_mode_bits(value),
    {
        Mode(value.value())
    }

    /// The pad configuration of an output mode driven by output `value.1`.
    pub fn from_output(value: (OutputMode, OutputIdx)) -> (r: Mode)
        ensures
            r.0 == output_mode_bits(value.0) | output_idx_bits(value.1),
    {
        Mode(value.0.value() | value.1.value())
    }
}

/// Which output drives a pin: the general purpose one or an alternate function.
#[derive(Clone, Copy, PartialEq, Eq, Structural, Debug)]
pub enum OutputIdx {
    General,
    Alt1,
    Alt2,
    Alt3,
    Alt4,
    Alt5,
    Alt6,
    Alt7,
}

/// Value of an output selection in a pin's IOCR field.
pub open spec fn output_idx_bits(i: OutputIdx) -> u32 {
    match i {
        OutputIdx::General => 0x80,
        OutputIdx::Alt1 => 0x88,
        OutputIdx::Alt2 => 0x90,
        OutputIdx::Alt3 => 0x98,
        OutputIdx::Alt4 => 0xA0,
        OutputIdx::Alt5 => 0xA8,
        OutputIdx::Alt6 => 0xB0,
        OutputIdx::Alt7 => 0xB8,
    }
}

impl OutputIdx {
    /// Value of the selection in a pin's IOCR field.
    pub fn value(self) -> (r: u32)
        ensures
            r == output_idx_bits(self),
    {
        match self {
            OutputIdx::General => 0x80,
            OutputIdx::Alt1 => 0x88,
            OutputIdx::Alt2 => 0x90,
            OutputIdx::Alt3 => 0x98,
            OutputIdx::Alt4 => 0xA0,
            OutputIdx::Alt5 => 0xA8,
            OutputIdx::Alt6 => 0xB0,
            OutputIdx::Alt7 => 0xB8,
        }
    }
}

/// Receive input selection of a node.
#[derive(Clone, Copy, PartialEq, Eq, Structural)]
pub enum RxSel {
    _A,
    _B,
    _C,
    _D,
    _E,
    _F,
    _G,
    _H,
}

/// Register code of a receive input selection.
pub open spec fn rx_sel_code(v: RxSel) -> u8 {
    match v {
        RxSel::_A => 0,
        RxSel::_B => 1,
        RxSel::_C => 2,
        RxSel::_D => 3,
        RxSel::_E => 4,
        RxSel::_F => 5,
        RxSel::_G => 6,
        RxSel::_H => 7,
    }
}

impl From<RxSel> for u8 {
    fn from(value: RxSel) -> (r: u8) {
        match value {
            RxSel::_A => 0,
            RxSel::_B => 1,
            RxSel::_C => 2,
            RxSel::_D => 3,
            RxSel::_E => 4,
            RxSel::_F => 5,
            RxSel::_G => 6,
            RxSel::_H => 7,
        }
    }
}

impl FromSpecImpl<RxSel> for u8 {
    open spec fn obeys_from_spec() -> bool {
        true
    }

    open spec fn from_spec(v: RxSel) -> u8 {
        rx_sel_code(v)
    }
}

/// A pin that can receive for node `N` of module `M`.
pub struct RxdIn<M, N> {
    pub port: PortNumber,
    pub pin_index: u8,
    pub select: RxSel,
    pub _phantom: PhantomData<(M, N)>,
}

impl<M, N> Clone for RxdIn<M, N> {
    fn clone(&self) -> (r: Self)
        ensures
            r == *self,
    {
        RxdIn { port: self.port, pin_index: self.pin_index, select: self.select, _phantom: PhantomData }
    }
}

impl<M, N> Copy for RxdIn<M, N> {}

impl<M, N> RxdIn<M, N> {
    /// The receive pin `pin_index` of `port`, selected by `select`.
    pub fn new(port: PortNumber, pin_index: u8, select: RxSel) -> (r: Self)
        ensures
            r.port == port,
            r.pin_index == pin_index,
            r.select == select,
    {
        Self { port, pin_index, select, _phantom: PhantomData }
    }
}

/// A pin that can transmit for node `N` of module `M`.
pub struct TxdOut<M, N> {
    pub port: PortNumber,
    pub pin_index: u8,
    pub select: OutputIdx,
    pub _phantom: PhantomData<(M, N)>,
}

impl<M, N> Clone for TxdOut<M, N> {
    fn clone(&self) -> (r: Self)
        ensures
            r == *self,
    {
        TxdOut { port: self.port, pin_index: self.pin_index, select: self.select, _phantom: PhantomData }
    }
}

impl<M, N> Copy for TxdOut<M, N> {}

impl<M, N> TxdOut<M, N> {
    /// The transmit pin `pin_index` of `port`, driven by output `select`.
    pub fn new(port: PortNumber, pin_index: u8, select: OutputIdx) -> (r: Self)
        ensures
            r.port == port,
            r.pin_index == pin_index,
            r.select == select,
    {
        Self { port, pin_index, select, _phantom: PhantomData }
    }
}

/// Transmit side configuration of a node.
#[derive(Clone, Copy)]
pub struct TxConfig {
    pub mode: TxMode,
    pub dedicated_tx_buffers_number: u8,
    pub fifo_queue_size: u8,
    pub buffer_data_field_size: DataFieldSize,
    pub event_fifo_size: u8,
    pub tx_event_fifo_start_address: u16,
    pub tx_buffers_start_address: u16,
}

/// Receive side configuration of a node.
#[derive(Clone, Copy)]
pub struct RxConfig {
    pub mode: RxMode,
    pub buffer_data_field_size: DataFieldSize,
    pub fifo0_data_field_size: DataFieldSize,
    pub fifo1_data_field_size: DataFieldSize,
    pub fifo0_operating_mode: RxFifoMode,
    pub fifo1_operating_mode: RxFifoMode,
    pub fifo0_watermark_level: u8,
    pub fifo1_watermark_level: u8,
    pub fifo0_size: u8,
    pub fifo1_size: u8,
    pub rx_fifo0_start_address: u16,
    pub rx_fifo1_start_address: u16,
    pub rx_buffers_start_address: u16,
}

/// Receive and transmit pins of a node.
pub struct Pins<M, N> {
    pub tx: TxdOut<M, N>,
    pub rx: RxdIn<M, N>,
}

/// Interrupt configuration of a node.
pub struct NodeInterruptConfig {
    pub interrupt_group: InterruptGroup,
    pub interrupt: Interrupt,
    pub line: InterruptLine,
    pub priority: Priority,
    pub tos: Tos,
}

/// Configuration a node is created with.
pub struct NodeConfig {
    pub clock_source: ClockSource,
    pub baud_rate: BitTimingConfig,
    pub fast_baud_rate: FastBitTimingConfig,
    pub transceiver_delay_offset: u8,
    pub frame_mode: FrameMode,
}

impl Default for NodeConfig {
    fn default() -> (r: Self)
        ensures
            r.clock_source == ClockSource::Both,
            r.baud_rate matches BitTimingConfig::Auto(a) && a.baud_rate == 0 && a.sample_point == 0
                && a.sync_jump_width == 0,
            r.fast_baud_rate matches FastBitTimingConfig::Auto(a) && a.baud_rate == 0
                && a.sample_point == 0 && a.sync_jump_width == 0,
            r.transceiver_delay_offset == 0,
            r.frame_mode == FrameMode::Standard,
    {
        NodeConfig {
            clock_source: ClockSource::default(),
            baud_rate: BitTimingConfig::default(),
            fast_baud_rate: FastBitTimingConfig::default(),
            transceiver_delay_offset: 0,
            frame_mode: FrameMode::default(),
        }
    }
}

/// A register access on a GPIO port.
#[derive(Clone, Copy, PartialEq, Eq, Structural, Debug)]
pub enum PortEffect {
    /// Write of the output modification register.
    Omr(u32),
    /// Clear of bit `0` of the pad disable control register (with the CPU
    /// end-of-init protection lifted).
    PdiscClearBit(u8),
    /// Masked write of input/output control register `index`.
    IocrLdmst { index: u8, value: u32, mask: u32 },
    /// Masked write of pad driver mode register `index` (with the CPU
    /// end-of-init protection lifted).
    PdrLdmst { index: u8, value: u32, mask: u32 },
}

/// The pad disable control register after clearing the bit of pin `index`.
pub fn pdisc_clear_bit(pdisc: u32, index: u8) -> (r: u32)
    requires
        index < 32,
    ensures
        r == pdisc & !(1u32 << index),
{
    pdisc & !(1u32 << index)
}

/// A GPIO port, used to route CAN pins.
pub struct Port {
    pub number: PortNumber,
}

/// Effects of setting the pad configuration of pin `index` of `port` to `mode`.
pub open spec fn spec_pin_mode_effects(port: PortNumber, index: u8, mode: u32) -> Seq<PortEffect> {
    let shift = ((index & 3) * 8) as u32;
    let iocr = PortEffect::IocrLdmst {
        index: index / 4,
        value: mode << shift,
        mask: 0xFFu32 << shift,
    };
    if port == PortNumber::_40 {
        seq![PortEffect::PdiscClearBit(index), iocr]
    } else {
        seq![iocr]
    }
}

/// Effect of setting the pad driver of pin `index` to `driver`.
pub open spec fn spec_pad_driver_effect(index: u8, driver: PadDriver) -> PortEffect {
    let shift = ((index & 7) * 4) as u32;
    PortEffect::PdrLdmst {
        index: index / 8,
        value: pad_driver_code(driver) << shift,
        mask: 0xFu32 << shift,
    }
}

impl Port {
    /// The port `port`.
    pub fn new(port: PortNumber) -> (r: Self)
        ensures
            r.number == port,
    {
        Port { number: port }
    }

    /// Applies `action` to pin `index`.
    pub fn set_pin_state(&self, index: u8, action: State) -> (r: PortEffect)
        requires
            index < 32,
        ensures
            r == PortEffect::Omr(state_bits(action) << index),
    {
        PortEffect::Omr(action.value() << index)
    }

    /// Toggles pin `index`.
    pub fn toogle_pin(&self, index: u8) -> (r: PortEffect)
        requires
            index < 32,
        ensures
            r == PortEffect::Omr(state_bits(State::Toggled) << index),
    {
        self.set_pin_state(index, State::Toggled)
    }

    /// Drives pin `index` low.
    pub fn set_pin_low(&self, index: u8) -> (r: PortEffect)
        requires
            index < 32,
        ensures
            r == PortEffect::Omr(state_bits(State::Low) << index),
    {
        self.set_pin_state(index, State::Low)
    }

    /// Configures pin `pin_index` as an output in `mode`, driven by `index`.
    pub fn set_pin_mode_output(&self, pin_index: u8, mode: OutputMode, index: OutputIdx) -> (r: Vec<PortEffect>)
        requires
            pin_index < 32,
        ensures
            r@ == spec_pin_mode_effects(self.number, pin_index, output_mode_bits(mode) | output_idx_bits(index)),
    {
        self.set_pin_mode(pin_index, Mode::from_output((mode, index)))
    }

    /// Configures pin `pin_index` as an input in `mode`.
    pub fn set_pin_mode_input(&self, pin_index: u8, mode: InputMode) -> (r: Vec<PortEffect>)
        requires
            pin_index < 32,
        ensures
            r@ == spec_pin_mode_effects(self.number, pin_index, input_mode_bits(mode)),
    {
        self.set_pin_mode(pin_index, Mode::from_input(mode))
    }

    /// Sets the pad configuration of pin `index`. On the supervisor port 40
    /// the pin's digital input is enabled first.
    pub fn set_pin_mode(&self, index: u8, mode: Mode) -> (r: Vec<PortEffect>)
        requires
            index < 32,
        ensures
            r@ == spec_pin_mode_effects(self.number, index, mode.0),
    {
        let ioc_index = index / 4;
        let lo: u8 = index & 0x3;
        assert(lo <= 3) by (bit_vector)
            requires
                lo == index & 0x3,
        ;
        let shift: u32 = (lo as u32) * 8;
        let is_supervisor = self.number == PortNumber::_40;
        let mut effects: Vec<PortEffect> = Vec::new();
        if is_supervisor {
            effects.push(PortEffect::PdiscClearBit(index));
        }
        let v: u32 = mode.0 << shift;
        let m: u32 = 0xFFu32 << shift;
        effects.push(PortEffect::IocrLdmst { index: ioc_index, value: v, mask: m });
        proof {
            assert(effects@ =~= spec_pin_mode_effects(self.number, index, mode.0));
        }
        effects
    }

    /// Sets the pad driver of pin `index`.
    pub fn set_pin_pad_driver(&self, index: u8, driver: PadDriver) -> (r: PortEffect)
        ensures
            r == spec_pad_driver_effect(index, driver),
    {
        let pdr_index = index / 8;
        let lo: u8 = index & 0x7;
        assert(lo <= 7) by (bit_vector)
            requires
                lo == index & 0x7,
        ;
        let shift: u32 = (lo as u32) * 4;
        let v: u32 = driver.value() << shift;
        let m: u32 = 0xFu32 << shift;
        PortEffect::PdrLdmst { index: pdr_index, value: v, mask: m }
    }
}

} // verus!
