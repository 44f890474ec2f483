//! Register accesses of a CAN node, as values, and the register arithmetic
//! behind them.
use vstd::prelude::*;
use crate::can::can_node::{code_bytes, data_field_bytes, PortEffect, PortNumber};
use crate::can::msg::{ReadFrom, RxBufferId, TxBufferId};
use crate::can::reg::{field_get, get_field, lemma_field_get_bound};

verus! {

/// One register access of a node. Field values are those written into the
/// named register field; a start address field holds the byte address
/// divided by four.
#[derive(Clone, Copy, PartialEq, Eq, Structural, Debug)]
pub enum NodeEffect {
    /// Run the sequence of [`enable_configuration_change_steps`].
    EnableConfigurationChange,
    /// Run the sequence of [`disable_configuration_change_steps`].
    DisableConfigurationChange,
    /// NBTP: nominal prescaler, jump width and time segments.
    NominalTiming { brp: u16, sjw: u8, tseg1: u8, tseg2: u8 },
    /// DBTP: data prescaler, jump width and time segments.
    DataTiming { dbrp: u8, dsjw: u8, dtseg1: u8, dtseg2: u8 },
    /// DBTP.TDC set, then TDCR.TDCO written.
    TransceiverDelayCompensationOffset(u8),
    /// TXESC.TBDS.
    TxBufferDataFieldSize(u8),
    /// TXBC.TBSA.
    TxBufferStartAddress(u16),
    /// TXBC.NDTB.
    DedicatedTxBuffersNumber(u8),
    /// TXBC.TFQM.
    TransmitFifoQueueMode(u8),
    /// TXBC.TFQS.
    TransmitFifoQueueSize(u8),
    /// Bit of TXBTIE set.
    TxBufferTransmissionInterrupt(u8),
    /// TXEFC.EFSA.
    TxEventFifoStartAddress(u16),
    /// TXEFC.EFS.
    TxEventFifoSize(u8),
    /// CCCR.FDOE and CCCR.BRSE.
    FrameMode { fdoe: bool, brse: bool },
    /// RXESC.RBDS.
    RxBufferDataFieldSize(u8),
    /// RXBC.RBSA.
    RxBufferStartAddress(u16),
    /// RXESC.F0DS.
    RxFifo0DataFieldSize(u8),
    /// RXF0C.F0SA.
    RxFifo0StartAddress(u16),
    /// RXF0C.F0S.
    RxFifo0Size(u8),
    /// RXF0C.F0OM.
    RxFifo0OperatingMode(u8),
    /// RXF0C.F0WM.
    RxFifo0WatermarkLevel(u8),
    /// RXESC.F1DS.
    RxFifo1DataFieldSize(u8),
    /// RXF1C.F1SA.
    RxFifo1StartAddress(u16),
    /// RXF1C.F1S.
    RxFifo1Size(u8),
    /// RXF1C.F1OM.
    RxFifo1OperatingMode(u8),
    /// RXF1C.F1WM.
    RxFifo1WatermarkLevel(u8),
    /// Bits or-ed into GRINT1.
    InterruptRoutingGroup1(u32),
    /// Bits or-ed into GRINT2.
    InterruptRoutingGroup2(u32),
    /// Bit of IE set.
    EnableInterrupt(u8),
    /// IR written with only this bit set.
    ClearInterruptFlag(u8),
    /// NPCR.RXSEL.
    ConnectPinRx(u8),
    /// An access to a GPIO port.
    Port(PortNumber, PortEffect),
    /// The service request of interrupt line `line` of module `module`
    /// enabled with `priority` and type of service `tos`.
    EnableServiceRequest { module: u8, line: u8, priority: u8, tos: u8 },
    /// RXF0A.F0AI.
    RxFifo0AcknowledgeIndex(u8),
    /// RXF1A.F1AI.
    RxFifo1AcknowledgeIndex(u8),
    /// NDAT1 written with this value.
    NewData1(u32),
    /// NDAT2 written with this value.
    NewData2(u32),
    /// Bit of TXBAR set.
    TxBufferAddRequest(u8),
}

/// A step of the sequence that switches a node's configuration change
/// protection: a write of CCCR.CCE or CCCR.INIT, or a wait until the field
/// reads the given value.
#[derive(Clone, Copy, PartialEq, Eq, Structural, Debug)]
pub enum CccrStep {
    SetCce(u8),
    SetInit(u8),
    SetCceAndInit(u8),
    WaitCce(u8),
    WaitInit(u8),
}

/// Steps that open a node for configuration, given CCCR.INIT as read first:
/// a node already in initialisation leaves it first, then initialisation is
/// requested and the configuration change enabled.
pub open spec fn spec_enable_configuration_change(init: u8) -> Seq<CccrStep> {
    let leave = seq![
        CccrStep::SetCce(0),
        CccrStep::WaitCce(0),
        CccrStep::SetInit(0),
        CccrStep::WaitInit(0),
    ];
    let enter = seq![CccrStep::SetInit(1), CccrStep::WaitInit(1), CccrStep::SetCceAndInit(1)];
    if init == 1 {
        leave + enter
    } else {
        enter
    }
}

/// The steps that open a node for configuration.
pub fn enable_configuration_change_steps(init: u8) -> (r: Vec<CccrStep>)
    ensures
        r@ == spec_enable_configuration_change(init),
{
    let mut steps: Vec<CccrStep> = Vec::new();
    if init == 1 {
        steps.push(CccrStep::SetCce(0));
        steps.push(CccrStep::WaitCce(0));
        steps.push(CccrStep::SetInit(0));
        steps.push(CccrStep::WaitInit(0));
    }
    steps.push(CccrStep::SetInit(1));
    steps.push(CccrStep::WaitInit(1));
    steps.push(CccrStep::SetCceAndInit(1));
    proof {
        assert(steps@ =~= spec_enable_configuration_change(init));
    }
    steps
}

/// The steps that close a node's configuration and start it.
pub fn disable_configuration_change_steps() -> (r: Vec<CccrStep>)
    ensures
        r@ == seq![
            CccrStep::SetCce(0),
            CccrStep::WaitCce(0),
            CccrStep::SetInit(0),
            CccrStep::WaitInit(0),
        ],
{
    let mut steps: Vec<CccrStep> = Vec::new();
    steps.push(CccrStep::SetCce(0));
    steps.push(CccrStep::WaitCce(0));
    steps.push(CccrStep::SetInit(0));
    steps.push(CccrStep::WaitInit(0));
    proof {
        assert(steps@ =~= seq![
            CccrStep::SetCce(0),
            CccrStep::WaitCce(0),
            CccrStep::SetInit(0),
            CccrStep::WaitInit(0),
        ]);
    }
    steps
}

/// Start bit of the size code of `from` in RXESC: F0DS at 0, F1DS at 4,
/// RBDS at 8.
pub open spec fn rx_size_code_start(from: ReadFrom) -> u32 {
    match from {
        ReadFrom::RxFifo0 => 0,
        ReadFrom::RxFifo1 => 4,
        ReadFrom::Buffer(_) => 8,
    }
}

/// Number of data bytes of the elements of `from`, given the RXESC value.
pub open spec fn spec_rx_data_field_size(from: ReadFrom, rxesci: u32) -> int {
    code_bytes(field_get(rxesci, rx_size_code_start(from), 7) as u8)
}

/// Number of data bytes of the elements of `from`, given the RXESC value.
pub fn get_data_field_size(from: ReadFrom, rxesci: u32) -> (r: u8)
    ensures
        r == spec_rx_data_field_size(from, rxesci),
        8 <= r <= 64,
{
    let start: u32 = match from {
        ReadFrom::RxFifo0 => 0,
        ReadFrom::RxFifo1 => 4,
        ReadFrom::Buffer(_) => 8,
    };
    proof {
        lemma_field_get_bound(rxesci, start, 7);
    }
    let size_code = get_field(rxesci, start, 7) as u8;
    data_field_bytes(size_code)
}

/// Each receive section takes its element size from its own field of
/// RXESC: FIFO 0 from F0DS (bits 0..2), FIFO 1 from F1DS (bits 4..6), the
/// buffers from RBDS (bits 8..10). Two RXESC values that agree on a
/// section's field give it the same size, whatever the other fields hold;
/// code 0 is 8 bytes and code 7 is 64 bytes; and element `n` of FIFO 1 lies
/// `n` times (8 + its size) bytes after the section start.
pub proof fn lemma_rx_size_fields(a: u32, b: u32, id: RxBufferId, ram_base: u32, start: u16, n: u8)
    ensures
        (a & 0x7) == (b & 0x7) ==> spec_rx_data_field_size(ReadFrom::RxFifo0, a)
            == spec_rx_data_field_size(ReadFrom::RxFifo0, b),
        ((a >> 4u32) & 0x7) == ((b >> 4u32) & 0x7) ==> spec_rx_data_field_size(ReadFrom::RxFifo1, a)
            == spec_rx_data_field_size(ReadFrom::RxFifo1, b),
        ((a >> 8u32) & 0x7) == ((b >> 8u32) & 0x7) ==> spec_rx_data_field_size(
            ReadFrom::Buffer(id),
            a,
        ) == spec_rx_data_field_size(ReadFrom::Buffer(id), b),
        (a & 0x7) == 0 ==> spec_rx_data_field_size(ReadFrom::RxFifo0, a) == 8,
        (a & 0x7) == 7 ==> spec_rx_data_field_size(ReadFrom::RxFifo0, a) == 64,
        ((a >> 4u32) & 0x7) == 0 ==> spec_rx_data_field_size(ReadFrom::RxFifo1, a) == 8,
        ((a >> 4u32) & 0x7) == 7 ==> spec_rx_data_field_size(ReadFrom::RxFifo1, a) == 64,
        ((a >> 8u32) & 0x7) == 0 ==> spec_rx_data_field_size(ReadFrom::Buffer(id), a) == 8,
        ((a >> 8u32) & 0x7) == 7 ==> spec_rx_data_field_size(ReadFrom::Buffer(id), a) == 64,
        ((a >> 4u32) & 0x7) == 7 ==> spec_rx_element_address(ram_base, start, ReadFrom::RxFifo1, n, a)
            == ram_base + start + 72 * n,
        ((a >> 4u32) & 0x7) == 0 ==> spec_rx_element_address(ram_base, start, ReadFrom::RxFifo1, n, a)
            == ram_base + start + 16 * n,
{
    assert((a >> 0u32) & 7 == a & 7) by (bit_vector);
    assert((b >> 0u32) & 7 == b & 7) by (bit_vector);
}

/// Address of element `id` of a receive FIFO or of the receive buffers,
/// whose section starts `start` bytes into the message RAM at `ram_base`.
pub open spec fn spec_rx_element_address(
    ram_base: u32,
    start: u16,
    from: ReadFrom,
    id: u8,
    rxesci: u32,
) -> int {
    ram_base + start + (8 + spec_rx_data_field_size(from, rxesci)) * id
}

/// Address of element `buffer_number` of the section of `from` that starts
/// `start_address` bytes into the message RAM at `ram_base_address`, given
/// the RXESC value.
pub fn get_rx_element_address(
    ram_base_address: u32,
    start_address: u16,
    from: ReadFrom,
    buffer_number: RxBufferId,
    rxesci: u32,
) -> (r: u32)
    requires
        spec_rx_element_address(ram_base_address, start_address, from, buffer_number@, rxesci)
            <= u32::MAX,
    ensures
        r == spec_rx_element_address(ram_base_address, start_address, from, buffer_number@, rxesci),
{
    let num_of_config_bytes = 8u32;
    let num_of_data_bytes = get_data_field_size(from, rxesci) as u32;
    let buffer_size = num_of_config_bytes + num_of_data_bytes;
    let id = buffer_number.value() as u32;
    assert(buffer_size * id <= 72 * 63) by (nonlinear_arith)
        requires
            buffer_size <= 72,
            id <= 63,
    ;
    let buffer_index = buffer_size * id;
    ram_base_address + start_address as u32 + buffer_index
}

/// Number of data bytes of a transmit element, given the TXESC value. Only
/// bit 1 of the size code is taken into account, so the result is 8 or 16.
pub open spec fn spec_tx_data_field_size(txesci: u32) -> int {
    code_bytes((txesci & 2) as u8)
}

/// Number of data bytes of a transmit element, given the TXESC value.
pub fn get_tx_buffer_data_field_size(txesci: u32) -> (r: u8)
    ensures
        r == spec_tx_data_field_size(txesci),
        r == 8 || r == 16,
{
    let size_code: u8 = (txesci & 0x2) as u8;
    assert(size_code == 0 || size_code == 2) by (bit_vector)
        requires
            size_code == (txesci & 0x2) as u8,
    ;
    data_field_bytes(size_code)
}

/// Whether transmit buffer `id` has a pending request, given the TXBRP value.
pub open spec fn spec_request_pending(txbrp: u32, id: u8) -> bool {
    (txbrp >> id) & 1 == 1
}

/// Whether transmit buffer `tx_buffer_id` has a pending request, given the
/// TXBRP value.
pub fn is_tx_buffer_request_pending(tx_buffer_id: TxBufferId, txbrp: u32) -> (r: bool)
    ensures
        r == spec_request_pending(txbrp, tx_buffer_id@),
{
    let id = tx_buffer_id.value();
    (txbrp >> id) & 1 == 1
}

/// Whether transmission from buffer `tx_buffer_id` occurred, given the
/// TXBTO value.
pub fn is_tx_buffer_transmission_occured(tx_buffer_id: u8, txbto: u32) -> (r: bool)
    requires
        tx_buffer_id < 32,
    ensures
        r == (txbto & (1u32 << tx_buffer_id) != 0),
{
    let mask = 1u32 << tx_buffer_id;
    (txbto & mask) != 0
}

/// Whether the cancellation of buffer `tx_buffer_id` finished, given the
/// TXBTO value: it is reported as a transmission that occurred.
pub fn is_tx_buffer_cancellation_finished(tx_buffer_id: TxBufferId, txbto: u32) -> (r: bool)
    ensures
        r == (txbto & (1u32 << tx_buffer_id@) != 0),
{
    is_tx_buffer_transmission_occured(tx_buffer_id.value(), txbto)
}

/// The write that clears the new data flag of receive buffer `id`: bit `id`
/// of NDAT1 for the first 32 buffers, bit `id - 32` of NDAT2 for the others.
pub open spec fn spec_clear_new_data(id: u8) -> NodeEffect {
    if id < 32 {
        NodeEffect::NewData1(1u32 << id)
    } else {
        NodeEffect::NewData2(1u32 << (id - 32) as u8)
    }
}

/// The write that clears the new data flag of receive buffer `rx_buffer_id`.
pub fn clear_rx_buffer_new_data_flag(rx_buffer_id: RxBufferId) -> (r: NodeEffect)
    ensures
        r == spec_clear_new_data(rx_buffer_id@),
{
    let id = rx_buffer_id.value();
    if id < 32 {
        NodeEffect::NewData1(1u32 << id)
    } else {
        NodeEffect::NewData2(1u32 << (id - 32))
    }
}

/// Whether receive buffer `rx_buffer_id` holds new data, given NDAT1 and NDAT2.
pub open spec fn spec_new_data(rx_buffer_id: u8, ndat1: u32, ndat2: u32) -> bool {
    if rx_buffer_id < 32 {
        ndat1 & (1u32 << rx_buffer_id) != 0
    } else {
        ndat2 & (1u32 << (rx_buffer_id - 32) as u8) != 0
    }
}

/// Whether receive buffer `rx_buffer_id` holds new data, given NDAT1 and NDAT2.
pub fn is_rx_buffer_new_data_updated(rx_buffer_id: RxBufferId, ndat1: u32, ndat2: u32) -> (r: bool)
    ensures
        r == spec_new_data(rx_buffer_id@, ndat1, ndat2),
{
    let id = rx_buffer_id.value();
    if id < 32 {
        ndat1 & (1u32 << id) != 0
    } else {
        ndat2 & (1u32 << (id - 32)) != 0
    }
}

/// The request to transmit buffer `id`; there is none for an id above 31.
pub fn set_tx_buffer_add_request(id: u8) -> (r: Option<NodeEffect>)
    ensures
        r is Some <==> id < 32,
        r matches Some(e) ==> e == NodeEffect::TxBufferAddRequest(id),
{
    if id < 32 {
        Some(NodeEffect::TxBufferAddRequest(id))
    } else {
        None
    }
}

} // verus!
