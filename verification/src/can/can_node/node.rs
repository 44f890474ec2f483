//! A CAN node and what it decides: the register accesses that configure it,
//! the transmit element it writes and the message it reads back.
use vstd::prelude::*;
use core::marker::PhantomData;
use crate::can::baud_rate::{
    BitTimingConfig, FastBitTimingConfig, calculate_bit_timing, calculate_fast_bit_timing,
    data_timing_encodable, nominal_timing_encodable, spec_bit_timing, DBTP_DBRP_MSK,
    DBTP_DTSEG1_MSK, DBTP_DTSEG2_MSK, NBTP_NBRP_MSK, NBTP_NTSEG1_MSK, NBTP_NTSEG2_MSK,
};
use crate::can::can_module::{ClockSelect, Enabled, Module, ModuleId, clksel_start, clock_source_code};
use crate::can::can_node::effects::{
    NodeEffect, clear_rx_buffer_new_data_flag, get_rx_element_address,
    get_tx_buffer_data_field_size, is_tx_buffer_request_pending, spec_clear_new_data,
    spec_request_pending, spec_rx_element_address, spec_tx_data_field_size,
};
use crate::can::can_node::{
    TX_BUFFER_START_ADDRESS, Configurable, TransmitError, Configured, ConfigError, FifoData, InputMode, Interrupt, InterruptGroup,
    InterruptLine, NodeConfig, NodeId, NodeInterruptConfig, OutputMode, PadDriver, Pins, Port,
    PortEffect, PortNumber, RxConfig, RxFifoMode, RxMode, RxSel, RxdIn, Tos, TxConfig, TxMode,
    TxdOut, dfs_code, input_mode_bits, interrupt_bit, interrupt_bit_index, interrupt_group_code,
    interrupt_line_code, output_idx_bits, output_mode_bits, rx_sel_code, spec_pad_driver_effect,
    spec_pin_mode_effects, state_bits, State, tos_code,
};
use crate::cpu::Priority;
use crate::can::frame::{DataLenghtCode, Frame, dlc_code, dlc_from_code, dlc_length, dlc_of_length, is_valid_length};
use crate::can::internals::{
    Rx, Tx, bit, decode_frame_mode, decode_id, decode_id_length, encode_id, frame_mode_bits,
    id_fits, lemma_data_length_round_trip, lemma_frame_mode_round_trip,
    lemma_message_id_round_trip,
};
use crate::can::msg::{FrameMode, MessageId, ReadFrom, RxBufferId, RxMessage, TxBufferId};
use crate::can::reg::{field_get, field_set, lemma_field_set_other};

verus! {

/// A node of module `M` with index `I`, in type state `State`
/// ([`Configurable`] or [`Configured`]).
pub struct Node<M, I, State> {
    pub frame_mode: FrameMode,
    pub ram_base_address: u32,
    pub rx_config: Option<RxConfig>,
    pub _phantom: PhantomData<(M, I, State)>,
}

/// The nominal timing written for a bit timing configuration, with a module
/// clock of `freq` Hz.
pub open spec fn spec_nominal_timing(cfg: BitTimingConfig, freq: u32) -> NodeEffect {
    match cfg {
        BitTimingConfig::Auto(a) => {
            let t = spec_bit_timing(
                NBTP_NBRP_MSK as int,
                NBTP_NTSEG1_MSK as int,
                NBTP_NTSEG2_MSK as int,
                freq as int,
                a.baud_rate as int,
                a.sample_point as int,
                a.sync_jump_width as int,
            );
            NodeEffect::NominalTiming {
                brp: (t.0 - 1) as u16,
                sjw: (t.1 - 1) as u8,
                tseg1: (t.2 - 1) as u8,
                tseg2: (t.3 - 1) as u8,
            }
        },
        BitTimingConfig::Manual(m) => NodeEffect::NominalTiming {
            brp: m.brp,
            sjw: m.sjw,
            tseg1: m.tseg1,
            tseg2: m.tseg2,
        },
    }
}

/// The data timing written for a fast bit timing configuration, with a
/// module clock of `freq` Hz.
pub open spec fn spec_data_timing(cfg: FastBitTimingConfig, freq: u32) -> NodeEffect {
    match cfg {
        FastBitTimingConfig::Auto(a) => {
            let t = spec_bit_timing(
                DBTP_DBRP_MSK as int,
                DBTP_DTSEG1_MSK as int,
                DBTP_DTSEG2_MSK as int,
                freq as int,
                a.baud_rate as int,
                a.sample_point as int,
                a.sync_jump_width as int,
            );
            NodeEffect::DataTiming {
                dbrp: (t.0 - 1) as u8,
                dsjw: (t.1 - 1) as u8,
                dtseg1: (t.2 - 1) as u8,
                dtseg2: (t.3 - 1) as u8,
            }
        },
        FastBitTimingConfig::Manual(m) => NodeEffect::DataTiming {
            dbrp: m.brp,
            dsjw: m.sjw,
            dtseg1: m.tseg1,
            dtseg2: m.tseg2,
        },
    }
}

/// Whether the automatic timings of `config` can be encoded, with a module
/// clock of `freq` Hz (the data timing counts only for CAN FD).
pub open spec fn config_timings_encodable(config: NodeConfig, freq: u32) -> bool {
    &&& (config.baud_rate matches BitTimingConfig::Auto(a) ==> nominal_timing_encodable(
        freq as int,
        a.baud_rate as int,
        a.sample_point as int,
        a.sync_jump_width as int,
    ))
    &&& (config.frame_mode != FrameMode::Standard ==> (
    config.fast_baud_rate matches FastBitTimingConfig::Auto(a) ==> data_timing_encodable(
        freq as int,
        a.baud_rate as int,
        a.sample_point as int,
        a.sync_jump_width as int,
    )))
}

/// The nominal timing to write for `baud_rate`, with a module clock of
/// `module_freq` Hz.
pub fn configure_baud_rate(baud_rate: &BitTimingConfig, module_freq: u32) -> (r: NodeEffect)
    requires
        baud_rate matches BitTimingConfig::Auto(a) ==> nominal_timing_encodable(
            module_freq as int,
            a.baud_rate as int,
            a.sample_point as int,
            a.sync_jump_width as int,
        ),
    ensures
        r == spec_nominal_timing(*baud_rate, module_freq),
{
    match baud_rate {
        BitTimingConfig::Auto(a) => {
            let t = calculate_bit_timing(module_freq, a.baud_rate, a.sample_point, a.sync_jump_width);
            NodeEffect::NominalTiming { brp: t.brp, sjw: t.sjw, tseg1: t.tseg1, tseg2: t.tseg2 }
        },
        BitTimingConfig::Manual(m) => NodeEffect::NominalTiming {
            brp: m.brp,
            sjw: m.sjw,
            tseg1: m.tseg1,
            tseg2: m.tseg2,
        },
    }
}

/// The data timing to write for `baud_rate`, with a module clock of
/// `module_freq` Hz.
pub fn configure_fast_baud_rate(baud_rate: &FastBitTimingConfig, module_freq: u32) -> (r: NodeEffect)
    requires
        baud_rate matches FastBitTimingConfig::Auto(a) ==> data_timing_encodable(
            module_freq as int,
            a.baud_rate as int,
            a.sample_point as int,
            a.sync_jump_width as int,
        ),
    ensures
        r == spec_data_timing(*baud_rate, module_freq),
{
    match baud_rate {
        FastBitTimingConfig::Auto(a) => {
            let t = calculate_fast_bit_timing(module_freq, a.baud_rate, a.sample_point, a.sync_jump_width);
            NodeEffect::DataTiming { dbrp: t.brp, dsjw: t.sjw, dtseg1: t.tseg1, dtseg2: t.tseg2 }
        },
        FastBitTimingConfig::Manual(m) => NodeEffect::DataTiming {
            dbrp: m.brp,
            dsjw: m.sjw,
            dtseg1: m.tseg1,
            dtseg2: m.tseg2,
        },
    }
}

/// Register accesses of a new node: configuration change enabled, nominal
/// timing, data timing for CAN FD, transceiver delay compensation when an
/// offset is given.
pub open spec fn spec_new_effects(config: NodeConfig, freq: u32) -> Seq<NodeEffect> {
    let fast = if config.frame_mode != FrameMode::Standard {
        seq![spec_data_timing(config.fast_baud_rate, freq)]
    } else {
        seq![]
    };
    let tdc = if config.transceiver_delay_offset != 0 {
        seq![NodeEffect::TransceiverDelayCompensationOffset(config.transceiver_delay_offset)]
    } else {
        seq![]
    };
    seq![NodeEffect::EnableConfigurationChange, spec_nominal_timing(config.baud_rate, freq)] + fast
        + tdc
}

/// Whether the clock selection of node `index` in the MCR value read back
/// holds the requested source.
pub open spec fn clock_source_set(mcr: u32, index: u8, config: NodeConfig) -> bool {
    field_get(mcr, clksel_start(index), 3) == clock_source_code(config.clock_source) as u32
}

/// The frame mode bits written into CCCR.
pub open spec fn spec_frame_mode_effect(fm: FrameMode) -> NodeEffect {
    NodeEffect::FrameMode { fdoe: frame_mode_bits(fm).0, brse: frame_mode_bits(fm).1 }
}

/// The frame mode bits written into CCCR.
pub fn frame_mode_effect(fm: FrameMode) -> (r: NodeEffect)
    ensures
        r == spec_frame_mode_effect(fm),
{
    let (fdoe, brse) = match fm {
        FrameMode::Standard => (false, false),
        FrameMode::FdLong => (true, false),
        FrameMode::FdLongAndFast => (true, true),
    };
    NodeEffect::FrameMode { fdoe, brse }
}


/// Transmission interrupts enabled for the buffers `0..n` that exist (at
/// most 32).
pub open spec fn spec_tx_interrupts(n: nat) -> Seq<NodeEffect> {
    Seq::new(
        if n <= 32 { n } else { 32 },
        |i: int| NodeEffect::TxBufferTransmissionInterrupt(i as u8),
    )
}

/// Value of TXBC.TFQM for a transmit mode: set for any mode other than
/// dedicated buffers.
pub open spec fn tfqm_bit(mode: TxMode) -> u8 {
    if mode != TxMode::DedicatedBuffers { 1 } else { 0 }
}

/// Register accesses of the transmit configuration `c` of a node in frame
/// mode `fm`.
pub open spec fn spec_setup_tx(fm: FrameMode, c: TxConfig) -> Seq<NodeEffect> {
    let head = seq![
        NodeEffect::TxBufferDataFieldSize(dfs_code(c.buffer_data_field_size)),
        NodeEffect::TxBufferStartAddress(c.tx_buffers_start_address >> 2),
    ];
    let dedicated = NodeEffect::DedicatedTxBuffersNumber(c.dedicated_tx_buffers_number);
    let size = NodeEffect::TransmitFifoQueueSize(c.fifo_queue_size);
    let all = (c.dedicated_tx_buffers_number + c.fifo_queue_size) as nat;
    let body = match c.mode {
        TxMode::DedicatedBuffers => seq![dedicated] + spec_tx_interrupts(all),
        TxMode::SharedFifo => seq![
            dedicated,
            NodeEffect::TransmitFifoQueueMode(tfqm_bit(TxMode::Fifo)),
            size,
        ] + spec_tx_interrupts(all),
        TxMode::SharedQueue => seq![
            dedicated,
            NodeEffect::TransmitFifoQueueMode(tfqm_bit(TxMode::Queue)),
            size,
        ] + spec_tx_interrupts(all),
        _ => seq![NodeEffect::TransmitFifoQueueMode(tfqm_bit(c.mode)), size] + spec_tx_interrupts(
            c.fifo_queue_size as nat,
        ),
    };
    let event = if 1 <= c.event_fifo_size <= 32 {
        seq![
            NodeEffect::TxEventFifoStartAddress(c.tx_event_fifo_start_address >> 2),
            NodeEffect::TxEventFifoSize(c.event_fifo_size),
        ]
    } else {
        seq![]
    };
    head + body + event + seq![spec_frame_mode_effect(fm)]
}

/// Whether the buffer count of `c` fits the 8-bit loop over its buffers.
pub open spec fn tx_config_counts_fit(c: TxConfig) -> bool {
    (c.mode == TxMode::DedicatedBuffers || c.mode == TxMode::SharedFifo || c.mode
        == TxMode::SharedQueue) ==> c.dedicated_tx_buffers_number + c.fifo_queue_size <= 255
}

/// Appends the transmission interrupt enables of buffers `0..n`.
fn push_tx_interrupts(effects: &mut Vec<NodeEffect>, n: u8)
    ensures
        final(effects)@ == old(effects)@ + spec_tx_interrupts(n as nat),
{
    let ghost start = effects@;
    let mut id: u8 = 0;
    while id < n
        invariant
            id <= n,
            effects@ == start + spec_tx_interrupts(id as nat),
        decreases n - id,
    {
        match TxBufferId::try_from(id) {
            Ok(tx_buffer_id) => {
                effects.push(NodeEffect::TxBufferTransmissionInterrupt(u8::from(tx_buffer_id)));
            },
            Err(_) => {},
        }
        proof {
            assert(effects@ =~= start + spec_tx_interrupts((id + 1) as nat));
        }
        id = id + 1;
    }
}

/// The value of TXBC.TFQM for a transmit mode.
fn transmit_fifo_queue_mode(mode: TxMode) -> (r: NodeEffect)
    ensures
        r == NodeEffect::TransmitFifoQueueMode(tfqm_bit(mode)),
{
    let val: u8 = if mode != TxMode::DedicatedBuffers { 1 } else { 0 };
    NodeEffect::TransmitFifoQueueMode(val)
}

/// Value of the operating mode field of a receive FIFO: set for overwrite.
pub open spec fn overwrite_bit(mode: RxFifoMode) -> u8 {
    if mode == RxFifoMode::Overwrite { 1 } else { 0 }
}

/// Register accesses that configure receive FIFO 0.
pub open spec fn spec_rx_fifo0(c: RxConfig) -> Seq<NodeEffect> {
    seq![
        NodeEffect::RxFifo0DataFieldSize(dfs_code(c.fifo0_data_field_size)),
        NodeEffect::RxFifo0StartAddress(c.rx_fifo0_start_address >> 2),
        NodeEffect::RxFifo0Size(c.fifo0_size),
        NodeEffect::RxFifo0OperatingMode(overwrite_bit(c.fifo0_operating_mode)),
        NodeEffect::RxFifo0WatermarkLevel(c.fifo0_watermark_level),
    ]
}

/// Register accesses that configure receive FIFO 1.
pub open spec fn spec_rx_fifo1(c: RxConfig) -> Seq<NodeEffect> {
    seq![
        NodeEffect::RxFifo1DataFieldSize(dfs_code(c.fifo1_data_field_size)),
        NodeEffect::RxFifo1StartAddress(c.rx_fifo1_start_address >> 2),
        NodeEffect::RxFifo1Size(c.fifo1_size),
        NodeEffect::RxFifo1OperatingMode(overwrite_bit(c.fifo1_operating_mode)),
        NodeEffect::RxFifo1WatermarkLevel(c.fifo1_watermark_level),
    ]
}

/// Register accesses of the receive configuration `c` of a node in frame
/// mode `fm`.
pub open spec fn spec_setup_rx(fm: FrameMode, c: RxConfig) -> Seq<NodeEffect> {
    let buffers = seq![
        NodeEffect::RxBufferDataFieldSize(dfs_code(c.buffer_data_field_size)),
        NodeEffect::RxBufferStartAddress(c.rx_buffers_start_address >> 2),
    ];
    let body = match c.mode {
        RxMode::DedicatedBuffers => buffers,
        RxMode::SharedFifo0 => buffers + spec_rx_fifo0(c),
        RxMode::SharedFifo1 => buffers + spec_rx_fifo1(c),
        RxMode::SharedAll => buffers + spec_rx_fifo0(c) + spec_rx_fifo1(c),
        RxMode::Fifo0 => spec_rx_fifo0(c),
        RxMode::Fifo1 => spec_rx_fifo1(c),
    };
    body + seq![spec_frame_mode_effect(fm)]
}

/// The accesses `pes` of port `port`, as node effects.
pub open spec fn port_effects(port: PortNumber, pes: Seq<PortEffect>) -> Seq<NodeEffect> {
    pes.map_values(|e: PortEffect| NodeEffect::Port(port, e))
}

/// Register accesses that route the receive pin `rx` to the node: the pin
/// becomes an input with pull-up and speed 3 driver, and the node selects it.
pub open spec fn spec_connect_pin_rx<M, N>(rx: RxdIn<M, N>) -> Seq<NodeEffect> {
    port_effects(rx.port, spec_pin_mode_effects(rx.port, rx.pin_index, input_mode_bits(InputMode::PullUp)))
        + seq![
        NodeEffect::Port(rx.port, spec_pad_driver_effect(rx.pin_index, PadDriver::CmosAutomotiveSpeed3)),
        NodeEffect::ConnectPinRx(rx_sel_code(rx.select)),
    ]
}

/// Register accesses that route the transmit pin `tx` to the node: the pin
/// becomes a push-pull output of its alternate function with speed 3 driver,
/// driven low.
pub open spec fn spec_connect_pin_tx<M, N>(tx: TxdOut<M, N>) -> Seq<NodeEffect> {
    port_effects(
        tx.port,
        spec_pin_mode_effects(
            tx.port,
            tx.pin_index,
            output_mode_bits(OutputMode::PushPull) | output_idx_bits(tx.select),
        ),
    ) + seq![
        NodeEffect::Port(tx.port, spec_pad_driver_effect(tx.pin_index, PadDriver::CmosAutomotiveSpeed3)),
        NodeEffect::Port(tx.port, PortEffect::Omr(state_bits(State::Low) << tx.pin_index)),
    ]
}

/// The routing of interrupt group `group` to line `line`: groups 0 to 7 have
/// a 4-bit field each in GRINT1, the others in GRINT2.
pub open spec fn spec_group_interrupt_line(group: InterruptGroup, line: InterruptLine) -> NodeEffect {
    let l = interrupt_line_code(line) as u32;
    let g = interrupt_group_code(group) as u32;
    if g < 8 {
        NodeEffect::InterruptRoutingGroup1(l << (g * 4) as u32)
    } else {
        NodeEffect::InterruptRoutingGroup2(l << ((g % 8) * 4) as u32)
    }
}

proof fn lemma_routing_field(l: u32, k: u32)
    requires
        l < 16,
        k < 8,
    ensures
        ((l << (k * 4)) >> (k * 4)) & 0xF == l,
        (l << (k * 4)) & !(0xFu32 << (k * 4)) == 0,
{
    assert(((l << (k * 4)) >> (k * 4)) & 0xF == l && (l << (k * 4)) & !(0xFu32 << (k * 4)) == 0)
        by (bit_vector)
        requires
            l < 16,
            k < 8,
    ;
}

/// Interrupt routing: the eight groups up to LOI (codes 0 to 7) are routed
/// through GRINT1 and the eight from REINT on (codes 8 to 15) through
/// GRINT2, never the other way round; the group with code `g` owns the
/// 4-bit field at bit `4 * (g % 8)`, which holds the line's code, and the
/// access writes no other bit.
pub proof fn lemma_group_routing(group: InterruptGroup, line: InterruptLine)
    ensures
        ({
            let r = spec_group_interrupt_line(group, line);
            let g = interrupt_group_code(group) as u32;
            let shift = (4 * (g % 8)) as u32;
            let v = match r {
                NodeEffect::InterruptRoutingGroup1(v) => v,
                NodeEffect::InterruptRoutingGroup2(v) => v,
                _ => 0,
            };
            &&& (r is InterruptRoutingGroup1) <==> g < 8
            &&& (r is InterruptRoutingGroup2) <==> 8 <= g
            &&& (r is InterruptRoutingGroup1) <==> (group == InterruptGroup::Tefifo || group
                == InterruptGroup::Hpe || group == InterruptGroup::Wati || group == InterruptGroup::Alrt
                || group == InterruptGroup::Moer || group == InterruptGroup::Safe || group
                == InterruptGroup::Boff || group == InterruptGroup::Loi)
            &&& (v >> shift) & 0xF == interrupt_line_code(line) as u32
            &&& v & !(0xFu32 << shift) == 0
        }),
{
    let g = interrupt_group_code(group) as u32;
    let l = interrupt_line_code(line) as u32;
    assert(g * 4 == 4 * g);
    if g < 8 {
        assert(g % 8 == g);
        lemma_routing_field(l, g);
    } else {
        lemma_routing_field(l, g % 8);
    }
}

/// Register accesses of the interrupt configuration `c` of a node of module
/// `module`: group routing, service request, interrupt enable.
pub open spec fn spec_setup_interrupt(module: u8, c: NodeInterruptConfig) -> Seq<NodeEffect> {
    seq![
        spec_group_interrupt_line(c.interrupt_group, c.line),
        NodeEffect::EnableServiceRequest {
            module,
            line: interrupt_line_code(c.line),
            priority: c.priority@,
            tos: tos_code(c.tos),
        },
        NodeEffect::EnableInterrupt(interrupt_bit(c.interrupt) as u8),
    ]
}

/// Appends the accesses `pes` of port `port`.
fn push_port_effects(effects: &mut Vec<NodeEffect>, port: PortNumber, pes: Vec<PortEffect>)
    ensures
        final(effects)@ == old(effects)@ + port_effects(port, pes@),
{
    let ghost start = effects@;
    let mut i: usize = 0;
    while i < pes.len()
        invariant
            i <= pes.len(),
            effects@ == start + port_effects(port, pes@.subrange(0, i as int)),
        decreases pes.len() - i,
    {
        effects.push(NodeEffect::Port(port, pes[i]));
        proof {
            assert(pes@.subrange(0, i + 1) =~= pes@.subrange(0, i as int).push(pes@[i as int]));
            assert(effects@ =~= start + port_effects(port, pes@.subrange(0, i + 1)));
        }
        i = i + 1;
    }
    proof {
        assert(pes@.subrange(0, pes@.len() as int) =~= pes@);
    }
}

/// Address of transmit element `id` in the message RAM at `ram_base`, given
/// the TXESC value.
pub open spec fn spec_tx_element_address(ram_base: u32, id: u8, txesci: u32) -> int {
    ram_base + TX_BUFFER_START_ADDRESS + (8 + spec_tx_data_field_size(txesci)) * id
}

/// Word 0 of a transmit element after a frame with identifier `id` is
/// written by a node in frame mode `fm`: identifier and format, no remote
/// request, and for CAN FD no error state indicator.
pub open spec fn spec_tx_t0(t0: u32, id: MessageId, fm: FrameMode) -> u32 {
    let w = field_set(encode_id(t0, id), 29, 1, 0);
    if fm != FrameMode::Standard {
        field_set(w, 31, 1, 0)
    } else {
        w
    }
}

/// Word 1 of a transmit element after a frame with length code `d` is
/// written by a node in frame mode `fm`: length code, then frame format.
pub open spec fn spec_tx_t1(t1: u32, d: DataLenghtCode, fm: FrameMode) -> u32 {
    field_set(
        field_set(field_set(t1, 16, 0xf, dlc_code(d) as u32), 21, 1, bit(frame_mode_bits(fm).0)),
        20,
        1,
        bit(frame_mode_bits(fm).1),
    )
}

/// Start of the message RAM section that `from` reads.
pub open spec fn rx_start_address(c: RxConfig, from: ReadFrom) -> u16 {
    match from {
        ReadFrom::RxFifo0 => c.rx_fifo0_start_address,
        ReadFrom::RxFifo1 => c.rx_fifo1_start_address,
        ReadFrom::Buffer(_) => c.rx_buffers_start_address,
    }
}

/// The buffer a read from `from` takes: the given dedicated buffer, or the
/// get index of the FIFO.
pub open spec fn read_buffer_id(from: ReadFrom, fifo_get_index: RxBufferId) -> RxBufferId {
    match from {
        ReadFrom::Buffer(id) => id,
        _ => fifo_get_index,
    }
}

/// Number of payload bytes that word 1 of a receive element announces.
pub open spec fn element_length(r1: u32) -> nat {
    dlc_length(dlc_from_code(field_get(r1, 16, 0xf) as u8).unwrap())
}

/// Acknowledgement of a FIFO read of element `id`; a dedicated buffer needs none.
pub open spec fn spec_acknowledge(from: ReadFrom, id: u8) -> Seq<NodeEffect> {
    match from {
        ReadFrom::RxFifo0 => seq![NodeEffect::RxFifo0AcknowledgeIndex(id)],
        ReadFrom::RxFifo1 => seq![NodeEffect::RxFifo1AcknowledgeIndex(id)],
        ReadFrom::Buffer(_) => seq![],
    }
}

/// A read releases the element it read from its own FIFO: a read from FIFO
/// 0 or FIFO 1 gives exactly one acknowledgement, on that FIFO's
/// acknowledge register and with the index of the element read, and never
/// one on the other FIFO's; a read from a dedicated buffer gives none.
pub proof fn lemma_acknowledge_own_fifo(from: ReadFrom, id: u8)
    ensures
        ({
            let acks = spec_acknowledge(from, id);
            &&& (from is Buffer) <==> acks.len() == 0
            &&& !(from is Buffer) ==> acks.len() == 1
            &&& forall|i: int|
                0 <= i < acks.len() ==> {
                    &&& (acks[i] matches NodeEffect::RxFifo0AcknowledgeIndex(x) ==> from
                        == ReadFrom::RxFifo0 && x == id)
                    &&& (acks[i] matches NodeEffect::RxFifo1AcknowledgeIndex(x) ==> from
                        == ReadFrom::RxFifo1 && x == id)
                    &&& (acks[i] is RxFifo0AcknowledgeIndex || acks[i] is RxFifo1AcknowledgeIndex)
                }
        }),
{
}

/// A frame that a node writes into a transmit element reads back unchanged
/// from a receive element holding the same words and data field: identifier
/// and its format, length code, frame mode and payload, whatever the element
/// held before.
pub proof fn lemma_transmit_receive_round_trip(
    t0: u32,
    t1: u32,
    id: MessageId,
    data: Seq<u8>,
    rest: Seq<u8>,
    fm: FrameMode,
)
    requires
        id_fits(id),
        is_valid_length(data.len() as int),
    ensures
        decode_id(spec_tx_t0(t0, id, fm)) == id.data,
        decode_id_length(spec_tx_t0(t0, id, fm)) == id.length,
        dlc_from_code(
            field_get(spec_tx_t1(t1, dlc_of_length(data.len() as int), fm), 16, 0xf) as u8,
        ) == Some(dlc_of_length(data.len() as int)),
        element_length(spec_tx_t1(t1, dlc_of_length(data.len() as int), fm)) == data.len(),
        decode_frame_mode(spec_tx_t1(t1, dlc_of_length(data.len() as int), fm)) == fm,
        (data + rest).subrange(
            0,
            element_length(spec_tx_t1(t1, dlc_of_length(data.len() as int), fm)) as int,
        ) == data,
{
    let w = encode_id(t0, id);
    let w29 = field_set(w, 29, 1, 0);
    lemma_message_id_round_trip(t0, id);
    assert((1u32 << 29u32) & (0x1FFFFFFFu32 << 0u32) == 0) by (bit_vector);
    assert((1u32 << 29u32) & (1u32 << 30u32) == 0) by (bit_vector);
    assert((1u32 << 31u32) & (0x1FFFFFFFu32 << 0u32) == 0) by (bit_vector);
    assert((1u32 << 31u32) & (1u32 << 30u32) == 0) by (bit_vector);
    assert((0x1FFFFFFFu32 << 0u32) >> 0u32 == 0x1FFFFFFFu32) by (bit_vector);
    assert((1u32 << 30u32) >> 30u32 == 1) by (bit_vector);
    lemma_field_set_other(w, 29, 1, 0, 0, 0x1FFFFFFF);
    lemma_field_set_other(w, 29, 1, 0, 30, 1);
    lemma_field_set_other(w29, 31, 1, 0, 0, 0x1FFFFFFF);
    lemma_field_set_other(w29, 31, 1, 0, 30, 1);

    let d = dlc_of_length(data.len() as int);
    let c = field_set(t1, 16, 0xf, dlc_code(d) as u32);
    let c21 = field_set(c, 21, 1, bit(frame_mode_bits(fm).0));
    assert((1u32 << 21u32) & (0xfu32 << 16u32) == 0) by (bit_vector);
    assert((1u32 << 20u32) & (0xfu32 << 16u32) == 0) by (bit_vector);
    assert((0xfu32 << 16u32) >> 16u32 == 0xfu32) by (bit_vector);
    lemma_field_set_other(c, 21, 1, bit(frame_mode_bits(fm).0), 16, 0xf);
    lemma_field_set_other(c21, 20, 1, bit(frame_mode_bits(fm).1), 16, 0xf);
    lemma_data_length_round_trip(t1, d);
    lemma_frame_mode_round_trip(c, fm);
    assert(dlc_length(d) == data.len());
    assert((data + rest).subrange(0, data.len() as int) =~= data);
}

impl<M: ModuleId, I: NodeId> Node<M, I, Configured> {
    /// The write that clears the flag of `interrupt`.
    pub fn clear_interrupt_flag(&self, interrupt: Interrupt) -> (r: NodeEffect)
        ensures
            r == NodeEffect::ClearInterruptFlag(interrupt_bit(interrupt) as u8),
    {
        NodeEffect::ClearInterruptFlag(interrupt_bit_index(interrupt) as u8)
    }

    /// The transmit buffer to use, from the put index field (TXFQS.TFQPI) read.
    pub fn get_tx_fifo_queue_put_index(&self, tfqpi: u8) -> (r: TxBufferId)
        ensures
            r@ == tfqpi & 0x1f,
    {
        let id = tfqpi & 0x1F;
        assert(id <= 31) by (bit_vector)
            requires
                id == tfqpi & 0x1f,
        ;
        match TxBufferId::try_from(id) {
            Ok(b) => b,
            Err(_) => {
                assert(false);
                TxBufferId::try_from(0).unwrap()
            },
        }
    }

    /// Address of transmit element `buffer_number`, given the TXESC value.
    pub fn get_tx_element_address(&self, buffer_number: TxBufferId, txesci: u32) -> (r: u32)
        requires
            spec_tx_element_address(self.ram_base_address, buffer_number@, txesci) <= u32::MAX,
        ensures
            r == spec_tx_element_address(self.ram_base_address, buffer_number@, txesci),
    {
        let num_of_config_bytes = 8u32;
        let num_of_data_bytes = get_tx_buffer_data_field_size(txesci) as u32;
        let tx_buffer_size = num_of_config_bytes + num_of_data_bytes;
        let id = u8::from(buffer_number) as u32;
        assert(tx_buffer_size * id <= 24 * 31) by (nonlinear_arith)
            requires
                tx_buffer_size <= 24,
                id <= 31,
        ;
        let tx_buffer_index = tx_buffer_size * id;
        self.ram_base_address + TX_BUFFER_START_ADDRESS + tx_buffer_index
    }

    /// Writes `frame` into the transmit element `element` of the buffer that
    /// the put index field `tfqpi` names, and returns the request to send it.
    /// `txbrp` is the TXBRP value read. A buffer with a pending request is
    /// left alone (`Busy`); a payload length that no length code has fails
    /// (`InvalidDataLength`) once the identifier is written. The request is
    /// always made for buffer 0.
    #[verifier::spinoff_prover]
    pub fn transmit(&self, frame: &Frame, tfqpi: u8, txbrp: u32, element: &mut Tx) -> (r: Result<
        Vec<NodeEffect>,
        TransmitError,
    >)
        requires
            is_valid_length(frame.data@.len() as int) ==> old(element).db@.len()
                >= frame.data@.len(),
        ensures
            spec_request_pending(txbrp, tfqpi & 0x1f) ==> {
                &&& r == Err::<Vec<NodeEffect>, TransmitError>(TransmitError::Busy)
                &&& final(element).t0.data == old(element).t0.data
                &&& final(element).t1.data == old(element).t1.data
                &&& final(element).db@ == old(element).db@
            },
            !spec_request_pending(txbrp, tfqpi & 0x1f) ==> {
                &&& final(element).t0.data == spec_tx_t0(
                    old(element).t0.data,
                    frame.id,
                    self.frame_mode,
                )
                &&& !is_valid_length(frame.data@.len() as int) ==> {
                    &&& r == Err::<Vec<NodeEffect>, TransmitError>(TransmitError::InvalidDataLength)
                    &&& final(element).t1.data == old(element).t1.data
                    &&& final(element).db@ == old(element).db@
                }
                &&& is_valid_length(frame.data@.len() as int) ==> {
                    &&& r matches Ok(e) && e@ == seq![NodeEffect::TxBufferAddRequest(0)]
                    &&& final(element).t1.data == spec_tx_t1(
                        old(element).t1.data,
                        dlc_of_length(frame.data@.len() as int),
                        self.frame_mode,
                    )
                    &&& final(element).db@ == frame.data@ + old(element).db@.subrange(
                        frame.data@.len() as int,
                        old(element).db@.len() as int,
                    )
                }
            },
    {
        let buffer_id = self.get_tx_fifo_queue_put_index(tfqpi);
        self.transmit_inner(buffer_id, frame.id, false, false, false, frame.data, txbrp, element)
    }

    fn transmit_inner(
        &self,
        buffer_id: TxBufferId,
        id: MessageId,
        tx_event_fifo_control: bool,
        remote_transmit_request: bool,
        error_state_indicator: bool,
        data: &[u8],
        txbrp: u32,
        element: &mut Tx,
    ) -> (r: Result<Vec<NodeEffect>, TransmitError>)
        requires
            !tx_event_fifo_control,
            !remote_transmit_request,
            !error_state_indicator,
            is_valid_length(data@.len() as int) ==> old(element).db@.len() >= data@.len(),
        ensures
            spec_request_pending(txbrp, buffer_id@) ==> {
                &&& r == Err::<Vec<NodeEffect>, TransmitError>(TransmitError::Busy)
                &&& final(element).t0.data == old(element).t0.data
                &&& final(element).t1.data == old(element).t1.data
                &&& final(element).db@ == old(element).db@
            },
            !spec_request_pending(txbrp, buffer_id@) ==> {
                &&& final(element).t0.data == spec_tx_t0(old(element).t0.data, id, self.frame_mode)
                &&& !is_valid_length(data@.len() as int) ==> {
                    &&& r == Err::<Vec<NodeEffect>, TransmitError>(TransmitError::InvalidDataLength)
                    &&& final(element).t1.data == old(element).t1.data
                    &&& final(element).db@ == old(element).db@
                }
                &&& is_valid_length(data@.len() as int) ==> {
                    &&& r matches Ok(e) && e@ == seq![NodeEffect::TxBufferAddRequest(0)]
                    &&& final(element).t1.data == spec_tx_t1(
                        old(element).t1.data,
                        dlc_of_length(data@.len() as int),
                        self.frame_mode,
                    )
                    &&& final(element).db@ == data@ + old(element).db@.subrange(
                        data@.len() as int,
                        old(element).db@.len() as int,
                    )
                }
            },
    {
        if is_tx_buffer_request_pending(buffer_id, txbrp) {
            return Err(TransmitError::Busy);
        }
        element.set_msg_id(id);
        if tx_event_fifo_control {
            element.set_tx_event_fifo_ctrl(tx_event_fifo_control);
            element.set_message_marker(buffer_id);
        }
        element.set_remote_transmit_req(remote_transmit_request);
        if self.frame_mode == FrameMode::FdLong || self.frame_mode == FrameMode::FdLongAndFast {
            element.set_err_state_indicator(error_state_indicator);
        }
        let dlc = match DataLenghtCode::from_length(data.len()) {
            Some(d) => d,
            None => {
                return Err(TransmitError::InvalidDataLength);
            },
        };
        element.set_data_length(dlc);
        element.write_tx_buf_data(dlc, data);
        element.set_frame_mode_req(self.frame_mode);
        proof {
            assert(data@.subrange(0, dlc_length(dlc) as int) =~= data@);
        }
        let mut effects: Vec<NodeEffect> = Vec::new();
        let request_buffer: u8 = 0;
        match crate::can::can_node::effects::set_tx_buffer_add_request(request_buffer) {
            Some(e) => effects.push(e),
            None => {},
        }
        proof {
            assert(effects@ =~= seq![NodeEffect::TxBufferAddRequest(0)]);
        }
        Ok(effects)
    }

    /// Address of the element that a read from `from` takes, given the FIFO
    /// get index and the RXESC value; none before reception is set up.
    pub fn get_rx_element_address(&self, from: ReadFrom, fifo_get_index: RxBufferId, rxesci: u32) -> (r: Option<u32>)
        requires
            self.rx_config matches Some(c) ==> spec_rx_element_address(
                self.ram_base_address,
                rx_start_address(c, from),
                from,
                read_buffer_id(from, fifo_get_index)@,
                rxesci,
            ) <= u32::MAX,
        ensures
            r is None <==> self.rx_config is None,
            r matches Some(a) ==> a == spec_rx_element_address(
                self.ram_base_address,
                rx_start_address(self.rx_config.unwrap(), from),
                from,
                read_buffer_id(from, fifo_get_index)@,
                rxesci,
            ),
    {
        let rx_config = match self.rx_config {
            Some(c) => c,
            None => {
                return None;
            },
        };
        let buffer_id = match from {
            ReadFrom::Buffer(id) => id,
            _ => fifo_get_index,
        };
        let start = match from {
            ReadFrom::RxFifo0 => rx_config.rx_fifo0_start_address,
            ReadFrom::RxFifo1 => rx_config.rx_fifo1_start_address,
            ReadFrom::Buffer(_) => rx_config.rx_buffers_start_address,
        };
        Some(get_rx_element_address(self.ram_base_address, start, from, buffer_id, rxesci))
    }

    /// Reads the message in the receive element `element` that a read from
    /// `from` takes, copying its payload into `data`, and returns it with the
    /// accesses that release the element: the FIFO acknowledgement, then the
    /// clearing of its new data flag. There is no message before reception is
    /// set up.
    #[verifier::spinoff_prover]
    pub fn receive(&self, from: ReadFrom, fifo_get_index: RxBufferId, element: &Rx, data: &mut [u8]) -> (r: Option<(RxMessage, Vec<NodeEffect>)>)
        requires
            self.rx_config is Some ==> {
                &&& element.db@.len() >= element_length(element.r1.data)
                &&& old(data)@.len() >= element_length(element.r1.data)
            },
        ensures
            r is None <==> self.rx_config is None,
            r is None ==> final(data)@ == old(data)@,
            r matches Some((m, e)) ==> {
                let id = read_buffer_id(from, fifo_get_index);
                &&& m.buffer_id == id
                &&& m.id.data == decode_id(element.r0.data)
                &&& m.id.length == decode_id_length(element.r0.data)
                &&& dlc_from_code(field_get(element.r1.data, 16, 0xf) as u8) == Some(m.data_length_code)
                &&& m.frame_mode == decode_frame_mode(element.r1.data)
                &&& m.from == from
                &&& final(data)@ == element.db@.subrange(0, element_length(element.r1.data) as int)
                    + old(data)@.subrange(element_length(element.r1.data) as int, old(data)@.len() as int)
                &&& e@ == spec_acknowledge(from, id@) + seq![spec_clear_new_data(id@)]
            },
    {
        if self.rx_config.is_none() {
            return None;
        }
        let buffer_id = match from {
            ReadFrom::Buffer(id) => id,
            _ => fifo_get_index,
        };
        let id = MessageId {
            data: element.get_message_id(),
            length: element.get_message_id_length(),
        };
        let data_length_code = element.get_data_length();
        let frame_mode = element.get_frame_mode();
        element.read_data(data_length_code, data);
        let mut effects: Vec<NodeEffect> = Vec::new();
        match from {
            ReadFrom::RxFifo0 => effects.push(NodeEffect::RxFifo0AcknowledgeIndex(buffer_id.value())),
            ReadFrom::RxFifo1 => effects.push(NodeEffect::RxFifo1AcknowledgeIndex(buffer_id.value())),
            ReadFrom::Buffer(_) => {},
        }
        effects.push(clear_rx_buffer_new_data_flag(buffer_id));
        proof {
            assert(effects@ =~= spec_acknowledge(from, buffer_id@) + seq![spec_clear_new_data(buffer_id@)]);
        }
        Some((RxMessage { id, data_length_code, frame_mode, buffer_id, from }, effects))
    }
}

impl<M: ModuleId, I: NodeId> Node<M, I, Configurable> {
    /// A node of `module` configured with `config`, once the clock of node
    /// `node_id` has been switched to `config.clock_source` and the MCR value
    /// `mcr` read back. The node fails when the clock selection does not hold
    /// the requested source. `module_freq` is the module clock in Hz.
    #[verifier::spinoff_prover]
    pub fn new(
        module: &Module<M, Enabled>,
        node_id: I,
        config: NodeConfig,
        mcr: u32,
        module_freq: u32,
    ) -> (r: Result<(Self, Vec<NodeEffect>), ConfigError>)
        requires
            clock_source_set(mcr, node_id.index_spec() as u8, config) ==> config_timings_encodable(
                config,
                module_freq,
            ),
        ensures
            r is Err <==> !clock_source_set(mcr, node_id.index_spec() as u8, config),
            r matches Err(e) ==> e == ConfigError::CannotSetClockSource,
            r matches Ok((n, e)) ==> {
                &&& n.frame_mode == config.frame_mode
                &&& n.ram_base_address == module.ram_base_address
                &&& n.rx_config is None
                &&& e@ == spec_new_effects(config, module_freq)
            },
    {
        let clock_select = ClockSelect::from_node(&node_id);
        if module.check_clock_source(&clock_select, config.clock_source, mcr).is_err() {
            return Err(ConfigError::CannotSetClockSource);
        }
        let mut effects: Vec<NodeEffect> = Vec::new();
        effects.push(NodeEffect::EnableConfigurationChange);
        effects.push(configure_baud_rate(&config.baud_rate, module_freq));
        if config.frame_mode != FrameMode::Standard {
            effects.push(configure_fast_baud_rate(&config.fast_baud_rate, module_freq));
        }
        if config.transceiver_delay_offset != 0 {
            effects.push(
                NodeEffect::TransceiverDelayCompensationOffset(config.transceiver_delay_offset),
            );
        }
        proof {
            assert(effects@ =~= spec_new_effects(config, module_freq));
        }
        let node = Node {
            frame_mode: config.frame_mode,
            ram_base_address: module.ram_base_address(),
            rx_config: None,
            _phantom: PhantomData,
        };
        Ok((node, effects))
    }

    /// The node with its configuration locked.
    pub fn lock_configuration(self) -> (r: (Node<M, I, Configured>, Vec<NodeEffect>))
        ensures
            r.0.frame_mode == self.frame_mode,
            r.0.ram_base_address == self.ram_base_address,
            r.0.rx_config == self.rx_config,
            r.1@ == seq![NodeEffect::DisableConfigurationChange],
    {
        let mut effects: Vec<NodeEffect> = Vec::new();
        effects.push(NodeEffect::DisableConfigurationChange);
        proof {
            assert(effects@ =~= seq![NodeEffect::DisableConfigurationChange]);
        }
        let node = Node {
            frame_mode: self.frame_mode,
            ram_base_address: self.ram_base_address,
            rx_config: self.rx_config,
            _phantom: PhantomData,
        };
        (node, effects)
    }

    /// Register accesses that configure transmission as `tx_config` says.
    /// An event FIFO size outside `1..=32` is left unconfigured.
    #[verifier::spinoff_prover]
    pub fn setup_tx(&self, tx_config: &TxConfig) -> (r: Vec<NodeEffect>)
        requires
            tx_config_counts_fit(*tx_config),
        ensures
            r@ == spec_setup_tx(self.frame_mode, *tx_config),
    {
        let mut effects: Vec<NodeEffect> = Vec::new();
        effects.push(
            NodeEffect::TxBufferDataFieldSize(
                tx_config.buffer_data_field_size.to_esci_register_value(),
            ),
        );
        effects.push(NodeEffect::TxBufferStartAddress(tx_config.tx_buffers_start_address >> 2));
        let ghost head = effects@;
        let mode = tx_config.mode;
        match mode {
            TxMode::DedicatedBuffers | TxMode::SharedFifo | TxMode::SharedQueue => {
                effects.push(
                    NodeEffect::DedicatedTxBuffersNumber(tx_config.dedicated_tx_buffers_number),
                );
                if mode == TxMode::SharedFifo {
                    effects.push(transmit_fifo_queue_mode(TxMode::Fifo));
                }
                if mode == TxMode::SharedQueue {
                    effects.push(transmit_fifo_queue_mode(TxMode::Queue));
                }
                if mode == TxMode::SharedFifo || mode == TxMode::SharedQueue {
                    effects.push(NodeEffect::TransmitFifoQueueSize(tx_config.fifo_queue_size));
                }
                push_tx_interrupts(
                    &mut effects,
                    tx_config.dedicated_tx_buffers_number + tx_config.fifo_queue_size,
                );
            },
            TxMode::Fifo | TxMode::Queue => {
                effects.push(transmit_fifo_queue_mode(mode));
                effects.push(NodeEffect::TransmitFifoQueueSize(tx_config.fifo_queue_size));
                push_tx_interrupts(&mut effects, tx_config.fifo_queue_size);
            },
        }
        let ghost body = effects@;
        if 1 <= tx_config.event_fifo_size && tx_config.event_fifo_size <= 32 {
            effects.push(
                NodeEffect::TxEventFifoStartAddress(tx_config.tx_event_fifo_start_address >> 2),
            );
            effects.push(NodeEffect::TxEventFifoSize(tx_config.event_fifo_size));
        }
        effects.push(frame_mode_effect(self.frame_mode));
        proof {
            assert(effects@ =~= spec_setup_tx(self.frame_mode, *tx_config));
        }
        effects
    }

    /// Register accesses that configure reception as `rx_config` says; the
    /// configuration is kept for reading messages.
    #[verifier::spinoff_prover]
    pub fn setup_rx(&mut self, rx_config: RxConfig) -> (r: Vec<NodeEffect>)
        ensures
            final(self).rx_config == Some(rx_config),
            final(self).frame_mode == old(self).frame_mode,
            final(self).ram_base_address == old(self).ram_base_address,
            r@ == spec_setup_rx(old(self).frame_mode, rx_config),
    {
        self.rx_config = Some(rx_config);
        let mut effects: Vec<NodeEffect> = Vec::new();
        let mode = rx_config.mode;
        match mode {
            RxMode::DedicatedBuffers | RxMode::SharedFifo0 | RxMode::SharedFifo1
            | RxMode::SharedAll => {
                effects.push(
                    NodeEffect::RxBufferDataFieldSize(
                        rx_config.buffer_data_field_size.to_esci_register_value(),
                    ),
                );
                effects.push(
                    NodeEffect::RxBufferStartAddress(rx_config.rx_buffers_start_address >> 2),
                );
                if mode == RxMode::SharedFifo0 || mode == RxMode::SharedAll {
                    set_rx_fifo0(&mut effects, fifo0_data(&rx_config));
                }
                if mode == RxMode::SharedFifo1 || mode == RxMode::SharedAll {
                    set_rx_fifo1(&mut effects, fifo1_data(&rx_config));
                }
            },
            RxMode::Fifo0 => {
                set_rx_fifo0(&mut effects, fifo0_data(&rx_config));
            },
            RxMode::Fifo1 => {
                set_rx_fifo1(&mut effects, fifo1_data(&rx_config));
            },
        }
        effects.push(frame_mode_effect(self.frame_mode));
        proof {
            assert(effects@ =~= spec_setup_rx(old(self).frame_mode, rx_config));
        }
        effects
    }

    /// Register accesses that route `pins` to the node: the receive pin first,
    /// then the transmit pin.
    #[verifier::spinoff_prover]
    pub fn setup_pins(&self, pins: &Pins<M, I>) -> (r: Vec<NodeEffect>)
        requires
            pins.rx.pin_index < 32,
            pins.tx.pin_index < 32,
        ensures
            r@ == spec_connect_pin_rx(pins.rx) + spec_connect_pin_tx(pins.tx),
    {
        let mut effects: Vec<NodeEffect> = Vec::new();
        connect_pin_rx(&mut effects, &pins.rx, InputMode::PullUp, PadDriver::CmosAutomotiveSpeed3);
        connect_pin_tx(&mut effects, &pins.tx, OutputMode::PushPull, PadDriver::CmosAutomotiveSpeed3);
        proof {
            assert(effects@ =~= spec_connect_pin_rx(pins.rx) + spec_connect_pin_tx(pins.tx));
        }
        effects
    }

    /// Register accesses that configure the interrupt `interrupt`.
    #[verifier::spinoff_prover]
    pub fn setup_interrupt(&self, interrupt: &NodeInterruptConfig) -> (r: Vec<NodeEffect>)
        ensures
            r@ == spec_setup_interrupt(M::index_spec(), *interrupt),
    {
        let mut effects: Vec<NodeEffect> = Vec::new();
        effects.push(set_group_interrupt_line(interrupt.interrupt_group, interrupt.line));
        effects.push(
            NodeEffect::EnableServiceRequest {
                module: M::module_index(),
                line: u8::from(interrupt.line),
                priority: u8::from(interrupt.priority),
                tos: u8::from(interrupt.tos),
            },
        );
        effects.push(NodeEffect::EnableInterrupt(interrupt_bit_index(interrupt.interrupt) as u8));
        proof {
            assert(effects@ =~= spec_setup_interrupt(M::index_spec(), *interrupt));
        }
        effects
    }
}

/// The configuration of receive FIFO 0 in `c`.
fn fifo0_data(c: &RxConfig) -> (r: FifoData)
    ensures
        r.field_size == c.fifo0_data_field_size,
        r.operation_mode == c.fifo0_operating_mode,
        r.watermark_level == c.fifo0_watermark_level,
        r.size == c.fifo0_size,
        r.start_address == c.rx_fifo0_start_address,
{
    FifoData {
        field_size: c.fifo0_data_field_size,
        operation_mode: c.fifo0_operating_mode,
        watermark_level: c.fifo0_watermark_level,
        size: c.fifo0_size,
        start_address: c.rx_fifo0_start_address,
    }
}

/// The configuration of receive FIFO 1 in `c`.
fn fifo1_data(c: &RxConfig) -> (r: FifoData)
    ensures
        r.field_size == c.fifo1_data_field_size,
        r.operation_mode == c.fifo1_operating_mode,
        r.watermark_level == c.fifo1_watermark_level,
        r.size == c.fifo1_size,
        r.start_address == c.rx_fifo1_start_address,
{
    FifoData {
        field_size: c.fifo1_data_field_size,
        operation_mode: c.fifo1_operating_mode,
        watermark_level: c.fifo1_watermark_level,
        size: c.fifo1_size,
        start_address: c.rx_fifo1_start_address,
    }
}

/// Value of the operating mode field of a receive FIFO.
fn operating_mode_value(mode: RxFifoMode) -> (r: u8)
    ensures
        r == overwrite_bit(mode),
{
    if mode == RxFifoMode::Overwrite {
        1
    } else {
        0
    }
}

/// Appends the accesses that configure receive FIFO 0 as `data` says.
fn set_rx_fifo0(effects: &mut Vec<NodeEffect>, data: FifoData)
    ensures
        final(effects)@ == old(effects)@ + seq![
            NodeEffect::RxFifo0DataFieldSize(dfs_code(data.field_size)),
            NodeEffect::RxFifo0StartAddress(data.start_address >> 2),
            NodeEffect::RxFifo0Size(data.size),
            NodeEffect::RxFifo0OperatingMode(overwrite_bit(data.operation_mode)),
            NodeEffect::RxFifo0WatermarkLevel(data.watermark_level),
        ],
{
    effects.push(NodeEffect::RxFifo0DataFieldSize(data.field_size.to_esci_register_value()));
    effects.push(NodeEffect::RxFifo0StartAddress(data.start_address >> 2));
    effects.push(NodeEffect::RxFifo0Size(data.size));
    effects.push(NodeEffect::RxFifo0OperatingMode(operating_mode_value(data.operation_mode)));
    effects.push(NodeEffect::RxFifo0WatermarkLevel(data.watermark_level));
}

/// Appends the accesses that configure receive FIFO 1 as `data` says.
fn set_rx_fifo1(effects: &mut Vec<NodeEffect>, data: FifoData)
    ensures
        final(effects)@ == old(effects)@ + seq![
            NodeEffect::RxFifo1DataFieldSize(dfs_code(data.field_size)),
            NodeEffect::RxFifo1StartAddress(data.start_address >> 2),
            NodeEffect::RxFifo1Size(data.size),
            NodeEffect::RxFifo1OperatingMode(overwrite_bit(data.operation_mode)),
            NodeEffect::RxFifo1WatermarkLevel(data.watermark_level),
        ],
{
    effects.push(NodeEffect::RxFifo1DataFieldSize(data.field_size.to_esci_register_value()));
    effects.push(NodeEffect::RxFifo1StartAddress(data.start_address >> 2));
    effects.push(NodeEffect::RxFifo1Size(data.size));
    effects.push(NodeEffect::RxFifo1OperatingMode(operating_mode_value(data.operation_mode)));
    effects.push(NodeEffect::RxFifo1WatermarkLevel(data.watermark_level));
}

/// The routing of interrupt group `group` to line `line`.
fn set_group_interrupt_line(group: InterruptGroup, line: InterruptLine) -> (r: NodeEffect)
    ensures
        r == spec_group_interrupt_line(group, line),
{
    let line = u8::from(line) as u32;
    let group = u8::from(group) as u32;
    if group < 8 {
        let shift = group * 4;
        NodeEffect::InterruptRoutingGroup1(line << shift)
    } else {
        let shift = (group % 8) * 4;
        NodeEffect::InterruptRoutingGroup2(line << shift)
    }
}

/// Appends the accesses that route the receive pin `rxd` with pad `mode`
/// and driver `pad_driver`.
fn connect_pin_rx<M, N>(effects: &mut Vec<NodeEffect>, rxd: &RxdIn<M, N>, mode: InputMode, pad_driver: PadDriver)
    requires
        rxd.pin_index < 32,
    ensures
        final(effects)@ == old(effects)@ + port_effects(
            rxd.port,
            spec_pin_mode_effects(rxd.port, rxd.pin_index, input_mode_bits(mode)),
        ) + seq![
            NodeEffect::Port(rxd.port, spec_pad_driver_effect(rxd.pin_index, pad_driver)),
            NodeEffect::ConnectPinRx(rx_sel_code(rxd.select)),
        ],
{
    let port = Port::new(rxd.port);
    let pes = port.set_pin_mode_input(rxd.pin_index, mode);
    push_port_effects(effects, rxd.port, pes);
    effects.push(NodeEffect::Port(rxd.port, port.set_pin_pad_driver(rxd.pin_index, pad_driver)));
    effects.push(NodeEffect::ConnectPinRx(u8::from(rxd.select)));
}

/// Appends the accesses that route the transmit pin `txd` with pad `mode`
/// and driver `pad_driver`, and drive it low.
fn connect_pin_tx<M, N>(effects: &mut Vec<NodeEffect>, txd: &TxdOut<M, N>, mode: OutputMode, pad_driver: PadDriver)
    requires
        txd.pin_index < 32,
    ensures
        final(effects)@ == old(effects)@ + port_effects(
            txd.port,
            spec_pin_mode_effects(
                txd.port,
                txd.pin_index,
                output_mode_bits(mode) | output_idx_bits(txd.select),
            ),
        ) + seq![
            NodeEffect::Port(txd.port, spec_pad_driver_effect(txd.pin_index, pad_driver)),
            NodeEffect::Port(txd.port, PortEffect::Omr(state_bits(State::Low) << txd.pin_index)),
        ],
{
    let port = Port::new(txd.port);
    let pes = port.set_pin_mode_output(txd.pin_index, mode, txd.select);
    push_port_effects(effects, txd.port, pes);
    effects.push(NodeEffect::Port(txd.port, port.set_pin_pad_driver(txd.pin_index, pad_driver)));
    effects.push(NodeEffect::Port(txd.port, port.set_pin_low(txd.pin_index)));
}

} // verus!
