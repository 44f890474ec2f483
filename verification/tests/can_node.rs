use bw_r_drivers_tc37x::can::baud_rate::{
    calculate_bit_timing, AutoBitTiming, BitTimingConfig, NominalBitTiming,
};
use bw_r_drivers_tc37x::can::can_module::{
    ClockSelect, ClockSource, Disabled, Module, Module0, Module1,
};
use bw_r_drivers_tc37x::can::can_node::effects::{
    enable_configuration_change_steps, get_data_field_size, get_rx_element_address,
    get_tx_buffer_data_field_size, CccrStep, NodeEffect,
};
use bw_r_drivers_tc37x::can::can_node::node::Node;
use bw_r_drivers_tc37x::can::can_node::{
    ConfigError, DataFieldSize, InputMode, Interrupt, InterruptGroup, InterruptLine,
    NodeConfig, NodeInterruptConfig, Node0, Node1, OutputIdx, PadDriver, Pins, PortEffect,
    PortNumber, RxConfig, RxFifoMode, RxMode, RxSel, RxdIn, Tos, TransmitError, TxConfig,
    TxMode, TxdOut,
};
use bw_r_drivers_tc37x::can::frame::{DataLenghtCode, Frame};
use bw_r_drivers_tc37x::can::internals::{Rx, Tx};
use bw_r_drivers_tc37x::can::msg::{FrameMode, MessageId, MessageIdLenght, ReadFrom, RxBufferId};
use bw_r_drivers_tc37x::can::reg::{R0, R1, T0, T1};
use bw_r_drivers_tc37x::cpu::Priority;

const RAM: u32 = 0xF020_0000;

fn config_1_mbaud() -> NodeConfig {
    NodeConfig {
        baud_rate: BitTimingConfig::Auto(AutoBitTiming {
            baud_rate: 1_000_000,
            sample_point: 8_000,
            sync_jump_width: 3,
        }),
        ..Default::default()
    }
}

fn rx_config() -> RxConfig {
    RxConfig {
        mode: RxMode::Fifo0,
        buffer_data_field_size: DataFieldSize::_8,
        fifo0_data_field_size: DataFieldSize::_8,
        fifo1_data_field_size: DataFieldSize::_8,
        fifo0_operating_mode: RxFifoMode::Blocking,
        fifo1_operating_mode: RxFifoMode::Blocking,
        fifo0_watermark_level: 0,
        fifo1_watermark_level: 0,
        fifo0_size: 4,
        fifo1_size: 0,
        rx_fifo0_start_address: 0x100,
        rx_fifo1_start_address: 0x200,
        rx_buffers_start_address: 0x300,
    }
}

#[test]
fn new_node_enables_configuration_and_sets_the_nominal_timing() {
    let module = Module::<Module0, Disabled>::new(Module0, RAM).enable();
    // clock selection of node 0 (bits 0..2) reads back "both"
    let (node, effects) = Node::new(&module, Node0, config_1_mbaud(), 0b11, 80_000_000).ok().unwrap();
    let t = calculate_bit_timing(80_000_000, 1_000_000, 8000, 3);
    assert_eq!(
        effects,
        vec![
            NodeEffect::EnableConfigurationChange,
            NodeEffect::NominalTiming { brp: t.brp, sjw: t.sjw, tseg1: t.tseg1, tseg2: t.tseg2 },
        ]
    );
    assert_eq!(node.frame_mode, FrameMode::Standard);
    assert_eq!(node.ram_base_address, RAM);
    assert!(node.rx_config.is_none());
}

#[test]
fn new_node_with_manual_timing_fd_and_delay_compensation() {
    let module = Module::<Module1, Disabled>::new(Module1, RAM).enable();
    let cfg = NodeConfig {
        baud_rate: BitTimingConfig::Manual(NominalBitTiming { brp: 1, sjw: 2, tseg1: 3, tseg2: 4 }),
        frame_mode: FrameMode::FdLong,
        fast_baud_rate: bw_r_drivers_tc37x::can::baud_rate::FastBitTimingConfig::Manual(
            bw_r_drivers_tc37x::can::baud_rate::DataBitTiming { brp: 5, sjw: 6, tseg1: 7, tseg2: 8 },
        ),
        transceiver_delay_offset: 9,
        clock_source: ClockSource::Synchronous,
    };
    // node 1: clock selection at bits 2..4, "synchronous" is 2
    let (_, effects) = Node::new(&module, Node1, cfg, 2 << 2, 0).ok().unwrap();
    assert_eq!(
        effects,
        vec![
            NodeEffect::EnableConfigurationChange,
            NodeEffect::NominalTiming { brp: 1, sjw: 2, tseg1: 3, tseg2: 4 },
            NodeEffect::DataTiming { dbrp: 5, dsjw: 6, dtseg1: 7, dtseg2: 8 },
            NodeEffect::TransceiverDelayCompensationOffset(9),
        ]
    );
}

#[test]
fn new_node_fails_when_the_clock_source_did_not_switch() {
    let module = Module::<Module0, Disabled>::new(Module0, RAM).enable();
    let r = Node::new(&module, Node0, config_1_mbaud(), 0, 80_000_000);
    assert!(matches!(r, Err(ConfigError::CannotSetClockSource)));
}

#[test]
fn a_node_can_be_taken_once() {
    let mut module = Module::<Module0, Disabled>::new(Module0, RAM).enable();
    assert!(module.take_node(Node0, config_1_mbaud(), 0b11, 80_000_000).is_some());
    assert!(module.take_node(Node0, config_1_mbaud(), 0b11, 80_000_000).is_none());
    assert_eq!(module.nodes_taken, [true, false, false, false]);
}

#[test]
fn clock_source_writes_unlock_select_and_lock() {
    let module = Module::<Module0, Disabled>::new(Module0, RAM).enable();
    let writes = module.set_clock_source(&ClockSelect(1), ClockSource::Both, 0);
    assert_eq!(writes, vec![0xC000_0000, 0xC000_000C, 0x0000_000C]);
    assert!(module.check_clock_source(&ClockSelect(1), ClockSource::Both, 0x0C).is_ok());
    assert!(module.check_clock_source(&ClockSelect(1), ClockSource::Both, 0x04).is_err());
}

fn configured_node() -> Node<Module0, Node0, bw_r_drivers_tc37x::can::can_node::Configured> {
    let module = Module::<Module0, Disabled>::new(Module0, RAM).enable();
    let (mut node, _) = Node::new(&module, Node0, config_1_mbaud(), 0b11, 80_000_000).ok().unwrap();
    let _ = node.setup_rx(rx_config());
    let (node, effects) = node.lock_configuration();
    assert_eq!(effects, vec![NodeEffect::DisableConfigurationChange]);
    node
}

#[test]
fn setup_tx_with_a_fifo() {
    let module = Module::<Module0, Disabled>::new(Module0, RAM).enable();
    let (node, _) = Node::new(&module, Node0, config_1_mbaud(), 0b11, 80_000_000).ok().unwrap();
    let effects = node.setup_tx(&TxConfig {
        mode: TxMode::Fifo,
        dedicated_tx_buffers_number: 0,
        fifo_queue_size: 2,
        buffer_data_field_size: DataFieldSize::_8,
        event_fifo_size: 0,
        tx_event_fifo_start_address: 0x400,
        tx_buffers_start_address: 0x440,
    });
    assert_eq!(
        effects,
        vec![
            NodeEffect::TxBufferDataFieldSize(0),
            NodeEffect::TxBufferStartAddress(0x110),
            NodeEffect::TransmitFifoQueueMode(1),
            NodeEffect::TransmitFifoQueueSize(2),
            NodeEffect::TxBufferTransmissionInterrupt(0),
            NodeEffect::TxBufferTransmissionInterrupt(1),
            NodeEffect::FrameMode { fdoe: false, brse: false },
        ]
    );
}

#[test]
fn setup_tx_with_dedicated_buffers_and_an_event_fifo() {
    let module = Module::<Module0, Disabled>::new(Module0, RAM).enable();
    let (node, _) = Node::new(&module, Node0, config_1_mbaud(), 0b11, 80_000_000).ok().unwrap();
    let effects = node.setup_tx(&TxConfig {
        mode: TxMode::SharedQueue,
        dedicated_tx_buffers_number: 1,
        fifo_queue_size: 1,
        buffer_data_field_size: DataFieldSize::_64,
        event_fifo_size: 3,
        tx_event_fifo_start_address: 0x400,
        tx_buffers_start_address: 0x440,
    });
    assert_eq!(
        effects,
        vec![
            NodeEffect::TxBufferDataFieldSize(7),
            NodeEffect::TxBufferStartAddress(0x110),
            NodeEffect::DedicatedTxBuffersNumber(1),
            NodeEffect::TransmitFifoQueueMode(1),
            NodeEffect::TransmitFifoQueueSize(1),
            NodeEffect::TxBufferTransmissionInterrupt(0),
            NodeEffect::TxBufferTransmissionInterrupt(1),
            NodeEffect::TxEventFifoStartAddress(0x100),
            NodeEffect::TxEventFifoSize(3),
            NodeEffect::FrameMode { fdoe: false, brse: false },
        ]
    );
}

#[test]
fn setup_rx_with_fifo0_keeps_the_configuration() {
    let module = Module::<Module0, Disabled>::new(Module0, RAM).enable();
    let (mut node, _) = Node::new(&module, Node0, config_1_mbaud(), 0b11, 80_000_000).ok().unwrap();
    let effects = node.setup_rx(rx_config());
    assert_eq!(
        effects,
        vec![
            NodeEffect::RxFifo0DataFieldSize(0),
            NodeEffect::RxFifo0StartAddress(0x40),
            NodeEffect::RxFifo0Size(4),
            NodeEffect::RxFifo0OperatingMode(0),
            NodeEffect::RxFifo0WatermarkLevel(0),
            NodeEffect::FrameMode { fdoe: false, brse: false },
        ]
    );
    assert!(node.rx_config.is_some());
}

#[test]
fn setup_pins_routes_rx_then_tx() {
    let module = Module::<Module0, Disabled>::new(Module0, RAM).enable();
    let (node, _) = Node::new(&module, Node0, config_1_mbaud(), 0b11, 80_000_000).ok().unwrap();
    let pins = Pins {
        rx: RxdIn::<Module0, Node0>::new(PortNumber::_20, 7, RxSel::_B),
        tx: TxdOut::<Module0, Node0>::new(PortNumber::_20, 8, OutputIdx::Alt5),
    };
    let effects = node.setup_pins(&pins);
    let p = PortNumber::_20;
    assert_eq!(
        effects,
        vec![
            // pin 7: byte 3 of IOCR4, input with pull-up
            NodeEffect::Port(p, PortEffect::IocrLdmst { index: 1, value: 0x10 << 24, mask: 0xFF << 24 }),
            // pin 7: nibble 7 of PDR0, speed 3
            NodeEffect::Port(p, PortEffect::PdrLdmst { index: 0, value: 2 << 28, mask: 0xF << 28 }),
            NodeEffect::ConnectPinRx(1),
            // pin 8: byte 0 of IOCR8, push-pull on alternate function 5
            NodeEffect::Port(p, PortEffect::IocrLdmst { index: 2, value: 0xA8, mask: 0xFF }),
            NodeEffect::Port(p, PortEffect::PdrLdmst { index: 1, value: 2, mask: 0xF }),
            NodeEffect::Port(p, PortEffect::Omr(1 << 24)),
        ]
    );
    assert_eq!(InputMode::PullUp.value(), 0x10);
    assert_eq!(PadDriver::CmosAutomotiveSpeed3.value(), 2);
}

#[test]
fn setup_pins_on_port_40_enables_the_digital_input_first() {
    let module = Module::<Module0, Disabled>::new(Module0, RAM).enable();
    let (node, _) = Node::new(&module, Node0, config_1_mbaud(), 0b11, 80_000_000).ok().unwrap();
    let pins = Pins {
        rx: RxdIn::<Module0, Node0>::new(PortNumber::_40, 1, RxSel::_A),
        tx: TxdOut::<Module0, Node0>::new(PortNumber::_02, 0, OutputIdx::Alt5),
    };
    let effects = node.setup_pins(&pins);
    assert_eq!(effects[0], NodeEffect::Port(PortNumber::_40, PortEffect::PdiscClearBit(1)));
    assert_eq!(effects.len(), 7);
}

#[test]
fn setup_interrupt_routes_group_enables_request_and_interrupt() {
    let module = Module::<Module1, Disabled>::new(Module1, RAM).enable();
    let (node, _) = Node::new(&module, Node0, config_1_mbaud(), 0b11, 80_000_000).ok().unwrap();
    let effects = node.setup_interrupt(&NodeInterruptConfig {
        interrupt_group: InterruptGroup::Rxf0n,
        interrupt: Interrupt::RxFifo0newMessage,
        line: InterruptLine::Line1,
        priority: Priority::try_from(2).unwrap(),
        tos: Tos::Cpu0,
    });
    assert_eq!(
        effects,
        vec![
            // group 12 is in GRINT2, field (12 % 8) * 4
            NodeEffect::InterruptRoutingGroup2(1 << 16),
            NodeEffect::EnableServiceRequest { module: 1, line: 1, priority: 2, tos: 0 },
            NodeEffect::EnableInterrupt(0),
        ]
    );
}

fn empty_tx() -> Tx {
    Tx::new(T0::new(0, 0), T1::new(0, 0), vec![0; 64])
}

#[test]
fn transmit_then_receive_gives_the_frame_back() {
    let node = configured_node();
    let data = [1u8, 2, 3, 4];
    let frame = Frame::new(MessageId::standard(0x123), &data).unwrap();
    let mut element = empty_tx();
    let effects = node.transmit(&frame, 0, 0, &mut element).ok().unwrap();
    assert_eq!(effects, vec![NodeEffect::TxBufferAddRequest(0)]);

    let rx = Rx::new(R0::new(element.t0.data, 0), R1::new(element.t1.data, 0), element.db.clone());
    let mut out = [0u8; 8];
    let (msg, effects) =
        node.receive(ReadFrom::RxFifo0, RxBufferId::new(2).unwrap(), &rx, &mut out).unwrap();
    assert_eq!(msg.id, MessageId { data: 0x123, length: MessageIdLenght::Standard });
    assert_eq!(msg.data_length_code, DataLenghtCode::_4);
    assert_eq!(msg.frame_mode, FrameMode::Standard);
    assert_eq!(msg.buffer_id.value(), 2);
    assert_eq!(out, [1, 2, 3, 4, 0, 0, 0, 0]);
    assert_eq!(
        effects,
        vec![NodeEffect::RxFifo0AcknowledgeIndex(2), NodeEffect::NewData1(1 << 2)]
    );
}

#[test]
fn transmit_writes_the_extended_identifier_and_length() {
    let node = configured_node();
    let data = [0xAAu8; 12];
    let frame = Frame::new(MessageId::extended(0x1ABC_DEF0), &data).unwrap();
    let mut element = empty_tx();
    assert!(node.transmit(&frame, 0x20, 0, &mut element).is_ok());
    // identifier in bits 0..28, XTD bit 30
    assert_eq!(element.t0.data, 0x1ABC_DEF0 | (1 << 30));
    // length code 9 in bits 16..19
    assert_eq!(element.t1.data, 9 << 16);
    assert_eq!(&element.db[..12], &data[..]);
}

#[test]
fn transmit_on_a_busy_buffer_is_refused() {
    let node = configured_node();
    let data = [1u8];
    let frame = Frame::new(MessageId::standard(1), &data).unwrap();
    let mut element = empty_tx();
    // put index 3, request pending on buffer 3
    let r = node.transmit(&frame, 3, 1 << 3, &mut element);
    assert!(matches!(r, Err(TransmitError::Busy)));
    assert_eq!(element.t0.data, 0);
}

#[test]
fn transmit_with_an_invalid_length_is_refused_after_the_identifier() {
    let node = configured_node();
    let data = [1u8; 9];
    let frame = Frame::new(MessageId::standard(0x7FF), &data).unwrap();
    let mut element = empty_tx();
    let r = node.transmit(&frame, 0, 0, &mut element);
    assert!(matches!(r, Err(TransmitError::InvalidDataLength)));
    assert_eq!(element.t0.data, 0x7FF << 18);
    assert_eq!(element.t1.data, 0);
}

#[test]
fn receive_before_rx_setup_gives_nothing() {
    let module = Module::<Module0, Disabled>::new(Module0, RAM).enable();
    let (node, _) = Node::new(&module, Node0, config_1_mbaud(), 0b11, 80_000_000).ok().unwrap();
    let (node, _) = node.lock_configuration();
    let rx = Rx::new(R0::new(0, 0), R1::new(0, 0), vec![0; 8]);
    let mut out = [0u8; 8];
    assert!(node.receive(ReadFrom::RxFifo0, RxBufferId::new(0).unwrap(), &rx, &mut out).is_none());
    assert!(node.get_rx_element_address(ReadFrom::RxFifo0, RxBufferId::new(0).unwrap(), 0).is_none());
}

#[test]
fn receive_from_a_dedicated_buffer_above_31_clears_ndat2() {
    let node = configured_node();
    let rx = Rx::new(R0::new(0, 0), R1::new(0, 0), vec![0; 8]);
    let mut out = [0u8; 8];
    let (msg, effects) = node
        .receive(ReadFrom::Buffer(RxBufferId::new(40).unwrap()), RxBufferId::new(0).unwrap(), &rx, &mut out)
        .unwrap();
    assert_eq!(msg.buffer_id.value(), 40);
    assert_eq!(effects, vec![NodeEffect::NewData2(1 << 8)]);
}

#[test]
fn element_addresses() {
    let node = configured_node();
    // transmit: TXESC bit 1 set reads as 16 data bytes, element 24 bytes
    let b3 = node.get_tx_fifo_queue_put_index(3);
    assert_eq!(node.get_tx_element_address(b3, 0b10), RAM + 0x440 + 24 * 3);
    assert_eq!(get_tx_buffer_data_field_size(0b111), 16);
    // receive: F0DS code 7 is 64 bytes, element 72 bytes
    assert_eq!(get_data_field_size(ReadFrom::RxFifo0, 7), 64);
    assert_eq!(
        node.get_rx_element_address(ReadFrom::RxFifo0, RxBufferId::new(2).unwrap(), 7),
        Some(RAM + 0x100 + 72 * 2)
    );
    assert_eq!(get_rx_element_address(0, 0x300, ReadFrom::Buffer(RxBufferId::new(1).unwrap()), RxBufferId::new(1).unwrap(), 5 << 8), 0x300 + 40);
}

#[test]
fn configuration_change_steps() {
    assert_eq!(
        enable_configuration_change_steps(1),
        vec![
            CccrStep::SetCce(0),
            CccrStep::WaitCce(0),
            CccrStep::SetInit(0),
            CccrStep::WaitInit(0),
            CccrStep::SetInit(1),
            CccrStep::WaitInit(1),
            CccrStep::SetCceAndInit(1),
        ]
    );
    assert_eq!(enable_configuration_change_steps(0).len(), 3);
}

#[test]
fn test_can_module_take_node() {
    let mut can_module = Module::<Module0, Disabled>::new(Module0, RAM).enable();
    // the clock selection of node 0 reads back "both"
    let (node, effects) = can_module.take_node(Node0, config_1_mbaud(), 0b11, 80_000_000).unwrap();
    assert_eq!(effects[0], NodeEffect::EnableConfigurationChange);
    let t = calculate_bit_timing(80_000_000, 1_000_000, 8000, 3);
    assert_eq!(
        effects[1],
        NodeEffect::NominalTiming { brp: t.brp, sjw: t.sjw, tseg1: t.tseg1, tseg2: t.tseg2 }
    );
    let tx = node.setup_tx(&TxConfig {
        mode: TxMode::DedicatedBuffers,
        dedicated_tx_buffers_number: 2,
        fifo_queue_size: 0,
        buffer_data_field_size: DataFieldSize::_8,
        event_fifo_size: 1,
        tx_event_fifo_start_address: 0x400,
        tx_buffers_start_address: 0x440,
    });
    assert!(tx.contains(&NodeEffect::DedicatedTxBuffersNumber(2)));
    assert!(tx.contains(&NodeEffect::TxEventFifoSize(1)));
    assert_eq!(tx.last(), Some(&NodeEffect::FrameMode { fdoe: false, brse: false }));
    let mut node = node;
    let mut rx = rx_config();
    rx.mode = RxMode::SharedFifo0;
    let rx_effects = node.setup_rx(rx);
    assert!(rx_effects.contains(&NodeEffect::RxFifo0Size(4)));
    assert!(node.rx_config.is_some());
    assert!(can_module.take_node(Node0, config_1_mbaud(), 0b11, 80_000_000).is_none());
}
