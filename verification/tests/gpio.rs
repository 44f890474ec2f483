use bw_r_drivers_tc37x::can::can_module::Module0;
use bw_r_drivers_tc37x::can::can_node::{Node0, OutputIdx, PortNumber, RxSel, RxdIn, TxdOut};
use bw_r_drivers_tc37x::gpio::group::{PinArray, PinGroup};
use bw_r_drivers_tc37x::gpio::{Alternate, Analog, PinId, PortId};
use bw_r_drivers_tc37x::gpio::{
    ErasedPin, GpioEffect, Input, Output, PartiallyErasedPin, Pin, PinExt, PinState, Pull,
    PushPull, ReadPin, Speed,
};

#[test]
fn test_pin_set_high_and_low() {
    let (mut output, effects) = Pin::<0, 5, Input>::new().into_push_pull_output();
    assert_eq!(
        effects,
        vec![
            GpioEffect::Omr { port: 0, raw: 1 << 21 },
            GpioEffect::Iocr { port: 0, index: 1, value: 0x80 << 8, mask: 0xFF << 8 },
        ]
    );
    assert_eq!(output.set_high(), GpioEffect::Omr { port: 0, raw: 1 << 5 });
    assert_eq!(output.set_low(), GpioEffect::Omr { port: 0, raw: 1 << 21 });
}

#[test]
fn avoid_side_effects_when_mode_does_not_change() {
    let (pin, effects) = Pin::<0, 5, Input>::new().into_push_pull_output();
    assert_eq!(effects.len(), 2);
    let (_pin, effects) = pin.into_push_pull_output();
    assert!(effects.is_empty());
}

#[test]
fn open_drain_output_starts_low() {
    let (pin, effects) = Pin::<0, 5, Input>::new().into_open_drain_output();
    assert_eq!(
        effects,
        vec![
            GpioEffect::Omr { port: 0, raw: 1 << 21 },
            GpioEffect::Iocr { port: 0, index: 1, value: 0xC0 << 8, mask: 0xFF << 8 },
        ]
    );
    let (_pin, effects) = pin.into_open_drain_output();
    assert!(effects.is_empty());
}

#[test]
fn mode_bytes_follow_the_target_mode() {
    let (pin, e) = Pin::<0, 5, Input>::new().into_alternate::<1>();
    assert_eq!(e, Some(GpioEffect::Iocr { port: 0, index: 1, value: 0x88 << 8, mask: 0xFF << 8 }));
    let (pin, e) = pin.set_open_drain();
    assert_eq!(e, Some(GpioEffect::Iocr { port: 0, index: 1, value: 0xC8 << 8, mask: 0xFF << 8 }));
    let (pin, e) = pin.into_analog();
    assert_eq!(e, Some(GpioEffect::Iocr { port: 0, index: 1, value: 0, mask: 0xFF << 8 }));
    let (pin, e) = pin.into_input();
    assert_eq!(e, Some(GpioEffect::Iocr { port: 0, index: 1, value: 0, mask: 0xFF << 8 }));
    let (_pin, e) = pin.into_analog();
    assert_eq!(e, Some(GpioEffect::Iocr { port: 0, index: 1, value: 0, mask: 0xFF << 8 }));
}

#[test]
fn set_speed_writes_the_speed_grade() {
    let (mut pin, _) = Pin::<0, 9, Input>::new().into_push_pull_output();
    assert_eq!(
        pin.set_speed(Speed::Medium),
        GpioEffect::Pdr { port: 0, index: 1, value: 2 << 4, mask: 3 << 4 }
    );
    let (_pin, e) = pin.speed(Speed::VeryHigh);
    assert_eq!(e, GpioEffect::Pdr { port: 0, index: 1, value: 0, mask: 3 << 4 });
}

#[test]
fn toggle_output_pin() {
    let (mut output, _) = Pin::<1, 7, Input>::new().into_push_pull_output();
    assert_eq!(output.toggle(), GpioEffect::Omr { port: 1, raw: (1 << 23) | (1 << 7) });
}

#[test]
fn test_input_pin() {
    let (pin, effects) = Pin::<0, 7, Input>::new().into_input();
    assert_eq!(effects, Some(GpioEffect::Iocr { port: 0, index: 1, value: 0, mask: 0xFF << 24 }));
    assert!(!pin.is_high(0));
    assert!(pin.is_high(0b1000_0000));
    assert!(pin.is_low(0b0100_0000));
}

#[test]
fn test_input_pin_pull_up() {
    let (_pin, effects) = Pin::<0, 7, Input>::new().into_pull_up_input();
    assert_eq!(effects.len(), 2);
    // PCx field of pin 7: bits 27..31 of IOCR4, pull-up code 2
    assert_eq!(
        effects[1],
        GpioEffect::Iocr { port: 0, index: 1, value: 2 << 27, mask: 0x1F << 27 }
    );
    let (pin, _) = Pin::<0, 2, Input>::new().into_floating_input();
    let (_, e) = pin.internal_resistor(Pull::Down);
    assert_eq!(e, GpioEffect::Iocr { port: 0, index: 0, value: 1 << 19, mask: 0x1F << 19 });
}

#[test]
fn test_output_pin_type_erasure_number() {
    let (output, _) = Pin::<0, 5, Input>::new().into_push_pull_output();
    let mut output: PartiallyErasedPin<0, Output<PushPull>> = output.erase_number();
    assert_eq!(output.pin_id().0, 5);
    assert_eq!(output.set_high(), GpioEffect::Omr { port: 0, raw: 1 << 5 });
    assert_eq!(output.set_low(), GpioEffect::Omr { port: 0, raw: 1 << 21 });
}

#[test]
fn test_output_pin_type_erasure_port_and_number() {
    let (output, _) = Pin::<20, 5, Input>::new().into_push_pull_output();
    let mut output: ErasedPin<Output<PushPull>> = output.erase();
    assert_eq!(output.port_id().0, 20);
    assert_eq!(output.set_high(), GpioEffect::Omr { port: 20, raw: 1 << 5 });
    assert_eq!(output.toggle(), GpioEffect::Omr { port: 20, raw: (1 << 21) | (1 << 5) });
    assert_eq!(output.get_state(1 << 5), PinState::High);
    assert_eq!(output.get_state(0), PinState::Low);
    let pin: Pin<20, 5, Output<PushPull>> = output.restore();
    assert_eq!(pin.pin_id().0, 5);
}

#[test]
fn erased_input_reads_its_bit() {
    let (pin, _) = Pin::<0, 7, Input>::new().into_input();
    let pin: ErasedPin<Input> = pin.into();
    assert!(pin.is_high(1 << 7));
    assert!(pin.is_low(1 << 6));
}

#[test]
fn with_input_changes_mode_and_back() {
    let (mut pin, _) = Pin::<0, 3, Input>::new().into_push_pull_output();
    let (before, level, after) = pin.with_input(|p| p.is_high(1 << 3));
    assert!(level);
    assert_eq!(before, GpioEffect::Iocr { port: 0, index: 0, value: 0, mask: 0xFF << 24 });
    assert_eq!(after, GpioEffect::Iocr { port: 0, index: 0, value: 0x80 << 24, mask: 0xFF << 24 });
}

fn three_pins() -> [PartiallyErasedPin<0, Output<PushPull>>; 3] {
    [
        Pin::<0, 1, Input>::new().into_push_pull_output().0.erase_number(),
        Pin::<0, 6, Input>::new().into_push_pull_output().0.erase_number(),
        Pin::<0, 7, Input>::new().into_push_pull_output().0.erase_number(),
    ]
}

#[test]
fn test_gpio_outport_array() {
    let mut group = PinArray(three_pins());
    let high = group.set_high();
    assert_eq!(high, GpioEffect::Omr { port: 0, raw: 0b1100_0010 });
    assert_eq!(group.set_state([PinState::High, PinState::High, PinState::High]), high);
    let low = group.set_low();
    assert_eq!(low, GpioEffect::Omr { port: 0, raw: 0b1100_0010 << 16 });
    assert_eq!(group.set_state([PinState::Low, PinState::Low, PinState::Low]), low);
}

#[test]
fn test_gpio_outport_tuple() {
    let mut group = (
        Pin::<0, 1, Input>::new().into_push_pull_output().0,
        Pin::<0, 6, Input>::new().into_push_pull_output().0,
        Pin::<0, 7, Input>::new().into_push_pull_output().0,
    )
        .into_pin_group();

    let set_high = group.set_high();
    assert_eq!(set_high, group.set_state([PinState::High, PinState::High, PinState::High]));
    assert_eq!(set_high, group.write(0xFFFFFFFF));

    let set_low = group.set_low();
    assert_eq!(set_low, group.set_state([PinState::Low, PinState::Low, PinState::Low]));
    assert_eq!(set_low, group.write(0x00000000));
}

#[test]
fn group_write_follows_the_bits() {
    let mut group = PinArray(three_pins());
    // bit 0 set: pin 1 high; bits 1, 2 clear: pins 6, 7 low
    assert_eq!(group.write(0b001), GpioEffect::Omr { port: 0, raw: (1 << 1) | (1 << 22) | (1 << 23) });
    assert_eq!(
        group.set_state([PinState::Low, PinState::High, PinState::Low]),
        GpioEffect::Omr { port: 0, raw: (1 << 17) | (1 << 6) | (1 << 23) }
    );
}

#[test]
fn test_pin_set_two_pins_same_port_high() {
    let (mut p00_5, _) = Pin::<0, 5, Input>::new().into_push_pull_output();
    let (mut p00_6, _) = Pin::<0, 6, Input>::new().into_push_pull_output();
    assert_eq!(p00_5.set_high(), GpioEffect::Omr { port: 0, raw: 1 << 5 });
    assert_eq!(p00_6.set_high(), GpioEffect::Omr { port: 0, raw: 1 << 6 });
}

#[test]
fn test_pin_set_two_pins_on_two_ports_high() {
    let (mut p00_5, _) = Pin::<0, 5, Input>::new().into_push_pull_output();
    let (mut p01_7, _) = Pin::<1, 7, Input>::new().into_push_pull_output();
    assert_eq!(p00_5.set_high(), GpioEffect::Omr { port: 0, raw: 1 << 5 });
    assert_eq!(p01_7.set_high(), GpioEffect::Omr { port: 1, raw: 1 << 7 });
}

#[test]
fn test_input_pin_type_erasure_number() {
    let (pin, _) = Pin::<0, 7, Input>::new().into_input();
    let pin = pin.erase_number();
    // IN of port 00 reads 0, then bit 7 set
    assert!(!pin.is_high(0));
    assert!(pin.is_high(0b1000_0000));
}

#[test]
fn test_input_pin_type_erasure_port_and_number() {
    let (pin, _) = Pin::<0, 7, Input>::new().into_input();
    let pin = pin.erase();
    assert!(!pin.is_high(0));
    assert!(pin.is_high(0b1000_0000));
}

#[test]
fn toggle_output_pin_type_erasure_number() {
    let (output, _) = Pin::<0, 5, Input>::new().into_push_pull_output();
    let mut output = output.erase_number();
    assert_eq!(output.toggle(), GpioEffect::Omr { port: 0, raw: (1 << 21) | (1 << 5) });
}

#[test]
fn toggle_output_pin_type_erasure_port_and_number() {
    let (output, _) = Pin::<0, 5, Input>::new().into_push_pull_output();
    let mut output = output.erase();
    assert_eq!(output.toggle(), GpioEffect::Omr { port: 0, raw: (1 << 21) | (1 << 5) });
}

#[test]
fn toggle_stateful_output_pin_stateful() {
    let (output, _) = Pin::<0, 5, Input>::new().into_push_pull_output();
    // OUT of port 00 reads bit 5 set
    assert!(output.is_set_high(0b0010_0000));
    assert_eq!(output.get_state(0b0010_0000), PinState::High);
}

#[test]
fn toggle_stateful_output_pin_type_erasure_number() {
    let (output, _) = Pin::<0, 5, Input>::new().into_push_pull_output();
    let output = output.erase_number();
    assert!(output._is_set_high(0b0010_0000));
    assert_eq!(output._get_state(0b0010_0000), PinState::High);
}

#[test]
fn toggle_stateful_output_pin_type_erasure_port_and_number() {
    let (output, _) = Pin::<0, 5, Input>::new().into_push_pull_output();
    let output = output.erase();
    assert!(output._is_set_high(0b0010_0000));
    assert_eq!(output.get_state(0b0010_0000), PinState::High);
}

#[test]
fn type_erasure_with_into() {
    let (output, _) = Pin::<0, 5, Input>::new().into_push_pull_output();
    let output: ErasedPin<Output<PushPull>> = output.into();
    assert_eq!(output.port_id().0, 0);
    assert_eq!(output.pin_id().0, 5);
}

#[test]
fn pin_can_type_match_with_peripheral() {
    // CAN0 node 0: receive on P20.7 (input B), transmit on P20.8 (output ALT5)
    let rx: RxdIn<Module0, Node0> = RxdIn::new(PortNumber::_20, 7, RxSel::_B);
    let tx: TxdOut<Module0, Node0> = TxdOut::new(PortNumber::_20, 8, OutputIdx::Alt5);
    assert_eq!(rx.pin_index, 7);
    assert_eq!(tx.pin_index, 8);
}

#[test]
fn modes_sharing_a_byte_still_change() {
    let (_pin, e) = Pin::<0, 5, Analog>::new().into_input();
    assert_eq!(e, Some(GpioEffect::Iocr { port: 0, index: 1, value: 0, mask: 0xFF << 8 }));
    let (_pin, e) = Pin::<0, 5, Alternate<0, PushPull>>::new().into_mode::<Output<PushPull>>();
    assert_eq!(e, Some(GpioEffect::Iocr { port: 0, index: 1, value: 0x80 << 8, mask: 0xFF << 8 }));
    let erased: ErasedPin<Analog> = ErasedPin::new(PortId(0), PinId(5));
    let (_pin, e) = erased.into_mode::<Input>();
    assert!(e.is_some());
}
