use bw_r_drivers_tc37x::can::msg::{MessageId, MessageIdLenght, RxBufferId, TxBufferId};
use bw_r_drivers_tc37x::cpu::Priority;
use bw_r_drivers_tc37x::log::HexSlice;
use bw_r_drivers_tc37x::tracing::dummy::DummyEffectReporter;
use bw_r_drivers_tc37x::tracing::{LogEffectReporter, ReportAction, ReportData, Reporter};
use embedded_can::{ExtendedId, Id, StandardId};

#[test]
fn hex_slice_prints_two_lowercase_digits_per_byte() {
    let bytes = &[1u8, 2, 3, 4];
    assert_eq!(HexSlice(bytes).to_string(), "01020304");
    assert_eq!(HexSlice::from(&[0xABu8, 0x0F, 0x00][..]).to_string(), "ab0f00");
    assert_eq!(HexSlice(&[]).to_string(), "");
}

#[test]
fn message_ids_from_embedded_can() {
    let s = MessageId::from(StandardId::new(0x123).unwrap());
    assert_eq!(s, MessageId { data: 0x123, length: MessageIdLenght::Standard });
    let e = MessageId::from(ExtendedId::new(0x1ABC_DEF0).unwrap());
    assert_eq!(e, MessageId { data: 0x1ABC_DEF0, length: MessageIdLenght::Extended });
    let i = MessageId::from(Id::Extended(ExtendedId::new(7).unwrap()));
    assert_eq!(i, MessageId { data: 7, length: MessageIdLenght::Extended });
    let j = MessageId::from(Id::Standard(StandardId::new(0x7FF).unwrap()));
    assert_eq!(j, MessageId { data: 0x7FF, length: MessageIdLenght::Standard });
}

#[test]
fn buffer_ids_are_bounded() {
    assert!(TxBufferId::try_from(31).is_ok());
    assert!(TxBufferId::try_from(32).is_err());
    assert!(RxBufferId::new(63).is_some());
    assert!(RxBufferId::new(64).is_none());
    assert_eq!(u8::from(TxBufferId::try_from(9).unwrap()), 9);
}

#[test]
fn priority_round_trip() {
    assert_eq!(u8::from(Priority::try_from(5).unwrap()), 5);
}

#[test]
fn effect_reporter_records_in_order() {
    let mut r = LogEffectReporter::new();
    assert_eq!(r.read_volatile(0x10, 4), 0);
    r.write_volatile(0x20, 4, 7);
    r.load_modify_store(0x30, 1 << 32);
    assert_eq!(
        r.get_logs(),
        vec![
            ReportData { addr: 0x10, len: 4, action: ReportAction::Read },
            ReportData { addr: 0x20, len: 4, action: ReportAction::Write(7) },
            ReportData::new(ReportAction::LoadModifyStore(1 << 32), 0x30, 8),
        ]
    );
    assert!(r.get_logs().is_empty());
}

#[test]
fn dummy_reporter_reads_zero() {
    let mut d = DummyEffectReporter;
    assert_eq!(d.read_volatile(0x10, 4), 0);
    d.write_volatile(0x10, 4, 1);
}
