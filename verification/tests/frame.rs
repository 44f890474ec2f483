use bw_r_drivers_tc37x::can::frame::DataLenghtCode;

#[test]
pub fn test_data_length_code() {
    let test = |dlc: DataLenghtCode| {
        assert_eq!(
            dlc.to_length(),
            match dlc {
                DataLenghtCode::_0 => 0,
                DataLenghtCode::_1 => 1,
                DataLenghtCode::_2 => 2,
                DataLenghtCode::_3 => 3,
                DataLenghtCode::_4 => 4,
                DataLenghtCode::_5 => 5,
                DataLenghtCode::_6 => 6,
                DataLenghtCode::_7 => 7,
                DataLenghtCode::_8 => 8,
                DataLenghtCode::_12 => 12,
                DataLenghtCode::_16 => 16,
                DataLenghtCode::_20 => 20,
                DataLenghtCode::_24 => 24,
                DataLenghtCode::_32 => 32,
                DataLenghtCode::_48 => 48,
                DataLenghtCode::_64 => 64,
            }
        );
    };
    for i in 0u8..=DataLenghtCode::_64 as u8 {
        test(DataLenghtCode::try_from(i).unwrap());
    }
}

#[test]
fn length_codes_round_trip() {
    for n in 0usize..=64 {
        match DataLenghtCode::from_length(n) {
            Some(d) => assert_eq!(d.to_length(), n),
            None => assert!(!matches!(n, 0..=8 | 12 | 16 | 20 | 24 | 32 | 48 | 64)),
        }
    }
    assert!(DataLenghtCode::try_from(16u8).is_err());
    assert_eq!(u8::from(DataLenghtCode::_48), 14);
}
