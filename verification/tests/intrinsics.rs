use bw_r_drivers_tc37x::intrinsics::{load_modify_store, read_volatile, write_volatile};
use bw_r_drivers_tc37x::tracing::log::Report;

#[test]
fn test_load_modify_store() {
    let mut report = Report::new();
    load_modify_store(&mut report, 0x1000, 0x1234, 0x5678);
    assert_eq!(
        report.take_log().to_string(),
        "ldms 0x00001000 0x00005678 0x00001234\n"
    );
}

#[test]
fn test_write_volatile() {
    let mut report = Report::new();
    let v_ptr = 0x1000;
    write_volatile(&mut report, v_ptr, 0x5678);
    assert_eq!(
        report.take_log().to_string(),
        "w    0x00001000 04 0x00005678\n"
    );
}

#[test]
fn test_read_volatile() {
    let mut report = Report::new();
    let v_ptr = 0x1000;
    report.expect_read(0x1000, 4, 0x1234);
    let val = read_volatile(&mut report, v_ptr);
    assert_eq!(val, 0x1234);
    assert_eq!(
        report.take_log().to_string(),
        "r    0x00001000 04 0x00001234\n"
    );
}

#[test]
fn reads_are_answered_in_the_order_expected() {
    let mut report = Report::new();
    report.expect_read(0x2000, 4, 7);
    report.expect_read(0x1000, 4, 9);
    assert_eq!(read_volatile(&mut report, 0x2000), 7);
    assert_eq!(read_volatile(&mut report, 0x1000), 9);
}

#[test]
fn comments_and_wide_values_in_the_log() {
    let mut report = Report::new();
    report.comment("Set all pins high".to_string());
    load_modify_store(&mut report, 0xF003_A000, 0xFFFF_FFFF, 0x1);
    assert_eq!(
        report.take_log().to_string(),
        "# Set all pins high\nldms 0xF003A000 0x00000001 0xFFFFFFFF\n"
    );
    assert_eq!(report.take_log().to_string(), "");
}
