use ups_monitor::ups::{
    ups_cancel_shutdown, ups_cmd, ups_query, ups_query_status, ups_shutdown, ups_status_query,
    UpsStatusInfo,
};

fn delay_field(minutes: f32) -> Vec<u8> {
    let tenths = (minutes * 10.0).round() as i32;
    ups_shutdown(tenths, 5).command[1..3].to_vec()
}

#[test]
fn delay_zero_is_immediate() {
    assert_eq!(delay_field(0.0), b"00".to_vec());
}

#[test]
fn delay_below_a_minute_is_a_fraction() {
    assert_eq!(delay_field(0.05), b".1".to_vec());
    assert_eq!(delay_field(0.1), b".1".to_vec());
    assert_eq!(delay_field(0.5), b".5".to_vec());
    assert_eq!(delay_field(0.9), b".9".to_vec());
}

#[test]
fn delay_in_whole_minutes_is_padded() {
    assert_eq!(delay_field(1.0), b"01".to_vec());
    assert_eq!(delay_field(5.0), b"05".to_vec());
    assert_eq!(delay_field(9.9), b"09".to_vec());
}

#[test]
fn delay_beyond_the_table_saturates() {
    assert_eq!(delay_field(10.0), b"99".to_vec());
    assert_eq!(delay_field(50.0), b"99".to_vec());
    assert_eq!(delay_field(99.0), b"99".to_vec());
    assert_eq!(delay_field(500.0), b"99".to_vec());
}

#[test]
fn negative_delay_saturates() {
    assert_eq!(ups_shutdown(-3, 0).command, b"S99R0000".to_vec());
}

#[test]
fn shutdown_command_is_written_whole() {
    let e = ups_shutdown(5, 5);
    assert_eq!(e.command, b"S.5R0005".to_vec());
    assert!(!e.need_response);
    assert_eq!(ups_shutdown(20, 1234).command, b"S02R1234".to_vec());
    assert_eq!(ups_shutdown(0, 60).command, b"S00R0060".to_vec());
}

#[test]
fn recovery_saturates_at_four_nines() {
    assert_eq!(ups_shutdown(10, 9999).command, b"S01R9999".to_vec());
    assert_eq!(ups_shutdown(10, 10000).command, b"S01R9999".to_vec());
    assert_eq!(ups_shutdown(10, u32::MAX).command, b"S01R9999".to_vec());
}

#[test]
fn cancel_is_c_without_reply() {
    let e = ups_cancel_shutdown();
    assert_eq!(e.command, b"C".to_vec());
    assert!(!e.need_response);
}

#[test]
fn status_query_is_qs_with_reply() {
    let e = ups_status_query();
    assert_eq!(e.command, b"QS".to_vec());
    assert!(e.need_response);
}

#[test]
fn query_and_command_keep_the_text() {
    let q = ups_query(b"Q1");
    assert_eq!(q.command, b"Q1".to_vec());
    assert!(q.need_response);
    let c = ups_cmd(b"T");
    assert_eq!(c.command, b"T".to_vec());
    assert!(!c.need_response);
}

#[test]
fn status_word_decoding() {
    let info = ups_query_status(b"(230.0 000.0 230.0 030 50.0 27.0 25.0 10100001").unwrap();
    assert!(info.mains_fail);
    assert!(info.beeper_active);
    assert!(!info.battery_low);
    assert!(info.buck_boost_active);
    assert!(!info.fault);
    assert!(!info.line_interactive);
    assert!(!info.self_test_running);
    assert!(!info.shutdown_active);
}

#[test]
fn status_word_mains_fail_and_beeper_only() {
    let info = ups_query_status(b"(230.0 000.0 230.0 030 50.0 27.0 25.0 10000001").unwrap();
    assert_eq!(
        info,
        UpsStatusInfo {
            input_voltage: 230_000,
            output_voltage: 230_000,
            load_percentage: 30,
            battery_voltage: 27_000,
            beeper_active: true,
            mains_fail: true,
            battery_low: false,
            buck_boost_active: false,
            fault: false,
            line_interactive: false,
            self_test_running: false,
            shutdown_active: false,
        }
    );
}

#[test]
fn each_status_bit_has_its_flag() {
    let line = |bits: &str| format!("(1.0 2.0 3.0 4 5.0 6.0 7.0 {}", bits).into_bytes();
    assert!(ups_query_status(&line("00000001")).unwrap().beeper_active);
    assert!(ups_query_status(&line("00000010")).unwrap().shutdown_active);
    assert!(ups_query_status(&line("00000100")).unwrap().self_test_running);
    assert!(ups_query_status(&line("00001000")).unwrap().line_interactive);
    assert!(ups_query_status(&line("00010000")).unwrap().fault);
    assert!(ups_query_status(&line("00100000")).unwrap().buck_boost_active);
    assert!(ups_query_status(&line("01000000")).unwrap().battery_low);
    assert!(ups_query_status(&line("10000000")).unwrap().mains_fail);
    let none = ups_query_status(&line("00000000")).unwrap();
    assert!(!none.beeper_active && !none.mains_fail && !none.battery_low && !none.fault);
}

#[test]
fn voltages_are_read_in_millivolts() {
    let info = ups_query_status(b"(208.4 140.0 208.45 034 59.9 2.055 35.0 00110000").unwrap();
    assert_eq!(info.input_voltage, 208_400);
    assert_eq!(info.output_voltage, 208_450);
    assert_eq!(info.battery_voltage, 2_055);
    assert_eq!(info.load_percentage, 34);
    let whole = ups_query_status(b"(230 0 229. 100 50 13 25 00000000").unwrap();
    assert_eq!(whole.input_voltage, 230_000);
    assert_eq!(whole.output_voltage, 229_000);
    assert_eq!(whole.battery_voltage, 13_000);
    assert_eq!(whole.load_percentage, 100);
}

#[test]
fn digits_beyond_the_third_of_a_fraction_are_dropped() {
    let info = ups_query_status(b"(230.0000 000.0 999999.9999 030 50.0 27.12345 25.0 00000000").unwrap();
    assert_eq!(info.input_voltage, 230_000);
    assert_eq!(info.output_voltage, 999_999_999);
    assert_eq!(info.battery_voltage, 27_123);
}

#[test]
fn further_fields_are_ignored() {
    assert!(ups_query_status(b"(230.0 000.0 230.0 030 50.0 27.0 25.0 00000000 extra").is_ok());
}

#[test]
fn reply_without_parenthesis_is_an_error() {
    assert!(ups_query_status(b"230.0 000.0 230.0 030 50.0 27.0 25.0 00000000").is_err());
    assert!(ups_query_status(b"").is_err());
}

#[test]
fn reply_with_missing_fields_is_an_error() {
    assert!(ups_query_status(b"(230.0 000.0 230.0 030 50.0 27.0 25.0").is_err());
    assert!(ups_query_status(b"(").is_err());
}

#[test]
fn reply_with_bad_numbers_is_an_error() {
    assert!(ups_query_status(b"(23x.0 000.0 230.0 030 50.0 27.0 25.0 00000000").is_err());
    assert!(ups_query_status(b"(230.0 000.0 230.0.1 030 50.0 27.0 25.0 00000000").is_err());
    assert!(ups_query_status(b"(230.0 000.0 230.0 300 50.0 27.0 25.0 00000000").is_err());
    assert!(ups_query_status(b"(230.0 000.0 230.0 030 50.0 27.0x 25.0 00000000").is_err());
    assert!(ups_query_status(b"(230.0 000.0 230.0 030 50.0 .5 25.0 00000000").is_err());
    assert!(ups_query_status(b"(1000000.0 000.0 230.0 030 50.0 27.0 25.0 00000000").is_err());
    assert!(ups_query_status(b"(230.0 000.0 230.0  030 50.0 27.0 25.0 00000000").is_err());
    assert!(ups_query_status(b"(230.0 000.0 230.0 -30 50.0 27.0 25.0 00000000").is_err());
}

#[test]
fn reply_with_bad_status_word_is_an_error() {
    assert!(ups_query_status(b"(230.0 000.0 230.0 030 50.0 27.0 25.0 0000000").is_err());
    assert!(ups_query_status(b"(230.0 000.0 230.0 030 50.0 27.0 25.0 000000000").is_err());
    assert!(ups_query_status(b"(230.0 000.0 230.0 030 50.0 27.0 25.0 00000002").is_err());
    assert!(ups_query_status(b"(230.0 000.0 230.0 030 50.0 27.0 25.0 00000000\r").is_err());
}
