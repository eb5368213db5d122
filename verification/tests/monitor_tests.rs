use ups_monitor::config::Config;
use ups_monitor::monitor::{begin_tick, conclude_tick, format_ups_status, write_voltage, Notice};
use ups_monitor::status_record::{try_read_status, PowerStatus, ShutdownStatus, Status};
use ups_monitor::ups::{ups_query_status, UpsStatusInfo};

fn conf(debounce: usize) -> Config {
    Config {
        serial: "/dev/ttyS0".to_string(),
        status_file: "/var/lib/ups/status.toml".to_string(),
        battery_low_threshold: 22_000,
        battery_low_debounce: debounce,
        battery_critical_threshold: 20_000,
        shutdown_delay_tenths: 5,
        shutdown_recovery_minutes: 5,
        print_log_command: vec!["logger".to_string()],
        graceful_shutdown_command: vec!["shutdown".to_string(), "-h".to_string()],
        force_reboot_command: vec!["reboot".to_string(), "-f".to_string()],
    }
}

fn reply(battery: &str, bits: &str) -> Option<UpsStatusInfo> {
    let line = format!("(230.0 000.0 230.0 030 50.0 {} 25.0 {}", battery, bits);
    Some(ups_query_status(line.as_bytes()).unwrap())
}

fn run(
    status: Status,
    boot: u64,
    answer: Option<UpsStatusInfo>,
    c: &Config,
    now: u64,
) -> (Status, Vec<Notice>, bool) {
    let start = begin_tick(status, boot);
    let mut notices: Vec<Notice> = start.notice.into_iter().collect();
    let end = conclude_tick(start, answer, c, now);
    notices.extend(end.notices.iter().copied());
    (end.status, notices, end.graceful_shutdown)
}

fn on(power: PowerStatus) -> Status {
    Status { power, low_battery_counter: 0, shutdown: ShutdownStatus::Normal }
}

#[test]
fn cold_start_on_mains() {
    let status = try_read_status(None);
    let (written, notices, shutdown) =
        run(status, 1000, reply("27.0", "00000000"), &conf(3), 5000);
    assert_eq!(notices, vec![Notice::OnMains]);
    assert_eq!(
        written,
        Status {
            power: PowerStatus::MainsRunning,
            low_battery_counter: 0,
            shutdown: ShutdownStatus::Normal
        }
    );
    assert!(!shutdown);
}

#[test]
fn mains_drops() {
    let (written, notices, shutdown) =
        run(on(PowerStatus::MainsRunning), 1000, reply("27.0", "10000000"), &conf(3), 5000);
    assert_eq!(notices, vec![Notice::MainsLost]);
    assert_eq!(written.power, PowerStatus::BatteryRunning);
    assert_eq!(written.low_battery_counter, 0);
    assert_eq!(written.shutdown, ShutdownStatus::Normal);
    assert!(!shutdown);
}

#[test]
fn mains_returns() {
    let (written, notices, shutdown) =
        run(on(PowerStatus::BatteryRunning), 1000, reply("24.0", "00000000"), &conf(3), 5000);
    assert_eq!(notices, vec![Notice::OnMains]);
    assert_eq!(written, on(PowerStatus::MainsRunning));
    assert!(!shutdown);
}

#[test]
fn steady_state_is_silent() {
    let (written, notices, _) =
        run(on(PowerStatus::MainsRunning), 1000, reply("27.0", "00000000"), &conf(3), 5000);
    assert!(notices.is_empty());
    assert_eq!(written, on(PowerStatus::MainsRunning));
    let (written, notices, _) =
        run(on(PowerStatus::BatteryRunning), 1000, reply("27.0", "10000000"), &conf(3), 5000);
    assert!(notices.is_empty());
    assert_eq!(written, on(PowerStatus::BatteryRunning));
}

#[test]
fn sustained_low_battery_with_debounce_three() {
    let c = conf(3);
    let mut status = on(PowerStatus::BatteryRunning);
    for expected in 1..=3usize {
        let (written, notices, shutdown) =
            run(status, 1000, reply("21.5", "10000000"), &c, 5000 + expected as u64);
        assert_eq!(written.low_battery_counter, expected);
        assert_eq!(written.shutdown, ShutdownStatus::Normal);
        assert!(notices.is_empty());
        assert!(!shutdown);
        status = written;
    }
    let (written, notices, shutdown) = run(status, 1000, reply("21.5", "10000000"), &c, 6000);
    assert_eq!(written.low_battery_counter, 4);
    assert_eq!(written.shutdown, ShutdownStatus::ShutdownPending { time: 6000 });
    assert_eq!(notices, vec![Notice::LowBatteryShutdown]);
    assert!(shutdown);
}

#[test]
fn sustained_low_battery_with_debounce_two() {
    let c = conf(2);
    let mut status = on(PowerStatus::BatteryRunning);
    for expected in 1..=2usize {
        let (written, notices, shutdown) = run(status, 1000, reply("21.5", "10000000"), &c, 5000);
        assert_eq!(written.low_battery_counter, expected);
        assert!(notices.is_empty());
        assert!(!shutdown);
        status = written;
    }
    let (written, notices, shutdown) = run(status, 1000, reply("21.5", "10000000"), &c, 6000);
    assert_eq!(written.low_battery_counter, 3);
    assert_eq!(written.shutdown, ShutdownStatus::ShutdownPending { time: 6000 });
    assert_eq!(notices, vec![Notice::LowBatteryShutdown]);
    assert!(shutdown);
    let (after, notices, shutdown) = run(written, 1000, reply("21.5", "10000000"), &c, 6060);
    assert_eq!(after.low_battery_counter, 0);
    assert_eq!(after.shutdown, ShutdownStatus::ShutdownPending { time: 6000 });
    assert!(notices.is_empty());
    assert!(!shutdown);
}

#[test]
fn debounce_zero_fires_on_the_second_low_tick() {
    let c = conf(0);
    let (first, _, shutdown) =
        run(on(PowerStatus::BatteryRunning), 1000, reply("21.5", "10000000"), &c, 5000);
    assert_eq!(first.low_battery_counter, 1);
    assert!(shutdown);
    let c1 = conf(1);
    let (first, _, shutdown) =
        run(on(PowerStatus::BatteryRunning), 1000, reply("21.5", "10000000"), &c1, 5000);
    assert_eq!(first.low_battery_counter, 1);
    assert!(!shutdown);
    let (second, _, shutdown) = run(first, 1000, reply("21.5", "10000000"), &c1, 5060);
    assert_eq!(second.low_battery_counter, 2);
    assert!(shutdown);
}

#[test]
fn counter_does_not_survive_a_tick_without_low_battery() {
    let mut status = on(PowerStatus::BatteryRunning);
    status.low_battery_counter = 2;
    let (written, _, _) = run(status, 1000, reply("23.0", "10000000"), &conf(3), 5000);
    assert_eq!(written.low_battery_counter, 0);
    let (written, _, _) = run(status, 1000, reply("21.0", "00000000"), &conf(3), 5000);
    assert_eq!(written.low_battery_counter, 0);
    let (written, _, _) = run(status, 1000, None, &conf(3), 5000);
    assert_eq!(written.low_battery_counter, 0);
    let (written, _, _) = run(status, 1000, reply("21.0", "10000000"), &conf(3), 5000);
    assert_eq!(written.low_battery_counter, 3);
}

#[test]
fn threshold_is_strict() {
    let (written, _, _) =
        run(on(PowerStatus::BatteryRunning), 1000, reply("22.0", "10000000"), &conf(3), 5000);
    assert_eq!(written.low_battery_counter, 0);
    let (written, _, shutdown) =
        run(on(PowerStatus::BatteryRunning), 1000, reply("20.0", "10000000"), &conf(3), 5000);
    assert_eq!(written.low_battery_counter, 1);
    assert!(!shutdown);
}

#[test]
fn critical_voltage() {
    let (written, notices, shutdown) =
        run(on(PowerStatus::MainsRunning), 1000, reply("19.0", "10000000"), &conf(3), 7000);
    assert_eq!(notices, vec![Notice::MainsLost, Notice::LowBatteryShutdown]);
    assert_eq!(
        written,
        Status {
            power: PowerStatus::BatteryRunning,
            low_battery_counter: 1,
            shutdown: ShutdownStatus::ShutdownPending { time: 7000 }
        }
    );
    assert!(shutdown);
    let (_, _, shutdown) =
        run(on(PowerStatus::MainsRunning), 1000, reply("19.0", "10000000"), &conf(1000), 7000);
    assert!(shutdown);
}

#[test]
fn battery_low_flag_triggers_at_once() {
    let (written, notices, shutdown) =
        run(on(PowerStatus::BatteryRunning), 1000, reply("27.0", "11000000"), &conf(3), 7000);
    assert_eq!(notices, vec![Notice::LowBatteryShutdown]);
    assert_eq!(written.low_battery_counter, 1);
    assert_eq!(written.shutdown, ShutdownStatus::ShutdownPending { time: 7000 });
    assert!(shutdown);
}

#[test]
fn battery_low_flag_on_mains_does_nothing() {
    let (written, notices, shutdown) =
        run(on(PowerStatus::MainsRunning), 1000, reply("19.0", "01000000"), &conf(3), 7000);
    assert!(notices.is_empty());
    assert_eq!(written, on(PowerStatus::MainsRunning));
    assert!(!shutdown);
}

#[test]
fn stale_pending_after_failed_shutdown() {
    let status = Status {
        power: PowerStatus::BatteryRunning,
        low_battery_counter: 4,
        shutdown: ShutdownStatus::ShutdownPending { time: 1000 },
    };
    let start = begin_tick(status, 2000);
    assert!(!start.shutdown_pending);
    assert_eq!(start.notice, Some(Notice::RecoveredFromOutage));
    assert_eq!(start.status.shutdown, ShutdownStatus::Normal);
    assert_eq!(start.old_counter, 4);
    let (written, notices, shutdown) = run(status, 2000, reply("27.0", "00000000"), &conf(3), 9000);
    assert_eq!(notices, vec![Notice::RecoveredFromOutage, Notice::OnMains]);
    assert_eq!(written, on(PowerStatus::MainsRunning));
    assert!(!shutdown);
}

#[test]
fn stale_pending_can_be_followed_by_a_new_decision() {
    let status = Status {
        power: PowerStatus::BatteryRunning,
        low_battery_counter: 0,
        shutdown: ShutdownStatus::ShutdownPending { time: 1000 },
    };
    let (written, notices, shutdown) = run(status, 2000, reply("19.0", "10000000"), &conf(3), 9000);
    assert_eq!(notices, vec![Notice::RecoveredFromOutage, Notice::LowBatteryShutdown]);
    assert_eq!(written.shutdown, ShutdownStatus::ShutdownPending { time: 9000 });
    assert!(shutdown);
}

#[test]
fn pending_shutdown_skips_the_query() {
    let status = Status {
        power: PowerStatus::BatteryRunning,
        low_battery_counter: 3,
        shutdown: ShutdownStatus::ShutdownPending { time: 2000 },
    };
    let start = begin_tick(status, 2000);
    assert!(start.shutdown_pending);
    assert_eq!(start.notice, None);
    let end = conclude_tick(start, None, &conf(3), 9000);
    assert!(end.notices.is_empty());
    assert!(!end.graceful_shutdown);
    assert_eq!(
        end.status,
        Status {
            power: PowerStatus::BatteryRunning,
            low_battery_counter: 0,
            shutdown: ShutdownStatus::ShutdownPending { time: 2000 }
        }
    );
    let end = conclude_tick(start, reply("27.0", "00000000"), &conf(3), 9000);
    assert!(end.notices.is_empty());
    assert_eq!(end.status.power, PowerStatus::BatteryRunning);
}

#[test]
fn communication_failure_is_told_once() {
    let (first, notices, shutdown) = run(on(PowerStatus::MainsRunning), 1000, None, &conf(3), 5000);
    assert_eq!(notices, vec![Notice::CommunicationFailure]);
    assert_eq!(first.power, PowerStatus::CommunicationFailed);
    assert!(!shutdown);
    let (second, notices, _) = run(first, 1000, None, &conf(3), 5060);
    assert!(notices.is_empty());
    assert_eq!(second, first);
}

#[test]
fn communication_recovery_is_told_once() {
    let failed = on(PowerStatus::CommunicationFailed);
    let (first, notices, _) = run(failed, 1000, reply("27.0", "00000000"), &conf(3), 5000);
    assert_eq!(notices, vec![Notice::CommunicationRestored, Notice::OnMains]);
    assert_eq!(first.power, PowerStatus::MainsRunning);
    let (_, notices, _) = run(first, 1000, reply("27.0", "00000000"), &conf(3), 5060);
    assert!(notices.is_empty());
    let (on_battery, notices, _) = run(failed, 1000, reply("27.0", "10000000"), &conf(3), 5000);
    assert_eq!(notices, vec![Notice::CommunicationRestored, Notice::MainsLost]);
    assert_eq!(on_battery.power, PowerStatus::BatteryRunning);
}

#[test]
fn reserved_failure_state_is_left_by_a_query() {
    let (written, notices, _) =
        run(on(PowerStatus::Failure), 1000, reply("27.0", "00000000"), &conf(3), 5000);
    assert_eq!(notices, vec![Notice::OnMains]);
    assert_eq!(written.power, PowerStatus::MainsRunning);
}

#[test]
fn snapshot_names_the_four_readings() {
    let info = reply("27.05", "00000000").unwrap();
    assert_eq!(
        format_ups_status(&info),
        b"input voltage 230.000V, output voltage 230.000V, battery voltage 27.050V, load 30%"
            .to_vec()
    );
    assert_eq!(write_voltage(0), b"0.000".to_vec());
    assert_eq!(write_voltage(13_650), b"13.650".to_vec());
    assert_eq!(write_voltage(4_294_967_295), b"4294967.295".to_vec());
}

#[test]
fn every_notice_has_its_words() {
    assert_eq!(Notice::RecoveredFromOutage.text(), "system recovered from outage");
    assert_eq!(Notice::CommunicationFailure.text(), "UPS communication failure");
    assert_eq!(Notice::CommunicationRestored.text(), "UPS communication restored");
    assert_eq!(Notice::MainsLost.text(), "mains lost, on battery");
    assert_eq!(Notice::LowBatteryShutdown.text(), "low battery, shutting down");
    assert_eq!(Notice::OnMains.text(), "on mains");
}

#[test]
fn written_voltage_reads_back() {
    for mv in [0u32, 1, 999, 1000, 27_050, 230_000, 999_999_999] {
        let line = [b"(".to_vec(), write_voltage(mv), b" 0 0 0 0 0 0 00000000".to_vec()].concat();
        assert_eq!(ups_query_status(&line).unwrap().input_voltage, mv);
    }
}
