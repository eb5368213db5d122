//! The settings of one installation.

use vstd::prelude::*;

verus! {

/// The settings that the monitor and the shutdown hook run with. Voltages are
/// in millivolts, the cutoff delay in tenths of a minute, the recovery delay in
/// whole minutes.
pub struct Config {
    pub serial: String,
    pub status_file: String,
    pub battery_low_threshold: u32,
    pub battery_low_debounce: usize,
    pub battery_critical_threshold: u32,
    pub shutdown_delay_tenths: i32,
    pub shutdown_recovery_minutes: u32,
    pub print_log_command: Vec<String>,
    pub graceful_shutdown_command: Vec<String>,
    pub force_reboot_command: Vec<String>,
}

} // verus!
