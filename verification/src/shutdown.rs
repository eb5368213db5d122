//! The decisions of the hook that the host runs late in its shutdown.
//!
//! Where the monitor decided this shutdown, the UPS is told to cut the load
//! off and to restore it once mains is back. Where the UPS cannot be told, the
//! host is rebooted instead: that is safer than to halt on battery for good.
//! The hook never changes the stored status.

use vstd::prelude::*;
use crate::config::Config;
use crate::status_record::Status;
use crate::ups::{shutdown_command, ups_shutdown, CommError, Exchange};

verus! {

/// What the hook does next.
#[derive(Debug)]
pub enum HookAction {
    /// Nothing: let the shutdown go on.
    Nothing,
    /// Run this exchange with the UPS and report how it went.
    ArmCutoff(Exchange),
    /// Run the command that reboots the host by force.
    ForceReboot,
}

/// The first decision of the hook: the cutoff is armed, with the configured
/// delays, exactly when a shutdown is recorded that was decided during this
/// boot.
pub fn on_late_shutdown(status: &Status, boot_time: u64, conf: &Config) -> (action: HookAction)
    ensures
        match action {
            HookAction::ArmCutoff(exchange) => {
                &&& status.shutdown.is_outstanding(boot_time)
                &&& exchange.command@ == shutdown_command(
                    conf.shutdown_delay_tenths as int,
                    conf.shutdown_recovery_minutes as int,
                )
                &&& !exchange.need_response
            },
            HookAction::Nothing => !status.shutdown.is_outstanding(boot_time),
            HookAction::ForceReboot => false,
        },
{
    if status.shutdown.outstanding(boot_time) {
        HookAction::ArmCutoff(
            ups_shutdown(conf.shutdown_delay_tenths, conf.shutdown_recovery_minutes),
        )
    } else {
        HookAction::Nothing
    }
}

/// The second decision of the hook, once the exchange that arms the cutoff is
/// over: reboot by force exactly when it failed.
pub fn on_cutoff_result(outcome: &Result<(), CommError>) -> (action: HookAction)
    ensures
        match action {
            HookAction::ForceReboot => outcome.is_err(),
            HookAction::Nothing => outcome.is_ok(),
            HookAction::ArmCutoff(_) => false,
        },
{
    match outcome {
        Ok(_) => HookAction::Nothing,
        Err(_) => HookAction::ForceReboot,
    }
}

} // verus!
