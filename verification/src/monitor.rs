//! The decisions of one run of the periodic monitor.
//!
//! A run has two halves with the query of the UPS between them. `begin_tick`
//! looks at the stored status and says whether the UPS is to be asked at all;
//! `conclude_tick` takes the answer and says what to store, what to tell the
//! operator and whether to start the shutdown of the host.

use vstd::prelude::*;
use crate::config::Config;
use crate::status_record::{PowerStatus, ShutdownStatus, Status};
use crate::ups::UpsStatusInfo;
use vstd::string::StringSliceAdditionalSpecFns;
use crate::ups::millivolts;
use crate::wire::{
    all_digits, append, decimal, digits_value, is_digit, law_decimal_reads_back,
    lemma_split_at_last_separator, lemma_split_without_separator, number, split, write_decimal,
};

verus! {

/// What the operator is told. The text that goes with each is the caller's.
#[derive(Clone, Copy, Debug, PartialEq, Eq, Structural)]
pub enum Notice {
    /// A shutdown was recorded before the last boot: the host is back.
    RecoveredFromOutage,
    /// The UPS did not answer, or not in a way that could be read.
    CommunicationFailure,
    /// The UPS answers again.
    CommunicationRestored,
    /// Mains is gone; the load runs on battery.
    MainsLost,
    /// The battery is exhausted; the host is being shut down.
    LowBatteryShutdown,
    /// The load runs on mains.
    OnMains,
}

/// The words that go with a notice.
pub open spec fn headline(notice: Notice) -> Seq<char> {
    match notice {
        Notice::RecoveredFromOutage => "system recovered from outage"@,
        Notice::CommunicationFailure => "UPS communication failure"@,
        Notice::CommunicationRestored => "UPS communication restored"@,
        Notice::MainsLost => "mains lost, on battery"@,
        Notice::LowBatteryShutdown => "low battery, shutting down"@,
        Notice::OnMains => "on mains"@,
    }
}

impl Notice {
    /// The words that go with this notice. A failure is followed by what went
    /// wrong, the three notices on the power source by the readings of the UPS.
    pub fn text(&self) -> (words: &'static str)
        ensures
            words@ == headline(*self),
    {
        match self {
            Notice::RecoveredFromOutage => "system recovered from outage",
            Notice::CommunicationFailure => "UPS communication failure",
            Notice::CommunicationRestored => "UPS communication restored",
            Notice::MainsLost => "mains lost, on battery",
            Notice::LowBatteryShutdown => "low battery, shutting down",
            Notice::OnMains => "on mains",
        }
    }
}

/// The first half of a run.
#[derive(Clone, Copy, Debug, PartialEq, Eq, Structural)]
pub struct TickStart {
    /// The status to go on with: the counter cleared, a stale shutdown dropped.
    pub status: Status,
    /// The counter as it was stored.
    pub old_counter: usize,
    /// A shutdown decided during this boot is outstanding: the UPS is not
    /// asked and nothing is decided anew.
    pub shutdown_pending: bool,
    /// What to tell the operator before going on.
    pub notice: Option<Notice>,
}

/// The second half of a run.
#[derive(Debug)]
pub struct TickOutcome {
    /// The status to store.
    pub status: Status,
    /// What to tell the operator, in order.
    pub notices: Vec<Notice>,
    /// Whether to start the shutdown of the host once the status is stored.
    pub graceful_shutdown: bool,
}

/// A whole run, as a value: what is stored, what is told, what is started.
pub struct TickModel {
    pub status: Status,
    pub notices: Seq<Notice>,
    pub graceful_shutdown: bool,
}

impl View for TickOutcome {
    type V = TickModel;

    open spec fn view(&self) -> TickModel {
        TickModel {
            status: self.status,
            notices: self.notices@,
            graceful_shutdown: self.graceful_shutdown,
        }
    }
}

/// The battery is low: its voltage is under the low threshold, or the UPS
/// raises its own flag.
pub open spec fn low_battery(
    info: UpsStatusInfo,
    battery_low_threshold: u32,
) -> bool {
    info.battery_voltage < battery_low_threshold || info.battery_low
}

/// A low battery calls for shutdown: it has been low for more runs in a row
/// than the debounce allows, or its voltage is under the critical threshold, or
/// the UPS raises its own flag.
pub open spec fn shutdown_due(
    counter: int,
    info: UpsStatusInfo,
    battery_low_debounce: usize,
    battery_critical_threshold: u32,
) -> bool {
    counter > battery_low_debounce || info.battery_voltage < battery_critical_threshold
        || info.battery_low
}

/// What `begin_tick` returns.
pub open spec fn tick_start(status: Status, boot_time: u64) -> TickStart {
    let stale = status.shutdown.is_stale(boot_time);
    TickStart {
        status: Status {
            power: status.power,
            low_battery_counter: 0,
            shutdown: if stale {
                ShutdownStatus::Normal
            } else {
                status.shutdown
            },
        },
        old_counter: status.low_battery_counter,
        shutdown_pending: status.shutdown.is_outstanding(boot_time),
        notice: if stale {
            Some(Notice::RecoveredFromOutage)
        } else {
            None
        },
    }
}

/// What becomes of the status when the UPS could not be asked.
pub open spec fn after_failed_query(status: Status) -> TickModel {
    if status.power != PowerStatus::CommunicationFailed {
        TickModel {
            status: Status {
                power: PowerStatus::CommunicationFailed,
                low_battery_counter: status.low_battery_counter,
                shutdown: status.shutdown,
            },
            notices: seq![Notice::CommunicationFailure],
            graceful_shutdown: false,
        }
    } else {
        TickModel { status, notices: Seq::empty(), graceful_shutdown: false }
    }
}

/// What becomes of the status when the UPS has answered `info` at time `now`.
pub open spec fn after_reply(
    status: Status,
    old_counter: usize,
    info: UpsStatusInfo,
    battery_low_threshold: u32,
    battery_low_debounce: usize,
    battery_critical_threshold: u32,
    now: u64,
) -> TickModel {
    let restored = status.power == PowerStatus::CommunicationFailed;
    let known = if restored {
        PowerStatus::Unknown
    } else {
        status.power
    };
    let first = if restored {
        seq![Notice::CommunicationRestored]
    } else {
        Seq::<Notice>::empty()
    };
    if info.mains_fail {
        let second = if known != PowerStatus::BatteryRunning {
            first.push(Notice::MainsLost)
        } else {
            first
        };
        if low_battery(info, battery_low_threshold) {
            let counter = old_counter + 1;
            if shutdown_due(counter, info, battery_low_debounce, battery_critical_threshold) {
                TickModel {
                    status: Status {
                        power: PowerStatus::BatteryRunning,
                        low_battery_counter: counter as usize,
                        shutdown: ShutdownStatus::ShutdownPending { time: now },
                    },
                    notices: second.push(Notice::LowBatteryShutdown),
                    graceful_shutdown: true,
                }
            } else {
                TickModel {
                    status: Status {
                        power: PowerStatus::BatteryRunning,
                        low_battery_counter: counter as usize,
                        shutdown: status.shutdown,
                    },
                    notices: second,
                    graceful_shutdown: false,
                }
            }
        } else {
            TickModel {
                status: Status {
                    power: PowerStatus::BatteryRunning,
                    low_battery_counter: status.low_battery_counter,
                    shutdown: status.shutdown,
                },
                notices: second,
                graceful_shutdown: false,
            }
        }
    } else {
        TickModel {
            status: Status {
                power: PowerStatus::MainsRunning,
                low_battery_counter: status.low_battery_counter,
                shutdown: status.shutdown,
            },
            notices: if known != PowerStatus::MainsRunning {
                first.push(Notice::OnMains)
            } else {
                first
            },
            graceful_shutdown: false,
        }
    }
}

/// What `conclude_tick` returns. `reply` is what the UPS answered, or `None`
/// where the query failed; it is not looked at while a shutdown is pending.
pub open spec fn tick_outcome(
    start: TickStart,
    reply: Option<UpsStatusInfo>,
    battery_low_threshold: u32,
    battery_low_debounce: usize,
    battery_critical_threshold: u32,
    now: u64,
) -> TickModel {
    if start.shutdown_pending {
        TickModel { status: start.status, notices: Seq::empty(), graceful_shutdown: false }
    } else {
        match reply {
            None => after_failed_query(start.status),
            Some(info) => after_reply(
                start.status,
                start.old_counter,
                info,
                battery_low_threshold,
                battery_low_debounce,
                battery_critical_threshold,
                now,
            ),
        }
    }
}

/// A whole run: both halves, and everything told to the operator in order.
pub open spec fn tick(
    status: Status,
    boot_time: u64,
    reply: Option<UpsStatusInfo>,
    battery_low_threshold: u32,
    battery_low_debounce: usize,
    battery_critical_threshold: u32,
    now: u64,
) -> TickModel {
    let start = tick_start(status, boot_time);
    let end = tick_outcome(
        start,
        reply,
        battery_low_threshold,
        battery_low_debounce,
        battery_critical_threshold,
        now,
    );
    TickModel {
        status: end.status,
        notices: match start.notice {
            Some(n) => seq![n] + end.notices,
            None => end.notices,
        },
        graceful_shutdown: end.graceful_shutdown,
    }
}

/// The first half of a run: clears the counter, remembers what it was, drops a
/// shutdown that was recorded before the last boot, and tells whether one
/// decided during this boot is outstanding.
pub fn begin_tick(status: Status, boot_time: u64) -> (start: TickStart)
    ensures
        start == tick_start(status, boot_time),
{
    let stale = status.shutdown.stale(boot_time);
    TickStart {
        status: Status {
            power: status.power,
            low_battery_counter: 0,
            shutdown: if stale {
                ShutdownStatus::Normal
            } else {
                status.shutdown
            },
        },
        old_counter: status.low_battery_counter,
        shutdown_pending: status.shutdown.outstanding(boot_time),
        notice: if stale {
            Some(Notice::RecoveredFromOutage)
        } else {
            None
        },
    }
}

/// The second half of a run. `reply` is what the UPS answered, or `None` where
/// the query failed or its answer could not be read; `now` is the current time
/// in seconds since the Unix epoch. While a shutdown is pending the UPS is not
/// to be asked, and `reply` is not looked at.
pub fn conclude_tick(
    start: TickStart,
    reply: Option<UpsStatusInfo>,
    conf: &Config,
    now: u64,
) -> (end: TickOutcome)
    requires
        start.old_counter < usize::MAX,
    ensures
        end@ == tick_outcome(
            start,
            reply,
            conf.battery_low_threshold,
            conf.battery_low_debounce,
            conf.battery_critical_threshold,
            now,
        ),
{
    let mut status = start.status;
    let mut notices: Vec<Notice> = Vec::new();
    let mut graceful_shutdown = false;
    if !start.shutdown_pending {
        match reply {
            None => {
                if status.power != PowerStatus::CommunicationFailed {
                    notices.push(Notice::CommunicationFailure);
                    status.power = PowerStatus::CommunicationFailed;
                }
            },
            Some(info) => {
                if status.power == PowerStatus::CommunicationFailed {
                    notices.push(Notice::CommunicationRestored);
                    status.power = PowerStatus::Unknown;
                }
                if info.mains_fail {
                    if status.power != PowerStatus::BatteryRunning {
                        notices.push(Notice::MainsLost);
                    }
                    status.power = PowerStatus::BatteryRunning;
                    if info.battery_voltage < conf.battery_low_threshold || info.battery_low {
                        status.low_battery_counter = start.old_counter + 1;
                        if status.low_battery_counter > conf.battery_low_debounce
                            || info.battery_voltage < conf.battery_critical_threshold
                            || info.battery_low {
                            notices.push(Notice::LowBatteryShutdown);
                            status.shutdown = ShutdownStatus::ShutdownPending { time: now };
                            graceful_shutdown = true;
                        }
                    }
                } else {
                    if status.power != PowerStatus::MainsRunning {
                        notices.push(Notice::OnMains);
                    }
                    status.power = PowerStatus::MainsRunning;
                }
            },
        }
    }
    let end = TickOutcome { status, notices, graceful_shutdown };
    proof {
        let model = tick_outcome(
            start,
            reply,
            conf.battery_low_threshold,
            conf.battery_low_debounce,
            conf.battery_critical_threshold,
            now,
        );
        assert(end@.notices =~= model.notices);
    }
    end
}

/// The counter is a run length: after a run it is zero, unless this run asked
/// the UPS, found it on battery and found the battery low; then it is one more
/// than it was.
pub proof fn law_counter_counts_consecutive_low_battery(
    status: Status,
    boot_time: u64,
    reply: Option<UpsStatusInfo>,
    battery_low_threshold: u32,
    battery_low_debounce: usize,
    battery_critical_threshold: u32,
    now: u64,
)
    requires
        status.low_battery_counter < usize::MAX,
    ensures
        ({
            let end = tick(
                status,
                boot_time,
                reply,
                battery_low_threshold,
                battery_low_debounce,
                battery_critical_threshold,
                now,
            );
            let seen_low = !status.shutdown.is_outstanding(boot_time) && reply.is_some()
                && reply.unwrap().mains_fail && low_battery(
                reply.unwrap(),
                battery_low_threshold,
            );
            end.status.low_battery_counter == if seen_low {
                status.low_battery_counter + 1
            } else {
                0
            }
        }),
{
}

/// A shutdown recorded before the last boot does not survive a run: the
/// operator is told first of all that the host is back, the UPS is asked as on
/// any other run, and unless this very run decides a shutdown of its own the
/// stored status says `Normal`.
pub proof fn law_stale_shutdown_is_cleared(
    status: Status,
    boot_time: u64,
    reply: Option<UpsStatusInfo>,
    battery_low_threshold: u32,
    battery_low_debounce: usize,
    battery_critical_threshold: u32,
    now: u64,
)
    requires
        status.shutdown.is_stale(boot_time),
        !tick(
            status,
            boot_time,
            reply,
            battery_low_threshold,
            battery_low_debounce,
            battery_critical_threshold,
            now,
        ).graceful_shutdown,
    ensures
        ({
            let end = tick(
                status,
                boot_time,
                reply,
                battery_low_threshold,
                battery_low_debounce,
                battery_critical_threshold,
                now,
            );
            &&& end.status.shutdown == ShutdownStatus::Normal
            &&& end.notices.len() >= 1
            &&& end.notices[0] == Notice::RecoveredFromOutage
            &&& !tick_start(status, boot_time).shutdown_pending
        }),
{
}

/// Whatever was recorded, a run that decides a shutdown stores it with the
/// time of the decision, and a run that decides none stores no new one.
pub proof fn law_shutdown_is_stamped_with_its_decision(
    status: Status,
    boot_time: u64,
    reply: Option<UpsStatusInfo>,
    battery_low_threshold: u32,
    battery_low_debounce: usize,
    battery_critical_threshold: u32,
    now: u64,
)
    ensures
        ({
            let end = tick(
                status,
                boot_time,
                reply,
                battery_low_threshold,
                battery_low_debounce,
                battery_critical_threshold,
                now,
            );
            end.status.shutdown == if end.graceful_shutdown {
                ShutdownStatus::ShutdownPending { time: now }
            } else if status.shutdown.is_stale(boot_time) {
                ShutdownStatus::Normal
            } else {
                status.shutdown
            }
        }),
{
}

/// A failed query is told once, when it is the first: the run that enters
/// `CommunicationFailed` ends its notices with the one failure notice, and a
/// run that finds the state already there adds none.
pub proof fn law_failure_is_told_once(
    status: Status,
    boot_time: u64,
    battery_low_threshold: u32,
    battery_low_debounce: usize,
    battery_critical_threshold: u32,
    now: u64,
)
    requires
        !status.shutdown.is_outstanding(boot_time),
    ensures
        ({
            let end = tick(
                status,
                boot_time,
                None,
                battery_low_threshold,
                battery_low_debounce,
                battery_critical_threshold,
                now,
            );
            &&& end.status.power == PowerStatus::CommunicationFailed
            &&& !end.graceful_shutdown
            &&& status.power != PowerStatus::CommunicationFailed ==> {
                &&& end.notices.len() >= 1
                &&& end.notices.last() == Notice::CommunicationFailure
                &&& forall|i: int|
                    0 <= i < end.notices.len() - 1 ==> end.notices[i]
                        != Notice::CommunicationFailure
            }
            &&& status.power == PowerStatus::CommunicationFailed ==> forall|i: int|
                0 <= i < end.notices.len() ==> end.notices[i] != Notice::CommunicationFailure
        }),
{
}

/// A second failed query in a row tells nothing and changes nothing.
pub proof fn law_repeated_failure_is_silent(
    status: Status,
    boot_time: u64,
    battery_low_threshold: u32,
    battery_low_debounce: usize,
    battery_critical_threshold: u32,
    now: u64,
    later: u64,
)
    requires
        !status.shutdown.is_outstanding(boot_time),
    ensures
        ({
            let first = tick(
                status,
                boot_time,
                None,
                battery_low_threshold,
                battery_low_debounce,
                battery_critical_threshold,
                now,
            );
            let second = tick(
                first.status,
                boot_time,
                None,
                battery_low_threshold,
                battery_low_debounce,
                battery_critical_threshold,
                later,
            );
            &&& second.notices.len() == 0
            &&& second.status == first.status
        }),
{
}

/// The return of the UPS is told once, when the state was
/// `CommunicationFailed`: that run tells it before anything else about the
/// power, goes on to tell where the power comes from, and leaves the state; a
/// run that finds another state does not tell it.
pub proof fn law_recovery_is_told_once(
    status: Status,
    boot_time: u64,
    info: UpsStatusInfo,
    battery_low_threshold: u32,
    battery_low_debounce: usize,
    battery_critical_threshold: u32,
    now: u64,
)
    requires
        !status.shutdown.is_outstanding(boot_time),
    ensures
        ({
            let start = tick_start(status, boot_time);
            let end = tick_outcome(
                start,
                Some(info),
                battery_low_threshold,
                battery_low_debounce,
                battery_critical_threshold,
                now,
            );
            &&& end.status.power != PowerStatus::CommunicationFailed
            &&& status.power == PowerStatus::CommunicationFailed ==> {
                &&& end.notices.len() >= 2
                &&& end.notices[0] == Notice::CommunicationRestored
                &&& end.notices[1] == if info.mains_fail {
                    Notice::MainsLost
                } else {
                    Notice::OnMains
                }
                &&& forall|i: int|
                    1 <= i < end.notices.len() ==> end.notices[i]
                        != Notice::CommunicationRestored
            }
            &&& status.power != PowerStatus::CommunicationFailed ==> forall|i: int|
                0 <= i < end.notices.len() ==> end.notices[i] != Notice::CommunicationRestored
        }),
{
}

/// While a shutdown decided during this boot is outstanding, a run decides
/// nothing: it tells nothing, starts nothing, and stores the status as it was
/// but for the cleared counter.
pub proof fn law_pending_shutdown_is_left_alone(
    status: Status,
    boot_time: u64,
    reply: Option<UpsStatusInfo>,
    battery_low_threshold: u32,
    battery_low_debounce: usize,
    battery_critical_threshold: u32,
    now: u64,
)
    requires
        status.shutdown.is_outstanding(boot_time),
    ensures
        ({
            let end = tick(
                status,
                boot_time,
                reply,
                battery_low_threshold,
                battery_low_debounce,
                battery_critical_threshold,
                now,
            );
            &&& end.notices.len() == 0
            &&& !end.graceful_shutdown
            &&& end.status == Status {
                power: status.power,
                low_battery_counter: 0,
                shutdown: status.shutdown,
            }
        }),
{
}

/// The power source is learnt from the UPS alone: after a run that got a
/// reply the state says what the reply said, after a run whose query failed
/// it says `CommunicationFailed`, and a run that did not ask leaves it as it
/// was. So no run moves to mains or battery without a reply.
pub proof fn law_power_follows_the_reply(
    status: Status,
    boot_time: u64,
    reply: Option<UpsStatusInfo>,
    battery_low_threshold: u32,
    battery_low_debounce: usize,
    battery_critical_threshold: u32,
    now: u64,
)
    ensures
        ({
            let end = tick(
                status,
                boot_time,
                reply,
                battery_low_threshold,
                battery_low_debounce,
                battery_critical_threshold,
                now,
            );
            end.status.power == if status.shutdown.is_outstanding(boot_time) {
                status.power
            } else {
                match reply {
                    None => PowerStatus::CommunicationFailed,
                    Some(info) => if info.mains_fail {
                        PowerStatus::BatteryRunning
                    } else {
                        PowerStatus::MainsRunning
                    },
                }
            }
        }),
{
}

/// The three digits after the point of a written voltage.
pub open spec fn thousandths_text(millivolts: u32) -> Seq<u8> {
    seq![
        (0x30 + (millivolts / 100) % 10) as u8,
        (0x30 + (millivolts / 10) % 10) as u8,
        (0x30 + millivolts % 10) as u8,
    ]
}

/// A voltage of so many millivolts as the operator reads it: the volts, a
/// point, and three digits of thousandths.
pub open spec fn voltage_text(millivolts: u32) -> Seq<u8> {
    decimal((millivolts / 1000) as nat).push(0x2E) + thousandths_text(millivolts)
}

/// The readings of the UPS as they stand in a notice.
pub open spec fn snapshot_text(info: UpsStatusInfo) -> Seq<u8> {
    "input voltage ".spec_bytes() + voltage_text(info.input_voltage)
        + "V, output voltage ".spec_bytes() + voltage_text(info.output_voltage)
        + "V, battery voltage ".spec_bytes() + voltage_text(info.battery_voltage)
        + "V, load ".spec_bytes() + decimal(info.load_percentage as nat) + "%".spec_bytes()
}

/// Writes a voltage for the operator.
pub fn write_voltage(millivolts: u32) -> (text: Vec<u8>)
    ensures
        text@ == voltage_text(millivolts),
{
    let mut text = write_decimal((millivolts / 1000) as u64);
    text.push(0x2E);
    text.push(0x30 + ((millivolts / 100) % 10) as u8);
    text.push(0x30 + ((millivolts / 10) % 10) as u8);
    text.push(0x30 + (millivolts % 10) as u8);
    proof {
        assert(text@ =~= voltage_text(millivolts));
    }
    text
}

/// Writes the readings of the UPS for a notice: input, output and battery
/// voltage, and the load in percent.
pub fn format_ups_status(ups_data: &UpsStatusInfo) -> (text: Vec<u8>)
    ensures
        text@ == snapshot_text(*ups_data),
{
    let mut text: Vec<u8> = Vec::new();
    append(&mut text, "input voltage ".as_bytes());
    append(&mut text, write_voltage(ups_data.input_voltage).as_slice());
    append(&mut text, "V, output voltage ".as_bytes());
    append(&mut text, write_voltage(ups_data.output_voltage).as_slice());
    append(&mut text, "V, battery voltage ".as_bytes());
    append(&mut text, write_voltage(ups_data.battery_voltage).as_slice());
    append(&mut text, "V, load ".as_bytes());
    append(&mut text, write_decimal(ups_data.load_percentage as u64).as_slice());
    append(&mut text, "%".as_bytes());
    proof {
        assert(text@ =~= snapshot_text(*ups_data));
    }
    text
}

/// The last three decimal digits of a number make up what it leaves when
/// divided by a thousand.
pub proof fn lemma_last_three_digits(v: int)
    requires
        0 <= v,
    ensures
        ((v / 100) % 10) * 100 + ((v / 10) % 10) * 10 + v % 10 == v % 1000,
{
    let hundreds = v / 100;
    let tens = v / 10;
    assert(v == 100 * hundreds + v % 100);
    assert(v == 10 * tens + v % 10);
    assert(tens == 10 * (tens / 10) + tens % 10);
    assert(hundreds == 10 * (hundreds / 10) + hundreds % 10);
    assert(tens / 10 == hundreds);
}

/// The three digits after the point write the thousandths.
pub proof fn lemma_thousandths(value: u32)
    ensures
        thousandths_text(value).len() == 3,
        all_digits(thousandths_text(value)),
        digits_value(thousandths_text(value)) == value % 1000,
{
    let three = thousandths_text(value);
    let two = three.drop_last();
    let one = two.drop_last();
    let d1 = (value as int / 100) % 10;
    let d2 = (value as int / 10) % 10;
    let d3 = value as int % 10;
    assert(one.drop_last() =~= Seq::<u8>::empty());
    assert(digits_value(one.drop_last()) == 0);
    assert(one.last() == (0x30 + d1) as u8);
    assert(two.last() == (0x30 + d2) as u8);
    assert(three.last() == (0x30 + d3) as u8);
    assert(digits_value(one) == digits_value(one.drop_last()) * 10 + (one.last() - 48) as nat);
    assert(digits_value(one) == d1);
    assert(digits_value(two) == digits_value(one) * 10 + (two.last() - 48) as nat);
    assert(digits_value(two) == d1 * 10 + d2);
    assert(digits_value(three) == digits_value(two) * 10 + (three.last() - 48) as nat);
    assert(digits_value(three) == d1 * 100 + d2 * 10 + d3);
    lemma_last_three_digits(value as int);
}

/// A voltage written for the operator reads back, as a field of a status
/// reply would, as the same voltage.
pub proof fn law_voltage_reads_back(value: u32)
    requires
        value < 1_000_000_000,
    ensures
        millivolts(voltage_text(value)) == Some(value as nat),
{
    let volts = decimal((value / 1000) as nat);
    let fraction = thousandths_text(value);
    law_decimal_reads_back((value / 1000) as nat);
    lemma_thousandths(value);
    assert forall|i: int| 0 <= i < volts.len() implies volts[i] != 0x2E by {
        assert(is_digit(volts[i]));
    }
    assert forall|i: int| 0 <= i < fraction.len() implies fraction[i] != 0x2E by {
        assert(is_digit(fraction[i]));
    }
    lemma_split_without_separator(volts, 0x2E);
    lemma_split_at_last_separator(volts, fraction, 0x2E);
    let parts = split(voltage_text(value), 0x2E);
    assert(parts == seq![volts].push(fraction));
    assert(parts.len() == 2);
    assert(parts[0] == volts);
    assert(parts[1] == fraction);
    assert(number(volts, 999_999) == Some((value / 1000) as nat));
}

} // verus!
