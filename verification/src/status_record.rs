//! The decision state that is kept between two runs, and the time base that
//! tells a decision of this boot from one of an earlier boot.

use vstd::prelude::*;
use crate::wire::{
    all_digits, find_first_field, first_field, lemma_split_nonempty, number, only_digits,
    parse_number, split, split_fields, views,
};

verus! {

/// What the monitor last knew of the power source.
#[derive(Clone, Copy, Debug, PartialEq, Eq, Structural)]
pub enum PowerStatus {
    Unknown,
    MainsRunning,
    BatteryRunning,
    /// Reserved: accepted when stored, never set by the monitor.
    Failure,
    CommunicationFailed,
}

/// Whether a shutdown was decided, and when (seconds since the Unix epoch).
#[derive(Clone, Copy, Debug, PartialEq, Eq, Structural)]
pub enum ShutdownStatus {
    Normal,
    ShutdownPending { time: u64 },
}

/// The record that one run of the monitor leaves for the next.
#[derive(Clone, Copy, Debug, PartialEq, Eq, Structural)]
pub struct Status {
    pub power: PowerStatus,
    /// Length of the current run of consecutive low-battery observations.
    pub low_battery_counter: usize,
    pub shutdown: ShutdownStatus,
}

/// The record of a first run: nothing known, nothing counted, nothing pending.
pub open spec fn initial_status() -> Status {
    Status {
        power: PowerStatus::Unknown,
        low_battery_counter: 0,
        shutdown: ShutdownStatus::Normal,
    }
}

impl Status {
    /// The record of a first run.
    pub fn initial() -> (s: Status)
        ensures
            s == initial_status(),
    {
        Status {
            power: PowerStatus::Unknown,
            low_battery_counter: 0,
            shutdown: ShutdownStatus::Normal,
        }
    }
}

impl ShutdownStatus {
    /// A shutdown is recorded and was decided before the given boot: the
    /// machine has restarted since, so the record no longer binds.
    pub open spec fn is_stale(self, boot_time: u64) -> bool {
        match self {
            ShutdownStatus::ShutdownPending { time } => time < boot_time,
            ShutdownStatus::Normal => false,
        }
    }

    /// A shutdown is recorded and was decided during the given boot.
    pub open spec fn is_outstanding(self, boot_time: u64) -> bool {
        match self {
            ShutdownStatus::ShutdownPending { time } => time >= boot_time,
            ShutdownStatus::Normal => false,
        }
    }

    /// Tells whether a recorded shutdown was decided before the given boot.
    pub fn stale(&self, boot_time: u64) -> (r: bool)
        ensures
            r == self.is_stale(boot_time),
    {
        match self {
            ShutdownStatus::ShutdownPending { time } => *time < boot_time,
            ShutdownStatus::Normal => false,
        }
    }

    /// Tells whether a recorded shutdown was decided during the given boot.
    pub fn outstanding(&self, boot_time: u64) -> (r: bool)
        ensures
            r == self.is_outstanding(boot_time),
    {
        match self {
            ShutdownStatus::ShutdownPending { time } => *time >= boot_time,
            ShutdownStatus::Normal => false,
        }
    }
}

/// The status to start a run from: what the store held, or the record of a
/// first run where the store was missing or could not be understood.
pub fn try_read_status(stored: Option<Status>) -> (s: Status)
    ensures
        s == match stored {
            Some(found) => found,
            None => initial_status(),
        },
{
    match stored {
        Some(found) => found,
        None => Status::initial(),
    }
}

/// The moment of the last boot, from the current time and the time since boot,
/// all in seconds.
pub fn boot_time(system_time: u64, uptime: u64) -> (t: u64)
    requires
        uptime <= system_time,
    ensures
        t == system_time - uptime,
{
    system_time - uptime
}

/// The whole seconds that an uptime text gives: its first field set apart by
/// white space is a decimal number of seconds, possibly with a fraction after
/// a point, which is dropped.
pub open spec fn uptime_seconds(text: Seq<u8>) -> Option<nat> {
    let parts = split(first_field(text), 0x2E);
    if parts.len() == 1 || (parts.len() == 2 && all_digits(parts[1])) {
        number(parts[0], u64::MAX as nat)
    } else {
        None
    }
}

/// The seconds since boot, from the text that the system gives for them
/// (`/proc/uptime` on Linux); `None` where the text is not of that form.
pub fn uptime(text: &[u8]) -> (r: Option<u64>)
    ensures
        match r {
            Some(seconds) => uptime_seconds(text@) == Some(seconds as nat),
            None => uptime_seconds(text@).is_none(),
        },
{
    let field = find_first_field(text);
    let parts = split_fields(field, 0x2E);
    proof {
        lemma_split_nonempty(field@, 0x2E);
        assert(views(parts@)[0] == parts@[0]@);
    }
    if parts.len() > 2 {
        return None;
    }
    if parts.len() == 2 {
        proof {
            assert(views(parts@)[1] == parts@[1]@);
        }
        if !only_digits(parts[1].as_slice()) {
            return None;
        }
    }
    parse_number(parts[0].as_slice(), u64::MAX)
}

} // verus!
