use vstd::prelude::*;
use crate::acpi::{AcpiOutput, BatteryStatus};
use crate::text::{decimal, push_decimal};

verus! {

broadcast use vstd::string::group_string_axioms;

/// Thresholds of the escalation policy.
#[derive(Debug, Clone, Copy, PartialEq, Eq, Structural)]
pub struct CommandSettings {
    /// Readings below this percentage call for a notification.
    pub critical_percent: u8,
    /// How long a notification stays visible, in milliseconds, before any
    /// escalation.
    pub critical_notification_timeout: u32,
}

pub const DEFAULT_CRITICAL_PERCENT: u8 = 15;

pub const DEFAULT_NOTIFICATION_TIMEOUT: u32 = 2000;

impl Default for CommandSettings {
    fn default() -> (r: CommandSettings)
        ensures
            r.critical_percent == DEFAULT_CRITICAL_PERCENT,
            r.critical_notification_timeout == DEFAULT_NOTIFICATION_TIMEOUT,
    {
        CommandSettings {
            critical_percent: DEFAULT_CRITICAL_PERCENT,
            critical_notification_timeout: DEFAULT_NOTIFICATION_TIMEOUT,
        }
    }
}

/// Urgency of a notification.
#[derive(Debug, Clone, Copy, PartialEq, Eq, Structural)]
pub enum NotificationLevel {
    Low,
    Normal,
    Critical,
}

/// The word by which notification daemons name `level`.
pub open spec fn urgency_name(level: NotificationLevel) -> Seq<char> {
    match level {
        NotificationLevel::Low => "low"@,
        NotificationLevel::Normal => "normal"@,
        NotificationLevel::Critical => "critical"@,
    }
}

impl NotificationLevel {
    /// The urgency word of this level: `low`, `normal` or `critical`.
    pub fn urgency(&self) -> (r: &'static str)
        ensures
            r@ == urgency_name(*self),
    {
        match self {
            NotificationLevel::Low => "low",
            NotificationLevel::Normal => "normal",
            NotificationLevel::Critical => "critical",
        }
    }
}

/// What to show the user after one reading.
#[derive(Debug, PartialEq, Eq)]
pub struct NotificationDecision {
    pub should_notify: bool,
    pub level: NotificationLevel,
    pub message: String,
    /// How long the notification stays visible, in milliseconds.
    pub duration: u64,
}

/// The text of a low-battery notification.
pub open spec fn low_battery_message(percent: nat) -> Seq<char> {
    "Battery low "@ + decimal(percent) + "%"@
}

/// How long the notification for `reading` stays visible: the base timeout,
/// multiplied while charging by one more than the points below the threshold.
pub open spec fn notification_duration(reading: AcpiOutput, settings: CommandSettings) -> int {
    if reading.status == BatteryStatus::Charging && reading.percent < settings.critical_percent {
        settings.critical_notification_timeout * (1 + settings.critical_percent - reading.percent)
    } else {
        settings.critical_notification_timeout as int
    }
}

/// Decides whether `reading` calls for a notification, and which.
///
/// Below the critical percentage the user is notified at critical urgency.
/// While charging, the notification stays visible longer the further the
/// charge is below the threshold; while discharging, or in an unknown state,
/// it stays for the base timeout.
pub fn decide(reading: &AcpiOutput, settings: &CommandSettings) -> (r: NotificationDecision)
    ensures
        r.should_notify == (reading.percent < settings.critical_percent),
        r.duration == notification_duration(*reading, *settings),
        r.should_notify ==> r.level == NotificationLevel::Critical && r.message@
            == low_battery_message(reading.percent as nat),
        !r.should_notify ==> r.level == NotificationLevel::Low && r.message@.len() == 0,
{
    let base = settings.critical_notification_timeout as u64;
    if reading.percent < settings.critical_percent {
        let duration = match reading.status {
            BatteryStatus::Charging => {
                let factor = 1 + (settings.critical_percent - reading.percent) as u64;
                assert(base * factor <= 0xffff_ffff * 256) by (nonlinear_arith)
                    requires
                        base <= 0xffff_ffff,
                        factor <= 256,
                ;
                base * factor
            },
            _ => base,
        };
        let mut message = "Battery low ".to_owned();
        push_decimal(&mut message, reading.percent);
        message.push('%');
        proof {
            reveal_strlit("%");
        }
        assert(message@ =~= low_battery_message(reading.percent as nat));
        NotificationDecision {
            should_notify: true,
            level: NotificationLevel::Critical,
            message,
            duration,
        }
    } else {
        NotificationDecision {
            should_notify: false,
            level: NotificationLevel::Low,
            message: String::new(),
            duration: base,
        }
    }
}

} // verus!
