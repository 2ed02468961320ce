use vstd::prelude::*;
use crate::acpi::{from_string, parse_report, AcpiError};
use crate::monitor::{can_generate, generated_by, Monitor, MonitorResponse};
use crate::notifier::{
    decide, low_battery_message, notification_duration, CommandSettings, NotificationDecision,
    NotificationLevel, DEFAULT_CRITICAL_PERCENT, DEFAULT_NOTIFICATION_TIMEOUT,
};

verus! {

/// Exit status of a run that read the battery.
pub const EXIT_OK: i32 = 0;

/// Exit status of a run that could not obtain or read a status report.
pub const EXIT_FAILURE: i32 = 1;

/// What one reading cycle comes to: the exit status of the run, and the
/// notification to dispatch, if any.
#[derive(Debug, PartialEq, Eq)]
pub struct CommandOutcome {
    pub exit_code: i32,
    pub notification: Option<NotificationDecision>,
    /// Why the report could not be read, when it could not.
    pub error: Option<AcpiError>,
}

/// The settings in force: those given, or the defaults.
pub open spec fn settings_or_default(optional_settings: Option<CommandSettings>) -> CommandSettings {
    match optional_settings {
        Some(s) => s,
        None => CommandSettings {
            critical_percent: DEFAULT_CRITICAL_PERCENT,
            critical_notification_timeout: DEFAULT_NOTIFICATION_TIMEOUT,
        },
    }
}

/// One reading cycle on the text of a status report, `None` when the report
/// could not be obtained.
///
/// A missing or unreadable report ends the run with `EXIT_FAILURE` and no
/// notification. Otherwise the run ends with `EXIT_OK`, and a notification
/// is dispatched exactly when the policy of `decide` calls for one.
pub fn command_outcome(optional_settings: Option<CommandSettings>, report: Option<String>) -> (r:
    CommandOutcome)
    ensures
        report is None ==> {
            &&& r.exit_code == EXIT_FAILURE
            &&& r.notification is None
            &&& r.error is None
        },
        report matches Some(text) ==> match parse_report(text@) {
            Err(e) => {
                &&& r.exit_code == EXIT_FAILURE
                &&& r.notification is None
                &&& r.error == Some(e)
            },
            Ok(reading) => {
                let settings = settings_or_default(optional_settings);
                &&& r.exit_code == EXIT_OK
                &&& r.error is None
                &&& (r.notification is Some <==> reading.percent < settings.critical_percent)
                &&& (r.notification matches Some(d) ==> {
                    &&& d.should_notify
                    &&& d.level == NotificationLevel::Critical
                    &&& d.message@ == low_battery_message(reading.percent as nat)
                    &&& d.duration == notification_duration(reading, settings)
                })
            },
        },
{
    let settings = match optional_settings {
        Some(s) => s,
        None => CommandSettings::default(),
    };
    let text = match report {
        Some(text) => text,
        None => {
            return CommandOutcome { exit_code: EXIT_FAILURE, notification: None, error: None };
        },
    };
    match from_string(text) {
        Ok(reading) => {
            let decision = decide(&reading, &settings);
            let notification = if decision.should_notify {
                Some(decision)
            } else {
                None
            };
            CommandOutcome { exit_code: EXIT_OK, notification, error: None }
        },
        Err(e) => CommandOutcome { exit_code: EXIT_FAILURE, notification: None, error: Some(e) },
    }
}

/// What a run does once a reading cycle is over.
#[derive(Debug, Clone, Copy, PartialEq, Eq, Structural)]
pub enum LoopAction {
    /// Wait for the element's delay, then read the battery again.
    Wait(MonitorResponse),
    /// End the run with this exit status.
    Stop(i32),
}

/// The step of a run after a cycle that ended with `exit_code`: a failed
/// cycle ends the run with its status, and a requested stop ends it with
/// `EXIT_OK`, both leaving the schedule as it was; otherwise the run waits
/// for the schedule's next element, or ends with `EXIT_OK` once the schedule
/// is exhausted.
pub fn next_action<F: Fn() -> MonitorResponse>(
    exit_code: i32,
    stop_requested: bool,
    schedule: &mut Monitor<F>,
) -> (r: LoopAction)
    requires
        can_generate(old(schedule).generator()),
    ensures
        final(schedule).generator() == old(schedule).generator(),
        exit_code != EXIT_OK ==> {
            &&& r == LoopAction::Stop(exit_code)
            &&& final(schedule).remaining() == old(schedule).remaining()
        },
        exit_code == EXIT_OK && stop_requested ==> {
            &&& r == LoopAction::Stop(EXIT_OK)
            &&& final(schedule).remaining() == old(schedule).remaining()
        },
        exit_code == EXIT_OK && !stop_requested && old(schedule).remaining() == 0 ==> {
            &&& r == LoopAction::Stop(EXIT_OK)
            &&& final(schedule).remaining() == 0
        },
        exit_code == EXIT_OK && !stop_requested && old(schedule).remaining() > 0 ==> {
            &&& final(schedule).remaining() == old(schedule).remaining() - 1
            &&& r matches LoopAction::Wait(x) && generated_by(old(schedule).generator(), x)
        },
{
    if exit_code != EXIT_OK {
        return LoopAction::Stop(exit_code);
    }
    if stop_requested {
        return LoopAction::Stop(EXIT_OK);
    }
    match schedule.next() {
        Some(response) => LoopAction::Wait(response),
        None => LoopAction::Stop(EXIT_OK),
    }
}

} // verus!
