use crate::clock::{local_minutes_of_day, now_utc_seconds, spec_local_minutes};
use crate::config::Config;
use crate::email::{compose, NotificationRequest};
use crate::registry::{
    ArgValue, CommandDescriptor, CommandId, HandlerKind, ParamKind, ParamSpec, TextChoice,
};
use crate::text::{format_hhmm, spec_hhmm, str_eq};
use vstd::prelude::*;

verus! {

/// Next obligation of the deferred alarm handler.
pub enum AlarmStep {
    /// Overwrite the single on-disk alarm file with the computed time of day.
    Persist { path: String, content: String },
    /// Deliver the outbound notification.
    Notify { request: NotificationRequest },
    /// The handler result: reply text or user-facing error text.
    Finished { reply: String },
}

/// Seconds one step of the requested unit lasts; an unrecognized unit has
/// none.
pub open spec fn spec_unit_seconds(unit: Seq<char>) -> Option<int> {
    if unit == "min"@ || unit == "minutes"@ {
        Some(60int)
    } else if unit == "hours"@ {
        Some(3600int)
    } else {
        None
    }
}

/// Well-formed alarm arguments: an integer amount, then a text unit.
pub open spec fn spec_args_shape(args: Seq<ArgValue>) -> bool {
    args.len() >= 2 && args[0] is Int && args[1] is Text
}

/// The minutes after local midnight the alarm lands on, for well-formed
/// arguments with a recognized unit.
pub open spec fn spec_alarm_minutes(args: Seq<ArgValue>, now: int, off: int) -> int
    recommends
        spec_args_shape(args),
        spec_unit_seconds(args[1]->Text_0@) is Some,
{
    spec_local_minutes(now, off, args[0]->Int_0 * spec_unit_seconds(args[1]->Text_0@)->0)
}

/// Decides the alarm command at a given clock reading `now_utc_secs` (seconds
/// since the Unix epoch): malformed arguments and an unrecognized unit become
/// fixed user-facing error texts and nothing is written or delivered;
/// otherwise the alarm file is to be overwritten with the `HH:MM` rendering of
/// the requested local time of day.
pub fn start_at(args: &Vec<ArgValue>, now_utc_secs: i64, cfg: &Config) -> (r: AlarmStep)
    requires
        cfg.wf(),
        now_utc_secs >= 0,
    ensures
        !spec_args_shape(args@) ==> (r matches (AlarmStep::Finished { reply }) && reply@
            == "Invalid input! Please provide a valid amount and unit."@),
        spec_args_shape(args@) && spec_unit_seconds(args@[1]->Text_0@) is None ==> (r matches (AlarmStep::Finished { reply }) && reply@ == "Invalid time unit! Use 'min' or 'hours'."@),
        spec_args_shape(args@) && spec_unit_seconds(args@[1]->Text_0@) is Some ==> (r matches (AlarmStep::Persist { path, content }) && path@ == "data/alarm"@ && content@ == spec_hhmm(
            spec_alarm_minutes(args@, now_utc_secs as int, cfg.timezone_offset_secs as int),
        ) && 0 <= spec_alarm_minutes(args@, now_utc_secs as int, cfg.timezone_offset_secs as int)
            < 1440),
{
    if args.len() < 2 {
        return AlarmStep::Finished {
            reply: String::from_str("Invalid input! Please provide a valid amount and unit."),
        };
    }
    let amount: i64 = match &args[0] {
        ArgValue::Int(a) => *a,
        _ => {
            return AlarmStep::Finished {
                reply: String::from_str("Invalid input! Please provide a valid amount and unit."),
            };
        },
    };
    let unit: &String = match &args[1] {
        ArgValue::Text(u) => u,
        _ => {
            return AlarmStep::Finished {
                reply: String::from_str("Invalid input! Please provide a valid amount and unit."),
            };
        },
    };
    let unit_secs: i64 = if str_eq(unit.as_str(), "min") || str_eq(unit.as_str(), "minutes") {
        60
    } else if str_eq(unit.as_str(), "hours") {
        3600
    } else {
        return AlarmStep::Finished {
            reply: String::from_str("Invalid time unit! Use 'min' or 'hours'."),
        };
    };
    proof {
        assert(-3600 * 0x8000_0000_0000_0000 <= (amount as int) * (unit_secs as int) <= 3600
            * 0x8000_0000_0000_0000) by (nonlinear_arith)
            requires
                -0x8000_0000_0000_0000 <= amount as int <= 0x7FFF_FFFF_FFFF_FFFF,
                unit_secs == 60 || unit_secs == 3600,
        ;
    }
    let dur: i128 = amount as i128 * unit_secs as i128;
    let m: u16 = local_minutes_of_day(now_utc_secs, cfg.timezone_offset_secs, dur);
    let content = format_hhmm(m);
    AlarmStep::Persist { path: String::from_str("data/alarm"), content }
}

/// Entry of the deferred alarm handler: reads the clock, then decides as
/// `start_at` does. The argument checks do not depend on the clock; a
/// well-formed request is an overwrite of the alarm file with some `HH:MM`
/// time of day.
pub fn start(args: &Vec<ArgValue>, cfg: &Config) -> (r: AlarmStep)
    requires
        cfg.wf(),
    ensures
        !spec_args_shape(args@) ==> (r matches (AlarmStep::Finished { reply }) && reply@
            == "Invalid input! Please provide a valid amount and unit."@),
        spec_args_shape(args@) && spec_unit_seconds(args@[1]->Text_0@) is None ==> (r matches (AlarmStep::Finished { reply }) && reply@ == "Invalid time unit! Use 'min' or 'hours'."@),
        spec_args_shape(args@) && spec_unit_seconds(args@[1]->Text_0@) is Some ==> (r matches (AlarmStep::Persist { path, content }) && path@ == "data/alarm"@ && (exists|m: int|
            0 <= m < 1440 && content@ == spec_hhmm(m))),
{
    let now = now_utc_seconds();
    let r = start_at(args, now, cfg);
    proof {
        if spec_args_shape(args@) && spec_unit_seconds(args@[1]->Text_0@) is Some {
            let m = spec_alarm_minutes(args@, now as int, cfg.timezone_offset_secs as int);
            assert(0 <= m < 1440 && r->Persist_content@ == spec_hhmm(m));
        }
    }
    r
}

/// Continues after the file write: a failed write becomes the handler result
/// and nothing is delivered; a successful one is followed by the fixed alarm
/// notification.
pub fn after_persist(cfg: &Config, write_result: &Result<(), String>) -> (r: AlarmStep)
    ensures
        match write_result {
            Result::Err(e) => (r matches (AlarmStep::Finished { reply }) && reply@
                == "Error saving alarm: "@ + e@),
            Result::Ok(_) => (r matches (AlarmStep::Notify { request })
                && request.from_address@ == "alarm"@ + "@"@ + cfg.sender_domain@
                && request.to_address@ == cfg.recipient_email@ && request.subject@
                == "Alarm Created"@ && request.body@ == "New alarm created!"@),
        },
{
    match write_result {
        Result::Err(e) => {
            let mut reply = String::from_str("Error saving alarm: ");
            reply.append(e.as_str());
            AlarmStep::Finished { reply }
        },
        Result::Ok(_) => AlarmStep::Notify {
            request: compose(cfg, "Alarm Created", "New alarm created!", "alarm"),
        },
    }
}

/// Continues after the notification: a failed delivery becomes the handler
/// result; a successful one yields the reply naming the persisted local time.
pub fn after_notify(send_result: &Result<(), String>, time_text: &String) -> (r: AlarmStep)
    ensures
        match send_result {
            Result::Err(e) => (r matches (AlarmStep::Finished { reply }) && reply@
                == "Error sending email: "@ + e@),
            Result::Ok(_) => (r matches (AlarmStep::Finished { reply }) && reply@
                == "⏰ Alarm set for localtime: "@ + time_text@),
        },
{
    match send_result {
        Result::Err(e) => {
            let mut reply = String::from_str("Error sending email: ");
            reply.append(e.as_str());
            AlarmStep::Finished { reply }
        },
        Result::Ok(_) => {
            let mut reply = String::from_str("⏰ Alarm set for localtime: ");
            reply.append(time_text.as_str());
            AlarmStep::Finished { reply }
        },
    }
}

/// The descriptor the alarm command is registered under.
pub fn register() -> (r: CommandDescriptor)
    ensures
        r.id == CommandId::Alarm,
        r.kind == HandlerKind::Deferred,
        r.name@ == "alarm"@,
        r.description@ == "Set an alarm"@,
        r.params@.len() == 2,
        r.params@[0].name@ == "amount"@,
        r.params@[0].description@ == "The amount of time"@,
        r.params@[0].kind == ParamKind::Integer,
        r.params@[0].required,
        r.params@[0].choices@.len() == 0,
        r.params@[1].name@ == "unit"@,
        r.params@[1].description@ == "The time unit (min or hours)"@,
        r.params@[1].kind == ParamKind::Text,
        r.params@[1].required,
        r.params@[1].choices@.len() == 2,
        r.params@[1].choices@[0].label@ == "minutes"@,
        r.params@[1].choices@[0].value@ == "min"@,
        r.params@[1].choices@[1].label@ == "hours"@,
        r.params@[1].choices@[1].value@ == "hours"@,
{
    let amount = ParamSpec {
        name: String::from_str("amount"),
        description: String::from_str("The amount of time"),
        kind: ParamKind::Integer,
        required: true,
        choices: Vec::new(),
    };
    let mut unit_choices: Vec<TextChoice> = Vec::new();
    unit_choices.push(
        TextChoice { label: String::from_str("minutes"), value: String::from_str("min") },
    );
    unit_choices.push(
        TextChoice { label: String::from_str("hours"), value: String::from_str("hours") },
    );
    let unit = ParamSpec {
        name: String::from_str("unit"),
        description: String::from_str("The time unit (min or hours)"),
        kind: ParamKind::Text,
        required: true,
        choices: unit_choices,
    };
    let mut params: Vec<ParamSpec> = Vec::new();
    params.push(amount);
    params.push(unit);
    CommandDescriptor {
        id: CommandId::Alarm,
        kind: HandlerKind::Deferred,
        name: String::from_str("alarm"),
        description: String::from_str("Set an alarm"),
        params,
    }
}

} // verus!
