use remote_bot::pipeline::{EventPipeline, PipelinePhase, Route};
use remote_bot::registry::{ArgValue, CommandId, HandlerKind, Registry};

fn no_args() -> Vec<ArgValue> {
    Vec::new()
}

#[test]
fn lookup_finds_every_registered_command() {
    let reg = Registry::default_registry();
    let ping = reg.lookup("ping").expect("ping is registered");
    assert_eq!(ping.id, CommandId::Ping);
    assert_eq!(ping.kind, HandlerKind::Immediate);
    let alarm = reg.lookup("alarm").expect("alarm is registered");
    assert_eq!(alarm.id, CommandId::Alarm);
    assert_eq!(alarm.kind, HandlerKind::Deferred);
    let wallpaper = reg.lookup("wallpaper").expect("wallpaper is registered");
    assert_eq!(wallpaper.id, CommandId::Wallpaper);
    assert_eq!(wallpaper.kind, HandlerKind::Deferred);
}

#[test]
fn lookup_misses_unknown_names() {
    let reg = Registry::default_registry();
    assert!(reg.lookup("reboot").is_none());
    assert!(reg.lookup("").is_none());
    assert!(reg.lookup("pingg").is_none());
}

#[test]
fn duplicate_registration_is_refused() {
    let mut cmds = Vec::new();
    cmds.push(remote_bot::ping::register());
    cmds.push(remote_bot::ping::register());
    assert!(Registry::new(cmds).is_none());
}

#[test]
fn distinct_registration_is_accepted() {
    let mut cmds = Vec::new();
    cmds.push(remote_bot::ping::register());
    cmds.push(remote_bot::alarm::register());
    assert!(Registry::new(cmds).is_some());
}

#[test]
fn unknown_command_routes_to_fallback() {
    let reg = Registry::default_registry();
    let args = no_args();
    match remote_bot::pipeline::route_event(&reg, "frobnicate", &args) {
        Route::Immediate { reply } => assert_eq!(reply, "not implemented :("),
        Route::Deferred { .. } => panic!("unknown command must not defer"),
    }
}

#[test]
fn ping_routes_to_immediate_reply() {
    let reg = Registry::default_registry();
    let args = no_args();
    match remote_bot::pipeline::route_event(&reg, "ping", &args) {
        Route::Immediate { reply } => assert_eq!(reply, "Hey, I'm alive!"),
        Route::Deferred { .. } => panic!("ping is synchronous"),
    }
}

#[test]
fn deferred_commands_route_by_id() {
    let reg = Registry::default_registry();
    let args = no_args();
    match remote_bot::pipeline::route_event(&reg, "alarm", &args) {
        Route::Deferred { command } => assert_eq!(command, CommandId::Alarm),
        Route::Immediate { .. } => panic!("alarm is deferred"),
    }
    match remote_bot::pipeline::route_event(&reg, "wallpaper", &args) {
        Route::Deferred { command } => assert_eq!(command, CommandId::Wallpaper),
        Route::Immediate { .. } => panic!("wallpaper is deferred"),
    }
}

#[test]
fn immediate_path_sends_one_message() {
    let (mut p, msg) = EventPipeline::start(Route::Immediate { reply: String::from("hi") });
    assert_eq!(msg.as_deref(), Some("hi"));
    assert_eq!(p.phase, PipelinePhase::ReplyPending);
    p.reply_result(true);
    assert_eq!(p.phase, PipelinePhase::Finished);
}

#[test]
fn deferred_path_acks_then_edits() {
    let (mut p, msg) = EventPipeline::start(Route::Deferred { command: CommandId::Alarm });
    assert!(msg.is_none());
    assert_eq!(p.phase, PipelinePhase::AckPending);
    let mut handler_calls: usize = 0;
    let run = p.ack_result(true);
    assert!(run);
    if run {
        handler_calls += 1;
    }
    assert_eq!(handler_calls, 1);
    let edit = p.handler_result(String::from("done"));
    assert_eq!(edit, "done");
    p.edit_result(true);
    assert_eq!(p.phase, PipelinePhase::Finished);
}

#[test]
fn failed_ack_never_invokes_handler() {
    let (mut p, _) = EventPipeline::start(Route::Deferred { command: CommandId::Wallpaper });
    let mut handler_calls: usize = 0;
    let run = p.ack_result(false);
    assert!(!run);
    if run {
        handler_calls += 1;
    }
    assert_eq!(handler_calls, 0);
    assert_eq!(p.phase, PipelinePhase::Finished);
}

#[test]
fn two_deferred_events_stay_independent() {
    let (mut a, _) = EventPipeline::start(Route::Deferred { command: CommandId::Wallpaper });
    let (mut b, _) = EventPipeline::start(Route::Deferred { command: CommandId::Wallpaper });
    assert!(a.ack_result(true));
    assert!(b.ack_result(true));
    let edit_b = b.handler_result(String::from("second"));
    let edit_a = a.handler_result(String::from("first"));
    assert_eq!(edit_a, "first");
    assert_eq!(edit_b, "second");
    b.edit_result(true);
    assert_eq!(a.phase, PipelinePhase::EditPending);
    a.edit_result(false);
    assert_eq!(a.phase, PipelinePhase::Finished);
    assert_eq!(b.phase, PipelinePhase::Finished);
}
