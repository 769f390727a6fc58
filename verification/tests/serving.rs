use remote_bot::clock::local_minutes_of_day;
use remote_bot::supervisor::{exit_report, UnitExit};
use remote_bot::text::{format_hhmm, str_eq, str_starts_with};
use remote_bot::web::{file_response, route_file_binding};

#[test]
fn unset_file_serves_not_found() {
    let reply = file_response(None);
    assert_eq!(reply.status, 404);
    assert!(reply.body.is_empty());
}

#[test]
fn present_file_serves_its_exact_bytes() {
    let written = vec![137u8, 80, 78, 71, 13, 10];
    let reply = file_response(Some(written.clone()));
    assert_eq!(reply.status, 200);
    assert_eq!(reply.body, written);
}

#[test]
fn only_the_two_files_are_routed() {
    assert_eq!(route_file_binding("wallpaper").as_deref(), Some("data/wallpaper"));
    assert_eq!(route_file_binding("alarm").as_deref(), Some("data/alarm"));
    assert!(route_file_binding("etc").is_none());
    assert!(route_file_binding("").is_none());
}

#[test]
fn either_unit_exit_ends_the_process_with_its_report() {
    assert_eq!(exit_report(&UnitExit::WebServer).as_deref(), Some("Web server has stopped."));
    assert_eq!(
        exit_report(&UnitExit::Gateway { error: Some(String::from("shard died")) }).as_deref(),
        Some("Discord client error: shard died")
    );
    assert!(exit_report(&UnitExit::Gateway { error: None }).is_none());
}

#[test]
fn minutes_of_day_wraps_and_shifts() {
    assert_eq!(local_minutes_of_day(0, 3600, 1800), 90);
    assert_eq!(local_minutes_of_day(0, 0, -60), 1439);
    assert_eq!(local_minutes_of_day(86400, 0, 0), 0);
    assert_eq!(local_minutes_of_day(0, -3600, 0), 1380);
}

#[test]
fn hhmm_is_zero_padded() {
    assert_eq!(format_hhmm(0), "00:00");
    assert_eq!(format_hhmm(90), "01:30");
    assert_eq!(format_hhmm(1439), "23:59");
}

#[test]
fn text_helpers_compare_by_characters() {
    assert!(str_eq("alarm", "alarm"));
    assert!(!str_eq("alarm", "alarms"));
    assert!(!str_eq("alarm", "alarn"));
    assert!(str_starts_with("image/png", "image/"));
    assert!(!str_starts_with("video/mp4", "image/"));
    assert!(!str_starts_with("image", "image/"));
}
