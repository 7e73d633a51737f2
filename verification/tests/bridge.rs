use blackforge::bridge::{
    is_report, key_refusal, logs_text, reply, report_reply, reports_to_drop, route, Asked, Door,
    Keys, Report, Route, APP_RESTARTED, SIGN_IN, STARTED_AGAIN, UNREACHABLE,
};

#[test]
fn only_the_key_of_the_last_start_gets_in() {
    assert_eq!(key_refusal(true, Some("abc"), Some(b"abc")), None);
    assert_eq!(key_refusal(true, Some("abc"), Some(b"abd")), Some(STARTED_AGAIN));
    assert_eq!(key_refusal(true, Some("abc"), None), Some(STARTED_AGAIN));
    assert_eq!(key_refusal(true, None, Some(b"abc")), Some(APP_RESTARTED));
    assert_eq!(key_refusal(false, Some("abc"), Some(b"abc")), Some(UNREACHABLE));
}

fn answer(r: Route) -> (u16, String) {
    match r {
        Route::Answer(status, text) => (status, text),
        Route::Ask(door, id) => panic!("asked {door:?} for {id}"),
    }
}

#[test]
fn the_doors_in_order() {
    assert_eq!(answer(route(false, "/join/1", None, true)), (405, "only POST".to_owned()));
    assert_eq!(answer(route(true, "/other", None, true)), (404, "no such door".to_owned()));
    assert_eq!(answer(route(true, "/join/1", Some(STARTED_AGAIN), true)), (403, STARTED_AGAIN.to_owned()));
    assert_eq!(answer(route(true, "/rules/1", None, false)), (401, SIGN_IN.to_owned()));
    assert!(matches!(route(true, "/rules/srv-7", None, true), Route::Ask(Door::Rules, id) if id == "srv-7"));
    assert!(matches!(route(true, "/join/", None, true), Route::Ask(Door::Join, id) if id.is_empty()));
}

#[test]
fn what_the_backend_answered() {
    assert_eq!(reply(Asked::NoClient), (500, UNREACHABLE.to_owned()));
    assert_eq!(reply(Asked::Answered("{}".to_owned())), (200, "{}".to_owned()));
    assert_eq!(reply(Asked::NotSignedIn), (401, SIGN_IN.to_owned()));
    assert_eq!(reply(Asked::Refused("not a member".to_owned())), (403, "not a member".to_owned()));
    assert_eq!(reply(Asked::Failed), (502, UNREACHABLE.to_owned()));
}

#[test]
fn reports() {
    assert!(is_report("/report"));
    assert!(!is_report("/report/"));
    assert_eq!(report_reply(Report::NotPost), (405, "only POST".to_owned()));
    assert_eq!(report_reply(Report::Unreadable("bad json".to_owned())), (400, "no report: bad json".to_owned()));
    assert_eq!(report_reply(Report::Taken), (202, "taken".to_owned()));
    assert_eq!(report_reply(Report::NotStarted), (500, UNREACHABLE.to_owned()));
    assert_eq!(reports_to_drop(0), 0);
    assert_eq!(reports_to_drop(49), 0);
    assert_eq!(reports_to_drop(60), 11);
    assert!(!logs_text(200) && !logs_text(202) && logs_text(403));
}

#[test]
fn a_new_key_for_every_start() {
    let mut keys = Keys { key: None };
    let first = keys.new_key().unwrap();
    assert_eq!(first.len(), 43);
    assert!(first.chars().all(|c| c.is_ascii_alphanumeric() || c == '-' || c == '_'));
    assert_eq!(keys.key.as_deref(), Some(first.as_str()));
    let second = keys.new_key().unwrap();
    assert_ne!(first, second);
    assert_eq!(key_refusal(true, keys.key.as_deref(), Some(first.as_bytes())), Some(STARTED_AGAIN));
    assert_eq!(key_refusal(true, keys.key.as_deref(), Some(second.as_bytes())), None);
}
