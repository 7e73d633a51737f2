use blackforge::backend::{summary, Changes};
use blackforge::busy::Buttons;
use blackforge::cloud::Status;
use blackforge::game_process::{GameWait, Next, APPEAR_SECONDS, LOOK_SECONDS};
use blackforge::nav_item::Badge;
use blackforge::page::Page;
use blackforge::social::{requests_seen, show_requests, Social, REPORT_SECONDS, REQUESTS_SECONDS};
use blackforge::sync_panel::{panel_text, SyncPanel};
use blackforge::toast::Kind;

#[test]
fn one_change_at_a_time() {
    let mut changes = Changes::new();
    assert!(!changes.busy());
    assert!(changes.change().is_ok());
    assert!(changes.busy());
    let refused = changes.change().unwrap_err();
    assert_eq!(refused.kind, Kind::Info);
    assert_eq!(refused.text, "Wait for the running operation to finish");
    assert!(changes.changed(true));
    assert!(!changes.busy());
    assert!(changes.change().is_ok());
    assert!(!changes.changed(false));
}

#[test]
fn summaries_are_one_line() {
    assert_eq!(summary("  added\n  two   mods  "), "added two mods");
    assert_eq!(summary(""), "");
}

#[test]
fn buttons_follow_the_running_change() {
    let mut buttons = Buttons::new();
    assert!(buttons.track(1, false));
    assert!(!buttons.track(2, true));
    assert_eq!(buttons.watched, vec![1, 2]);
    assert!(!buttons.press(1, "Installing".to_owned(), true));
    assert!(buttons.pressed.is_none());
    assert!(buttons.press(1, "Installing".to_owned(), false));
    let (enabled, back) = buttons.changed(true);
    assert!(!enabled);
    assert!(back.is_none());
    let (enabled, back) = buttons.changed(false);
    assert!(enabled);
    let back = back.unwrap();
    assert_eq!((back.button, back.text.as_str()), (1, "Installing"));
    assert!(buttons.pressed.is_none());
}

#[test]
fn the_game_has_two_minutes_to_show_up() {
    assert_eq!((APPEAR_SECONDS, LOOK_SECONDS), (120, 2));
    let mut wait = GameWait::new();
    let mut sleeps = 0;
    loop {
        match wait.looked(false) {
            Next::Sleep => sleeps += 1,
            Next::Done(seen) => {
                assert!(!seen);
                break;
            }
            Next::Look => panic!("nothing was seen"),
        }
    }
    assert_eq!(sleeps, 60);
    assert_eq!(wait.waited, 120);
}

#[test]
fn a_seen_game_is_waited_for_until_it_exits() {
    let mut wait = GameWait::new();
    assert_eq!(wait.looked(false), Next::Sleep);
    assert_eq!(wait.looked(true), Next::Look);
    assert_eq!(wait.looked(true), Next::Sleep);
    assert_eq!(wait.looked(false), Next::Done(true));
}

#[test]
fn profiles_upload_only_when_changed() {
    let mut social = Social::new();
    assert!(social.needs_upload("{}"));
    social.uploaded("{}".to_owned());
    assert!(!social.needs_upload("{}"));
    assert!(social.needs_upload("{\"mods\":1}"));
    assert_eq!(social.signed_out(), (Page::Friends, Badge::Count(0)));
    assert!(social.needs_upload("{}"));
}

#[test]
fn each_game_run_ends_the_reports_of_the_one_before() {
    let mut social = Social::new();
    let run = social.game_started();
    assert_eq!(run, 1);
    assert!(social.reporting(run));
    social.game_exited();
    assert!(!social.reporting(run));
    social.game_run = u64::MAX;
    assert_eq!(social.game_started(), 0);
    assert_eq!((REPORT_SECONDS, REQUESTS_SECONDS), (60, 300));
}

#[test]
fn friend_requests_badge() {
    assert_eq!(show_requests(3), (Page::Friends, Badge::Count(3)));
    assert_eq!(requests_seen(true, Some(2)), Some(2));
    assert_eq!(requests_seen(true, None), None);
    assert_eq!(requests_seen(false, Some(2)), Some(0));
}

#[test]
fn the_sync_card() {
    assert!(SyncPanel { open: true }.refresh());
    assert!(!SyncPanel { open: false }.applied());
    assert_eq!(panel_text(true, &Status::Syncing, 0), "Syncing");
    assert_eq!(
        panel_text(false, &Status::Syncing, 0),
        "Sign in to keep your mods and settings the same on every machine."
    );
}
