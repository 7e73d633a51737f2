use blackforge::cloud::{
    again, before_launch, ensure_account, history_detail, history_when, keeps_baseline,
    machine_label, resolve_check, settled_toast, steps, Agreed, Launch, Outcome, Plan, Status,
    Steps, Sync, ATTEMPTS,
};
use blackforge::toast::Kind;

#[test]
fn a_scheduled_sync_starts_once() {
    let mut sync = Sync::new();
    assert!(sync.schedule(true, false, false));
    assert!(sync.queued);
    assert!(!sync.schedule(true, false, false));
    sync.finished();
    assert!(sync.schedule(true, false, false));
}

#[test]
fn nothing_syncs_while_the_game_runs_or_the_dialog_is_open() {
    let mut sync = Sync::new();
    assert!(!sync.schedule(true, true, false));
    assert!(!sync.schedule(true, false, true));
    assert!(sync.open_dialog());
    assert!(!sync.open_dialog());
    assert!(!sync.schedule(true, false, false));
    sync.close_dialog();
    assert!(sync.schedule(true, false, false));
}

#[test]
fn signing_out_leaves_the_status_idle() {
    let mut sync = Sync::new();
    sync.status = Status::Offline;
    assert!(!sync.schedule(false, false, false));
    assert!(matches!(sync.status(), Status::Idle));
    assert!(!sync.queued);
}

#[test]
fn a_repeated_failure_is_reported_once() {
    let mut sync = Sync::new();
    let before = sync.begin();
    assert!(matches!(sync.status, Status::Syncing));
    assert!(sync.settle(&before, Outcome::Failed("disk full".to_owned()), 100));
    assert!(sync.failure_shows());
    let before = sync.begin();
    assert!(!sync.settle(&before, Outcome::Failed("disk full".to_owned()), 160));
    let before = sync.begin();
    assert!(sync.settle(&before, Outcome::Failed("no network".to_owned()), 220));
}

#[test]
fn offline_is_quiet_the_second_time_and_shows_no_toast() {
    let mut sync = Sync::new();
    let before = sync.begin();
    assert!(sync.settle(&before, Outcome::Offline, 10));
    assert!(!sync.failure_shows());
    let before = sync.begin();
    assert!(!sync.settle(&before, Outcome::Offline, 70));
}

#[test]
fn outcomes_set_the_status() {
    let mut sync = Sync::new();
    let before = sync.begin();
    sync.installing();
    assert!(matches!(sync.status, Status::Installing));
    assert!(!sync.settle(&before, Outcome::Done, 1_700_000_000));
    assert!(matches!(sync.status, Status::Synced(1_700_000_000)));
    assert!(!sync.settle(&before, Outcome::Conflict, 5));
    assert!(matches!(sync.status, Status::Waiting));
    assert!(!sync.settle(&before, Outcome::Again, 5));
    assert_eq!(sync.status.text_at(5), "Not synced: other machines keep saving changes. Will retry");
}

#[test]
fn status_lines() {
    assert_eq!(Status::Idle.text_at(0), "");
    assert_eq!(Status::Syncing.text_at(0), "Syncing");
    assert_eq!(Status::Installing.text_at(0), "Installing the setup from the cloud");
    assert_eq!(Status::Offline.text_at(0), "Offline, will retry");
    assert_eq!(
        Status::Waiting.text_at(0),
        "Waiting for your choice between this machine and the cloud"
    );
    assert_eq!(Status::Synced(1000).text_at(1010), "Synced just now");
    assert_eq!(Status::Synced(1000).text_at(1300), "Synced 5 minutes ago");
    assert_eq!(Status::Failed("boom".to_owned()).text_at(0), "Not synced: boom. Will retry");
    assert_eq!(Status::Synced(1000).text_at(900), "Synced just now");
}

#[test]
fn statuses_compare_by_what_they_say() {
    assert!(Status::Failed("a".to_owned()).same(&Status::Failed("a".to_owned())));
    assert!(!Status::Failed("a".to_owned()).same(&Status::Failed("b".to_owned())));
    assert!(!Status::Synced(1).same(&Status::Synced(2)));
    assert!(Status::Offline.same(&Status::Offline));
    assert!(!Status::Offline.same(&Status::Idle));
    assert!(Status::Failed("x".to_owned()).duplicate().same(&Status::Failed("x".to_owned())));
}

#[test]
fn retries_stop_after_the_attempts() {
    assert_eq!(ATTEMPTS, 3);
    assert!(again(1, true));
    assert!(again(2, true));
    assert!(!again(3, true));
    assert!(!again(1, false));
}

#[test]
fn a_conflict_blocks_the_start_only_when_signed_in() {
    assert_eq!(before_launch(true, Some(true)), Launch::Conflict);
    assert_eq!(before_launch(true, Some(false)), Launch::Ready);
    assert_eq!(before_launch(true, None), Launch::Ready);
    assert_eq!(before_launch(false, Some(true)), Launch::Ready);
}

#[test]
fn machines_without_a_name() {
    assert_eq!(machine_label(""), "an unnamed machine");
    assert_eq!(machine_label("desk"), "desk");
}

#[test]
fn the_steps_of_an_attempt() {
    assert_eq!(steps(true, true, Plan::Settled, true), Err("the game is running"));
    assert_eq!(
        steps(false, true, Plan::Settled, true),
        Ok(Steps { install: false, head_baseline: false, upload: false, conflict: false, agreed: Some(Agreed::Head) })
    );
    assert_eq!(
        steps(true, false, Plan::Settled, false),
        Ok(Steps { install: false, head_baseline: false, upload: false, conflict: false, agreed: None })
    );
    assert_eq!(
        steps(true, false, Plan::Conflict, true),
        Ok(Steps { install: false, head_baseline: false, upload: false, conflict: true, agreed: None })
    );
    assert_eq!(steps(true, false, Plan::Conflict, false), Err("a conflict needs a cloud setup"));
    assert_eq!(
        steps(true, false, Plan::Merge { install: true, upload: true }, true),
        Ok(Steps { install: true, head_baseline: true, upload: true, conflict: false, agreed: Some(Agreed::Merged) })
    );
    assert_eq!(
        steps(true, false, Plan::Merge { install: true, upload: false }, false),
        Ok(Steps { install: true, head_baseline: false, upload: false, conflict: false, agreed: Some(Agreed::Merged) })
    );
}

#[test]
fn the_baseline_and_the_account() {
    assert!(keeps_baseline(true, false));
    assert!(!keeps_baseline(true, true));
    assert!(!keeps_baseline(false, false));
    assert_eq!(ensure_account(Some("tok"), "tok"), Ok(()));
    assert_eq!(ensure_account(Some("other"), "tok"), Err("the signed-in account changed"));
    assert_eq!(ensure_account(None, "tok"), Err("the signed-in account changed"));
}

#[test]
fn settling_a_conflict_checks_both_sides() {
    assert_eq!(
        resolve_check(false, true),
        Err("local mods or settings changed meanwhile, sync checks again")
    );
    assert_eq!(resolve_check(true, false), Err("the cloud setup changed meanwhile, sync checks again"));
    assert_eq!(resolve_check(true, true), Ok(()));
    let t = settled_toast(true);
    assert_eq!(t.kind, Kind::Success);
    assert_eq!(t.text, "This machine is now the cloud setup.");
    assert_eq!(settled_toast(false).text, "The cloud setup is installed.");
}

#[test]
fn history_lines() {
    assert_eq!(history_when(7, 1000, "desk", 1300), "Revision 7, 5 minutes ago, desk");
    assert_eq!(history_when(12, 1000, "", 1000), "Revision 12, just now, an unnamed machine");
    assert_eq!(history_detail(Some(3), true, "2 mods"), "Restored revision 3: 2 mods");
    assert_eq!(history_detail(None, true, "2 mods"), "2 mods");
    assert_eq!(
        history_detail(None, false, "2 mods"),
        "Kept from a conflict, never installed by itself: 2 mods"
    );
}

#[test]
fn uploads_and_installs_from_the_cloud() {
    let t = blackforge::cloud::installed_toast("2 mods added");
    assert_eq!(t.kind, Kind::Success);
    assert_eq!(t.text, "Installed from the cloud: 2 mods added");
    assert_eq!(blackforge::cloud::upload_base(Some(41)), 41);
    assert_eq!(blackforge::cloud::upload_base(None), 0);
}

#[test]
fn a_background_attempt_stops_first_while_the_game_runs() {
    assert_eq!(blackforge::cloud::attempt_gate(true, true), Err("the game is running"));
    assert_eq!(blackforge::cloud::attempt_gate(false, true), Ok(()));
    assert_eq!(blackforge::cloud::attempt_gate(true, false), Ok(()));
}
