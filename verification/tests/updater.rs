use blackforge::toast::Kind;
use blackforge::updater::{
    button_text, check_for_update, percent, progress_step, Checked, Installed, Phase, UpdateState,
};

#[test]
fn a_check_finds_a_version_and_installs_it() {
    let mut state = UpdateState::new();
    assert!(!state.has_update());
    assert!(state.begin_check());
    assert!(state.busy());
    assert!(!state.begin_check());
    state.check_done(Checked::Found("1.2.0".to_owned()));
    assert_eq!(state.phase, Phase::Available);
    assert!(state.has_update());
    assert_eq!(button_text(&state).as_deref(), Some("Update Blackforge to 1.2.0"));
    assert!(state.begin_install());
    assert!(!state.begin_install());
    assert_eq!(state.phase, Phase::Installing);
    state.set_progress(42);
    assert_eq!(button_text(&state).as_deref(), Some("Installing 42%"));
    assert_eq!(state.install_done(Installed::Relaunched), None);
    assert_eq!(state.phase, Phase::Installing);
    assert_eq!(state.version.as_deref(), Some("1.2.0"));
    assert_eq!(state.progress, 42);
    assert_eq!(state.error, None);
    assert!(!state.info);
}

#[test]
fn nothing_to_install_without_a_found_version() {
    let mut state = UpdateState::new();
    assert!(!state.begin_install());
    assert_eq!(state.phase, Phase::Idle);
    state.begin_check();
    state.check_done(Checked::Newest);
    assert_eq!(state.phase, Phase::Idle);
    assert_eq!(button_text(&state), None);
    let t = check_for_update(&state);
    assert_eq!(t.kind, Kind::Success);
    assert_eq!(t.text, "This is the newest version");
}

#[test]
fn failures_are_kept_for_the_toast() {
    let mut state = UpdateState::new();
    state.begin_check();
    state.check_done(Checked::Failed("offline".to_owned()));
    let t = check_for_update(&state);
    assert_eq!(t.kind, Kind::Error);
    assert_eq!(t.text, "The update check failed: offline");
    assert!(state.begin_check());
    assert_eq!(state.error, None);

    state.check_done(Checked::Found("2.0.0".to_owned()));
    let t = check_for_update(&state);
    assert_eq!(t.kind, Kind::Info);
    assert_eq!(t.text, "Version 2.0.0 is ready, the button at the bottom installs it");
    state.begin_install();
    state.set_progress(100);
    assert_eq!(
        state.install_done(Installed::RelaunchFailed("no exe".to_owned())).as_deref(),
        Some("no exe")
    );
    assert_eq!(state.progress, 100);
    assert!(!state.info);
    assert_eq!(state.phase, Phase::Idle);
    assert_eq!(state.version.as_deref(), Some("2.0.0"));
    assert_eq!(state.install_done(Installed::Failed("bad zip".to_owned())).as_deref(), Some("bad zip"));
    assert_eq!(state.version, None);
    assert_eq!(state.error.as_deref(), Some("bad zip"));
}

#[test]
fn percents_of_a_download() {
    assert_eq!(percent(50, Some(200)), Some(25));
    assert_eq!(percent(0, Some(200)), Some(0));
    assert_eq!(percent(300, Some(200)), Some(100));
    assert_eq!(percent(5, Some(0)), None);
    assert_eq!(percent(5, None), None);
    assert_eq!(percent(u64::MAX, Some(u64::MAX)), Some(1));
}

#[test]
fn the_bar_moves_on_whole_percents() {
    let mut last: u8 = 0;
    assert_eq!(progress_step(&mut last, 1, Some(1000)), None);
    assert_eq!(progress_step(&mut last, 10, Some(1000)), Some(1));
    assert_eq!(last, 1);
    assert_eq!(progress_step(&mut last, 15, Some(1000)), None);
    assert_eq!(progress_step(&mut last, 1000, Some(1000)), Some(100));
    assert_eq!(progress_step(&mut last, 1000, None), None);
    assert_eq!(last, 100);
}

#[test]
fn no_install_without_a_found_version_keeps_the_error() {
    let mut state = UpdateState::new();
    state.begin_check();
    state.check_done(Checked::Failed("offline".to_owned()));
    assert!(!state.begin_install());
    assert_eq!(state.error.as_deref(), Some("offline"));
    assert_eq!(state.phase, Phase::Idle);
}
