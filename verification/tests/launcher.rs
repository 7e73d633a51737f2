use blackforge::cloud::Launch;
use blackforge::hint::Fix;
use blackforge::social::Social;
use blackforge::toast::Kind;
use blackforge::launcher::{
    game_label,
    folder_question, game_args, is_blank, old_game_args, steam_missing_now, Launcher, OldArgs,
    Run, Started, Step, STEAM_SECONDS,
};

#[test]
fn a_signed_in_start_syncs_first() {
    let mut l = Launcher::new();
    let mut social = Social::new();
    assert_eq!(l.run_game(true), Step::Sync);
    assert_eq!(l.run(), Run::Syncing);
    assert!(l.running());
    assert_eq!(l.launch_folder(), None);
    assert_eq!(l.run_game(true), Step::Nothing);
    assert_eq!(l.synced(Some(Launch::Ready)), Step::Launch);
    assert_eq!(l.run(), Run::Starting);
    let (step, toast) =
        l.launched(&mut social, Started::Running { label: game_label("Valheim", "client") });
    assert_eq!(step, Step::Wait);
    let toast = toast.unwrap();
    assert_eq!((toast.kind, toast.text.as_str()), (Kind::Success, "Started Valheim client"));
    assert_eq!(l.run(), Run::Running);
    assert_eq!(social.game_run, 1);
    assert!(social.reporting(1));
    l.exited(&mut social);
    assert_eq!(l.run(), Run::Idle);
    assert!(!l.running());
    assert_eq!(social.game_run, 2);
    assert!(!social.reporting(1));
}

#[test]
fn a_signed_out_start_launches_at_once() {
    let mut l = Launcher::new();
    let mut social = Social::new();
    assert_eq!(l.run_game(false), Step::Launch);
    assert_eq!(l.run(), Run::Starting);
    let (step, toast) = l.launched(&mut social, Started::NotFound { game: "Valheim".to_owned() });
    assert_eq!(step, Step::AskFolder);
    assert!(toast.is_none());
    assert_eq!(l.run(), Run::Idle);
    assert_eq!(social.game_run, 0);
}

#[test]
fn every_way_out_sets_the_run_back() {
    let mut l = Launcher::new();
    let mut social = Social::new();
    l.run_game(true);
    assert_eq!(l.synced(None), Step::Fail);
    assert_eq!(l.run(), Run::Idle);
    l.run_game(true);
    assert_eq!(l.synced(Some(Launch::Conflict)), Step::AskConflict);
    assert_eq!(l.run(), Run::Syncing);
    assert_eq!(l.settled(false), Step::Nothing);
    assert_eq!(l.run(), Run::Idle);
    l.run_game(true);
    l.synced(Some(Launch::Conflict));
    assert_eq!(l.settled(true), Step::Launch);
    let (step, toast) = l.launched(&mut social, Started::Failed {
        chain: "game not found".to_owned(),
        fix: Some(Fix::GiveGameFolder),
    });
    assert_eq!(step, Step::Fail);
    let toast = toast.unwrap();
    assert_eq!(toast.kind, Kind::Error);
    assert_eq!(toast.text, "game not found, press Run game to pick the folder by hand");
    assert_eq!(l.run(), Run::Idle);
    assert_eq!(social.game_run, 0);
}

#[test]
fn a_picked_folder_reaches_the_launch() {
    let mut l = Launcher::new();
    let mut social = Social::new();
    assert_eq!(l.run_game_from(true, "/games/Valheim".to_owned()), Step::Sync);
    assert_eq!(l.launch_folder(), Some("/games/Valheim"));
    assert_eq!(l.run_game_from(false, "/elsewhere".to_owned()), Step::Nothing);
    assert_eq!(l.launch_folder(), Some("/games/Valheim"));
    assert_eq!(l.synced(Some(Launch::Conflict)), Step::AskConflict);
    assert_eq!(l.launch_folder(), Some("/games/Valheim"));
    assert_eq!(l.settled(true), Step::Launch);
    assert_eq!(l.launch_folder(), Some("/games/Valheim"));
    let (step, _) = l.launched(&mut social, Started::Running { label: "Valheim client".to_owned() });
    assert_eq!(step, Step::Wait);
    assert_eq!(l.launch_folder(), None);
    l.exited(&mut social);
    assert_eq!(l.run_game(false), Step::Launch);
    assert_eq!(l.launch_folder(), None);
}

#[test]
fn a_folder_start_after_steam_did_not_find_the_game() {
    let mut l = Launcher::new();
    let mut social = Social::new();
    assert_eq!(l.run_game(false), Step::Launch);
    let (step, _) = l.launched(&mut social, Started::NotFound { game: "Valheim".to_owned() });
    assert_eq!(step, Step::AskFolder);
    assert_eq!(l.run_game_from(false, "D:/Valheim".to_owned()), Step::Launch);
    assert_eq!(l.run(), Run::Starting);
    assert_eq!(l.launch_folder(), Some("D:/Valheim"));
}

#[test]
fn runs_as_numbers() {
    for run in [Run::Idle, Run::Syncing, Run::Starting, Run::Running] {
        assert_eq!(Run::from_u8(run.to_u8()), run);
    }
    assert_eq!(Run::Running.to_u8(), 3);
    assert_eq!(Run::from_u8(9), Run::Idle);
}

#[test]
fn steam_is_missing_only_when_needed_and_not_running() {
    assert!(steam_missing_now(Some(true), Some(false)));
    assert!(!steam_missing_now(Some(true), Some(true)));
    assert!(!steam_missing_now(Some(true), None));
    assert!(!steam_missing_now(Some(false), Some(false)));
    assert!(!steam_missing_now(None, Some(false)));
    let mut l = Launcher::new();
    assert!(l.steam_seen(true));
    assert!(l.steam_missing());
    assert!(!l.steam_seen(true));
    assert!(l.steam_seen(false));
    assert_eq!(STEAM_SECONDS, 3);
}

#[test]
fn game_arguments_split_at_whitespace() {
    assert_eq!(game_args("  -console\t+connect 1.2.3.4 "), vec!["-console", "+connect", "1.2.3.4"]);
    assert!(game_args("   ").is_empty());
    assert_eq!(
        folder_question("Valheim"),
        "Valheim was not found through Steam. Pick the game folder by hand?"
    );
}

#[test]
fn old_arguments_move_into_the_profile() {
    assert!(matches!(old_game_args(None), OldArgs::Nothing));
    assert!(matches!(old_game_args(Some(" \n".to_owned())), OldArgs::Drop));
    match old_game_args(Some("-console".to_owned())) {
        OldArgs::Move(a) => assert_eq!(a, "-console"),
        _ => panic!("the arguments move"),
    }
    assert!(is_blank(""));
    assert!(!is_blank(" x "));
}
