use blackforge::backend::summary;
use blackforge::pictures::{icon_key, letter, Want, Wanted};
use blackforge::cloud::conflict_detail;
use blackforge::config_picker::{picker_lines, picker_title, place_line};
use blackforge::configs_page::{card_name, stem};
use blackforge::doctor_page::{
    files_installed, fix_action, game_folder_text, problems_line, Check, FixAction, Health,
};
use blackforge::hint::Fix;
use blackforge::history_modal::{head, history_note, marks, restore_question, restored_text, HistoryRow};
use blackforge::members_modal::{member_to_add, members_note};
use blackforge::share_page::{deployed_text, export_name, wrote_text};
use blackforge::toast::Kind;
use blackforge::updater::{Checked, UpdateState};

fn check(status: Health) -> Check {
    Check { status, detail: String::new(), fix: None }
}

#[test]
fn doctor_subtitle_and_fixes() {
    assert_eq!(problems_line(&vec![]), "No problems found");
    assert_eq!(problems_line(&vec![check(Health::Warning), check(Health::Problem)]), "1 check found a problem");
    assert_eq!(
        problems_line(&vec![check(Health::Problem), check(Health::Fine), check(Health::Problem)]),
        "2 checks found a problem"
    );
    assert_eq!(fix_action(Fix::GiveGameFolder), Some(FixAction::PickGameFolder));
    assert_eq!(fix_action(Fix::Sync), Some(FixAction::InstallMissing));
    assert_eq!(fix_action(Fix::StartSteam), Some(FixAction::OpenSteam));
    assert_eq!(fix_action(Fix::CreateProfile), None);
    assert_eq!(files_installed(4), "4 files installed");
    assert_eq!(game_folder_text("/games/Valheim"), "The game is in /games/Valheim");
}

#[test]
fn members() {
    assert_eq!(member_to_add("  odin ").unwrap(), "odin");
    let t = member_to_add("   ").unwrap_err();
    assert_eq!((t.kind, t.text.as_str()), (Kind::Error, "type the username of who may join"));
    assert_eq!(members_note(0), Some("Nobody but you may join yet."));
    assert_eq!(members_note(2), None);
}

fn revision(revision: i64, applied: bool) -> HistoryRow {
    HistoryRow {
        revision,
        created: 1000,
        machine: String::new(),
        restored_from: None,
        applied,
        summary: String::new(),
    }
}

#[test]
fn history() {
    assert_eq!(head(&vec![revision(9, false), revision(8, true), revision(7, true)]), 8);
    assert_eq!(head(&vec![revision(9, false)]), 0);
    assert_eq!(marks(8, 8), (true, false));
    assert_eq!(marks(7, 8), (false, true));
    assert_eq!(
        restore_question(7, 1000, 1300),
        "Restore revision 7, saved 5 minutes ago? It becomes the newest setup on every machine."
    );
    assert_eq!(restored_text(7), "Revision 7 is restored, it installs now.");
    assert_eq!(history_note(0), Some("Nothing is saved yet."));
    assert_eq!(history_note(1), None);
}

#[test]
fn config_cards() {
    assert_eq!(stem("BepInEx.cfg"), "BepInEx");
    assert_eq!(stem("odd.cfg.cfg"), "odd");
    assert_eq!(stem("notes.txt"), "notes.txt");
    assert_eq!(stem(".cfg"), "");
    assert_eq!(card_name("a.cfg", Some("MaxGerman-Skip_Intro_Video")), "Skip Intro Video");
    assert_eq!(card_name("loose.cfg", None), "loose");
}

#[test]
fn share_texts() {
    assert_eq!(export_name("default"), "default.r2z");
    assert_eq!(wrote_text("/tmp/default.r2z"), "wrote /tmp/default.r2z");
    assert_eq!(
        deployed_text("/srv", 3, 0, 2, 5, 1),
        "deployed to /srv, 3 installed, 0 removed, 2 unchanged, 5 configs written, 1 kept"
    );
}

#[test]
fn conflict_and_picker_texts() {
    assert_eq!(
        conflict_detail("", "May 3", "2 mods added"),
        "The cloud setup was saved from an unnamed machine on May 3. Using it here means: 2 mods added. The setup you do not pick stays in the history."
    );
    assert_eq!(picker_lines(&vec![2, 0, 1]), vec![(0, 0), (0, 1), (2, 0)]);
    assert_eq!(picker_title("Skip Intro", "odin"), "Skip Intro settings of odin");
    assert_eq!(place_line("a.cfg", "General"), "a.cfg, [General]");
}

#[test]
fn the_update_button_installs_when_a_version_waits() {
    let mut state = UpdateState::new();
    assert!(!state.tap_installs());
    state.begin_check();
    assert!(!state.tap_installs());
    state.check_done(Checked::Found("9.9.9".to_owned()));
    assert!(state.tap_installs());
    assert!(state.starts_pulse(false));
    assert!(!state.starts_pulse(true));
    state.begin_install();
    assert!(!state.tap_installs());
}

#[test]
fn pictures_of_rows() {
    assert_eq!(letter("odin"), "O");
    assert_eq!(letter("Ülle"), "Ü");
    assert_eq!(letter("ülle"), "ü");
    assert_eq!(letter(""), "");
    assert_eq!(icon_key("a-B", "1.0.0"), "a-B-1.0.0");
    let mut wanted = Wanted { link: String::new() };
    assert_eq!(wanted.want(""), Want::Same);
    assert_eq!(wanted.want("https://a/p.png"), Want::Fetch);
    assert!(wanted.still_wanted("https://a/p.png"));
    assert_eq!(wanted.want("https://a/p.png"), Want::Same);
    assert_eq!(wanted.want("https://b/q.png"), Want::Fetch);
    assert!(!wanted.still_wanted("https://a/p.png"));
    assert_eq!(wanted.want(""), Want::Nothing);
}

#[test]
fn a_summary_is_one_line() {
    assert_eq!(summary("Skips\nthe   intro.\r\n\tFast. "), "Skips the intro. Fast.");
    assert!(!summary(" a \n b ").contains('\n'));
}
