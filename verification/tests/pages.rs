use blackforge::doctor_page::{badge_of, detail_text, fix_label, row_fix, Check, Health};
use blackforge::hint::Fix;
use blackforge::mod_pills::{ModEntry, Note};
use blackforge::nav_item::Badge;
use blackforge::page::Page;

#[test]
fn the_count_bubble() {
    assert_eq!(Badge::Count(0).count_text(), None);
    assert_eq!(Badge::Count(7).count_text().as_deref(), Some("7"));
    assert_eq!(Badge::Count(99).count_text().as_deref(), Some("99"));
    assert_eq!(Badge::Count(100).count_text().as_deref(), Some("99+"));
    assert_eq!(Badge::Alert.count_text(), None);
    assert_eq!(Badge::Nothing.count_text(), None);
    assert!(Badge::Alert.shows_dot());
    assert!(!Badge::Count(3).shows_dot());
}

#[test]
fn the_sidebar_pages() {
    let titles: Vec<&str> = Page::all().iter().map(|p| p.title()).collect();
    assert_eq!(titles, vec!["Mods", "Browse", "Configs", "Friends", "Servers", "Share", "Doctor"]);
    assert_eq!(Page::Doctor.icon(), "nav_doctor.svg");
    assert_eq!(Page::Mods.icon(), "nav_mods.svg");
}

fn entry(required: bool, enabled: bool, server: Option<&str>) -> ModEntry {
    ModEntry { required, enabled, server: server.map(|s| s.to_owned()) }
}

#[test]
fn the_note_of_a_mod() {
    assert!(matches!(Note::of(None), Note::Dependency));
    assert!(matches!(Note::of(Some(&entry(true, false, Some("s")))), Note::Required));
    assert!(matches!(Note::of(Some(&entry(false, false, Some("s")))), Note::Disabled));
    match Note::of(Some(&entry(false, true, Some("Viking Server")))) {
        Note::Pinned(s) => assert_eq!(s, "Viking Server"),
        other => panic!("pinned expected, got {:?}", other),
    }
    assert!(matches!(Note::of(Some(&entry(false, true, None))), Note::Plain));
}

#[test]
fn the_note_pills() {
    assert_eq!(Note::Plain.icon_and_text(), None);
    assert_eq!(
        Note::Dependency.icon_and_text(),
        Some(("pill_dependency.svg", "dependency".to_owned()))
    );
    assert_eq!(
        Note::Pinned("Home".to_owned()).icon_and_text(),
        Some(("pill_pinned.svg", "pinned for Home".to_owned()))
    );
    assert_eq!(Note::Required.icon_and_text(), Some(("pill_pinned.svg", "required".to_owned())));
    assert_eq!(Note::Disabled.icon_and_text(), Some(("pill_disabled.svg", "disabled".to_owned())));
    assert_eq!(Note::Plain.how_installed(), "");
    assert_eq!(Note::Dependency.how_installed(), ", as a dependency");
    assert_eq!(Note::Pinned("Home".to_owned()).how_installed(), ", pinned for Home");
    assert_eq!(Note::Disabled.how_installed(), ", disabled");
}

fn check(status: Health, detail: &str, fix: Option<Fix>) -> Check {
    Check { status, detail: detail.to_owned(), fix }
}

#[test]
fn a_problem_raises_the_doctor_alert() {
    assert_eq!(badge_of(&vec![]), Badge::Nothing);
    assert_eq!(
        badge_of(&vec![check(Health::Fine, "ok", None), check(Health::Warning, "hm", None)]),
        Badge::Nothing
    );
    assert_eq!(
        badge_of(&vec![check(Health::Fine, "ok", None), check(Health::Problem, "bad", None)]),
        Badge::Alert
    );
}

#[test]
fn doctor_rows() {
    assert_eq!(fix_label(Fix::StartSteam), Some("Open Steam"));
    assert_eq!(fix_label(Fix::GiveGameFolder), Some("Pick game folder"));
    assert_eq!(fix_label(Fix::Sync), Some("Install missing files"));
    assert_eq!(fix_label(Fix::PickProfile), None);
    let with_button = check(Health::Problem, "Steam is not running", Some(Fix::StartSteam));
    assert_eq!(detail_text(&with_button), "Steam is not running");
    assert_eq!(row_fix(&with_button), Some("Open Steam"));
    let fine = check(Health::Fine, "Steam runs", Some(Fix::StartSteam));
    assert_eq!(row_fix(&fine), None);
    let no_button = check(Health::Warning, "no profile", Some(Fix::CreateProfile));
    assert_eq!(detail_text(&no_button), "no profile");
    assert_eq!(row_fix(&no_button), None);
}
