use blackforge::hint::{describe, hint, with_hint, Fix};
use blackforge::toast::{error, failure, info, success, Kind, ERROR_LIFETIME, LIFETIME};

#[test]
fn errors_stay_longer() {
    assert_eq!(Kind::Success.lifetime(), LIFETIME);
    assert_eq!(Kind::Info.lifetime(), 4);
    assert_eq!(Kind::Error.lifetime(), ERROR_LIFETIME);
    assert_eq!(ERROR_LIFETIME, 10);
}

#[test]
fn toasts_carry_their_text() {
    let t = success("done".to_owned());
    assert_eq!((t.kind, t.text.as_str()), (Kind::Success, "done"));
    let t = info("note".to_owned());
    assert_eq!((t.kind, t.text.as_str()), (Kind::Info, "note"));
    let t = error("bad".to_owned());
    assert_eq!((t.kind, t.text.as_str()), (Kind::Error, "bad"));
}

#[test]
fn only_two_fixes_have_a_hint_in_the_window() {
    assert_eq!(hint(Fix::CreateProfile), None);
    assert_eq!(hint(Fix::PickProfile), None);
    assert_eq!(hint(Fix::StartSteam), None);
    assert_eq!(hint(Fix::GiveGameFolder), Some("press Run game to pick the folder by hand"));
    assert_eq!(hint(Fix::Sync), Some("press Run game, it installs the missing files first"));
}

#[test]
fn a_failure_ends_with_its_way_out() {
    assert_eq!(
        describe("game not found", Some(Fix::GiveGameFolder)),
        "game not found, press Run game to pick the folder by hand"
    );
    assert_eq!(describe("no profile", Some(Fix::CreateProfile)), "no profile");
    assert_eq!(with_hint("broken", None), "broken");
    let t = failure("files missing", Some(Fix::Sync));
    assert_eq!(t.kind, Kind::Error);
    assert_eq!(t.text, "files missing, press Run game, it installs the missing files first");
}
