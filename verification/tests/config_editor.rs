use blackforge::config_settings::{setting_changed, refusal, saved_line, trim_text, Accepted, Editor, Save};

fn range(min: &str, max: &str) -> Option<Accepted> {
    Some(Accepted::Range { min: min.to_owned(), max: max.to_owned() })
}

#[test]
fn a_value_outside_its_range_is_refused() {
    assert_eq!(refusal(&range("1", "10"), false).as_deref(), Some("Must be from 1 to 10"));
    assert_eq!(refusal(&range("1", "10"), true), None);
    assert_eq!(refusal(&None, false), None);
    let values = Some(Accepted::Values { values: vec!["a".to_owned()], multiple: false });
    assert_eq!(refusal(&values, false), None);
}

#[test]
fn saving_keeps_the_refused_text_of_its_row() {
    let mut editor = Editor { refused: None };
    assert_eq!(editor.save(2, "5", "50".to_owned(), Some("Must be from 1 to 10".to_owned())), (Save::Refuse, true));
    assert_eq!(editor.refused_at(2), Some(("50", "Must be from 1 to 10")));
    assert_eq!(editor.refused_at(3), None);
    assert_eq!(editor.save(3, "x", "y".to_owned(), None), (Save::Write, false));
    assert_eq!(editor.refused_at(2), Some(("50", "Must be from 1 to 10")));
    assert_eq!(editor.save(2, "5", "5".to_owned(), None), (Save::Same, true));
    assert!(editor.refused.is_none());
    assert_eq!(editor.save(2, "5", "6".to_owned(), None), (Save::Write, false));
}

#[test]
fn saved_values_and_trims() {
    assert_eq!(saved_line("General", "Speed", "2.5"), "General.Speed = 2.5");
    assert_eq!(trim_text("  name \t"), "name");
    assert_eq!(trim_text("   "), "");
}

#[test]
fn pills_follow_the_value() {
    let values = vec!["Fire".to_owned(), "Ice".to_owned(), "Poison".to_owned()];
    assert_eq!(
        blackforge::config_settings::pills_on(&values, "fire, poison"),
        vec![true, false, true]
    );
    assert_eq!(blackforge::config_settings::pills_on(&values, ""), vec![false, false, false]);
    assert_eq!(blackforge::config_settings::default_line("true"), "Default: true");
}

#[test]
fn a_setting_differs_from_its_default_without_case() {
    assert!(!setting_changed(Some("True"), "true"));
    assert!(setting_changed(Some("true"), "false"));
    assert!(!setting_changed(None, "anything"));
    assert!(setting_changed(Some(""), "x"));
}
