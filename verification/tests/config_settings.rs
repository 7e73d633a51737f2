use blackforge::config_settings::{control, toggle, values_of, Accepted, Control};

#[test]
fn a_pill_turns_its_value_on_and_off() {
    assert_eq!(
        toggle("Warning, Error", "error").as_deref(),
        Some("Warning")
    );
    assert_eq!(
        toggle("Warning", "Error").as_deref(),
        Some("Warning, Error")
    );
    assert_eq!(toggle("Warning", "Warning"), None);
}

#[test]
fn values_are_trimmed_and_empty_ones_dropped() {
    assert_eq!(values_of(" A ,, b,"), vec!["A".to_owned(), "b".to_owned()]);
    assert_eq!(values_of(""), Vec::<String>::new());
}

#[test]
fn a_boolean_gets_a_switch() {
    assert!(matches!(control(Some(true), "true", None), Control::Switch(true)));
}

#[test]
fn a_short_list_gets_a_choice_in_its_own_spelling() {
    let accepted = Accepted::Values {
        values: vec!["Low".to_owned(), "High".to_owned()],
        multiple: false,
    };
    match control(None, "high", Some(accepted)) {
        Control::Choice { values, picked } => {
            assert_eq!(values, vec!["Low".to_owned(), "High".to_owned()]);
            assert_eq!(picked, "High");
        }
        other => panic!("not a choice: {other:?}"),
    }
}

#[test]
fn an_unlisted_value_stays_a_field() {
    let accepted = Accepted::Values { values: vec!["Low".to_owned()], multiple: false };
    assert!(matches!(control(None, "Medium", Some(accepted)), Control::Field));
    let range = Accepted::Range { min: "0".to_owned(), max: "9".to_owned() };
    assert!(matches!(control(None, "5", Some(range)), Control::Field));
}

#[test]
fn many_values_or_many_at_once() {
    let many: Vec<String> = (0..13).map(|n| n.to_string()).collect();
    assert!(matches!(
        control(None, "1", Some(Accepted::Values { values: many, multiple: true })),
        Control::Field
    ));
    let few = vec!["A".to_owned(), "B".to_owned()];
    assert!(matches!(
        control(None, "A", Some(Accepted::Values { values: few, multiple: true })),
        Control::Pills(v) if v.len() == 2
    ));
}

#[test]
fn turning_a_value_on_and_off_again_gives_back_the_values() {
    let on = toggle("Warning, Info", "Debug").unwrap();
    assert_eq!(on, "Warning, Info, Debug");
    assert_eq!(toggle(&on, "Debug").as_deref(), Some("Warning, Info"));
    let on = toggle(" Fatal ,Message", "All").unwrap();
    assert_eq!(toggle(&on, "All").as_deref(), Some("Fatal, Message"));
}
