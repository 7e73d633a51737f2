use blackforge::config_picker::{
    apply_label, copied, differ_line, friend_value, nothing_picked, shown, taken,
    Pick,
};
use blackforge::toast::Kind;

#[test]
fn picks_add_up() {
    assert_eq!(taken(&vec![]), 0);
    assert_eq!(taken(&vec![Pick::Mine, Pick::Friend, Pick::Friend, Pick::Mine]), 2);
    assert_eq!(apply_label(0), "Apply nothing");
    assert_eq!(apply_label(1), "Apply 1 value");
    assert_eq!(apply_label(5), "Apply 5 values");
}

#[test]
fn empty_values_are_shown() {
    assert_eq!(shown(""), "Empty");
    assert_eq!(shown("true"), "true");
    assert_eq!(friend_value("", true), "Empty (default)");
    assert_eq!(friend_value("8", false), "8");
    assert_eq!(
        differ_line(3),
        "3 settings differ. Tap a value to pick it, nothing of yours is lost unless you pick the other side"
    );
}

#[test]
fn nothing_picked_changes_nothing() {
    let t = nothing_picked(&vec![Pick::Mine]).unwrap();
    assert_eq!(t.kind, Kind::Info);
    assert_eq!(t.text, "nothing was picked, nothing changed");
    assert!(nothing_picked(&vec![Pick::Mine, Pick::Friend]).is_none());
    let t = copied(1);
    assert_eq!((t.kind, t.text.as_str()), (Kind::Success, "1 setting copied"));
    assert_eq!(copied(4).text, "4 settings copied");
}
