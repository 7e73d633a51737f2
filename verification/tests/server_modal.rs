use blackforge::order::{ascending_order, le};
use blackforge::server_modal::{
    edit_title, pick_rows, picked, registered_text, Locked, PickRow, ServerMod,
};

fn chars(s: &str) -> Vec<char> {
    s.chars().collect()
}

#[test]
fn texts_order_by_code_point() {
    assert!(le(&chars("abc"), &chars("abd")));
    assert!(le(&chars("ab"), &chars("abc")));
    assert!(!le(&chars("abc"), &chars("ab")));
    assert!(le(&chars(""), &chars("")));
    assert!(le(&chars("Z"), &chars("a")));
    assert!(le(&chars("same"), &chars("same")));
}

#[test]
fn a_stable_sort_keeps_ties_in_order() {
    let keys = vec![chars("b"), chars("a"), chars("b"), chars("a"), chars("")];
    assert_eq!(ascending_order(&keys), vec![4, 1, 3, 0, 2]);
    assert_eq!(ascending_order(&vec![]), Vec::<usize>::new());
}

fn locked(id: &str, version: &str) -> Locked {
    Locked { id: id.to_owned(), version: version.to_owned() }
}

fn server_mod(id: &str, version: &str) -> ServerMod {
    ServerMod { id: id.to_owned(), version: version.to_owned() }
}

fn view(row: &PickRow) -> (&str, &str, bool, bool, bool) {
    (row.id.as_str(), row.version.as_str(), row.dependency, row.foreign, row.picked)
}

#[test]
fn rows_of_the_form_sorted_without_case() {
    let lock = vec![locked("b-Two", "1.0.0"), locked("A-one", "2.0.0")];
    let manifest = vec!["A-one".to_owned()];
    let mods = vec![server_mod("b-Two", "1.0.0"), server_mod("C-x", "3.0.0"), server_mod("C-x", "4.0.0")];
    let rows = pick_rows(&lock, &manifest, &mods);
    let views: Vec<_> = rows.iter().map(view).collect();
    assert_eq!(
        views,
        vec![
            ("A-one", "2.0.0", false, false, false),
            ("b-Two", "1.0.0", true, false, true),
            ("C-x", "4.0.0", false, true, true),
        ]
    );
}

#[test]
fn a_new_server_ticks_nothing() {
    let lock = vec![locked("z-Last", "1"), locked("a-First", "1")];
    let rows = pick_rows(&lock, &vec!["z-Last".to_owned(), "a-First".to_owned()], &vec![]);
    let views: Vec<_> = rows.iter().map(view).collect();
    assert_eq!(views, vec![("a-First", "1", false, false, false), ("z-Last", "1", false, false, false)]);
    assert!(pick_rows(&vec![], &vec![], &vec![]).is_empty());
}

#[test]
fn the_ticked_rows_are_saved() {
    let lock = vec![locked("a-A", "1"), locked("b-B", "2")];
    let mods = vec![server_mod("b-B", "1")];
    let rows = pick_rows(&lock, &vec![], &mods);
    let saved = picked(&rows);
    assert_eq!(saved.len(), 1);
    assert_eq!((saved[0].id.as_str(), saved[0].version.as_str()), ("b-B", "2"));
    assert_eq!(registered_text("Vikings", 12), "Vikings is registered with 12 mods");
    assert_eq!(edit_title("Vikings"), "Edit Vikings");
}

#[test]
fn the_line_under_a_switch() {
    let row = |dependency, foreign| PickRow {
        id: "a-B".to_owned(),
        version: "1.0.0".to_owned(),
        dependency,
        foreign,
        picked: true,
    };
    assert_eq!(blackforge::server_modal::pick_detail(&row(false, true)), "1.0.0, not in your profile");
    assert_eq!(blackforge::server_modal::pick_detail(&row(true, false)), "1.0.0, a dependency");
    assert_eq!(blackforge::server_modal::pick_detail(&row(false, false)), "1.0.0");
}
