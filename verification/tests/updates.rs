use blackforge::nav_item::Badge;
use blackforge::updates::{check_toast, update_button, Entry, Newer, Updates};
use blackforge::toast::Kind;

fn entry(id: &str, version: &str, pinned: bool) -> Entry {
    Entry { id: id.to_owned(), newer: Newer { version: version.to_owned(), pinned } }
}

fn ids(updates: &Updates) -> Vec<String> {
    let mut ids: Vec<String> = updates.newest.iter().map(|e| e.id.clone()).collect();
    ids.sort();
    ids
}

#[test]
fn a_check_fills_the_newest_versions() {
    let mut updates = Updates::new();
    assert!(updates.begin_check());
    assert!(!updates.begin_check());
    updates.check_done(
        vec![entry("A-a", "2.0.0", false), entry("B-b", "1.1.0", true), entry("A-a", "2.1.0", false)],
        1_700_000_000,
    );
    assert!(!updates.checking);
    assert_eq!(updates.checked, Some(1_700_000_000));
    assert_eq!(ids(&updates), vec!["A-a", "B-b"]);
    let a = updates.newest.iter().find(|e| e.id == "A-a").unwrap();
    assert_eq!(a.newer.version, "2.1.0");
    assert_eq!(updates.movable(), 1);
    assert_eq!(updates.badge(), Badge::Count(1));
}

#[test]
fn update_all_leaves_the_pinned_ones() {
    let mut updates = Updates::new();
    updates.check_done(vec![entry("A-a", "2", false), entry("B-b", "3", true), entry("C-c", "4", false)], 1);
    assert_eq!(updates.movable(), 2);
    updates.all_moved();
    assert_eq!(ids(&updates), vec!["B-b"]);
    assert_eq!(updates.movable(), 0);
}

#[test]
fn one_mod_moves() {
    let mut updates = Updates::new();
    updates.check_done(vec![entry("A-a", "2", false), entry("B-b", "3", false)], 1);
    updates.moved("A-a");
    assert_eq!(ids(&updates), vec!["B-b"]);
    updates.moved("Z-z");
    assert_eq!(ids(&updates), vec!["B-b"]);
    let copy = updates.get();
    assert_eq!(copy.newest.len(), 1);
    assert_eq!(copy.checked, Some(1));
}

#[test]
fn a_failed_check_keeps_what_was_known() {
    let mut updates = Updates::new();
    updates.check_done(vec![entry("A-a", "2", false)], 5);
    assert!(updates.begin_check());
    updates.check_failed();
    assert!(!updates.checking);
    assert_eq!(updates.checked, Some(5));
    assert_eq!(updates.movable(), 1);
}

#[test]
fn the_toasts_and_the_button() {
    assert!(check_toast(false, 3).is_none());
    let t = check_toast(true, 0).unwrap();
    assert_eq!((t.kind, t.text.as_str()), (Kind::Success, "Every mod is on its newest version"));
    let t = check_toast(true, 3).unwrap();
    assert_eq!((t.kind, t.text.as_str()), (Kind::Info, "3 mods have a newer version"));
    assert_eq!(update_button(false, 0), ("Update all".to_owned(), true));
    assert_eq!(update_button(true, 0), ("Update all".to_owned(), false));
    assert_eq!(update_button(true, 4), ("Update 4".to_owned(), true));
}
