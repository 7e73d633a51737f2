use blackforge::friend_mods::{
    added_text, friend_rows, row_note, subtitle, FriendRow, SharedConfig, SharedMod,
};
use blackforge::mod_pills::Note;
use blackforge::mods_page::LockChange;

fn shared(id: &str, dependency: bool, enabled: bool) -> SharedMod {
    SharedMod {
        id: id.to_owned(),
        version: "1.0.0".to_owned(),
        enabled,
        dependency,
        broken: false,
        description: format!("about {id}"),
    }
}

fn config(file: &str, package: Option<&str>) -> SharedConfig {
    SharedConfig { file: file.to_owned(), package: package.map(|p| p.to_owned()) }
}

fn ids(rows: &[FriendRow]) -> Vec<&str> {
    rows.iter().map(|r| r.id.as_str()).collect()
}

#[test]
fn dependencies_are_not_listed() {
    let mods = vec![shared("a-A", false, true), shared("d-Dep", true, true), shared("b-B", false, false)];
    let rows = friend_rows(&mods, &vec![], &vec!["a-A".to_owned()], &vec![]);
    assert_eq!(ids(&rows), vec!["a-A", "b-B"]);
    assert!(rows[0].installed);
    assert!(!rows[1].installed);
    assert!(!rows[1].enabled);
    assert_eq!(rows[1].description, "about b-B");
}

#[test]
fn shared_files_i_have_too() {
    let mods = vec![shared("a-A", false, true), shared("b-B", false, true)];
    let configs = vec![
        config("a.A.cfg", Some("a-A")),
        config("Other.cfg", Some("a-A")),
        config("b.cfg", Some("b-B")),
        config("loose.cfg", None),
    ];
    let mine = vec!["A.a.CFG".to_owned(), "b.cfg".to_owned(), "loose.cfg".to_owned()];
    let rows = friend_rows(&mods, &configs, &vec!["a-A".to_owned()], &mine);
    assert_eq!(rows[0].configs, vec!["a.A.cfg"]);
    assert!(rows[1].configs.is_empty());
}

#[test]
fn the_subtitle_counts_what_i_lack() {
    assert_eq!(subtitle(&vec![]), "Nothing shared yet");
    let mods = vec![shared("a-A", false, true), shared("b-B", false, true), shared("c-C", false, true)];
    let all = friend_rows(&mods, &vec![], &vec!["a-A".to_owned(), "b-B".to_owned(), "c-C".to_owned()], &vec![]);
    assert_eq!(subtitle(&all), "3 mods, you have all of them");
    let some = friend_rows(&mods, &vec![], &vec!["b-B".to_owned()], &vec![]);
    assert_eq!(subtitle(&some), "3 mods, you do not have 2 of them");
}

#[test]
fn notes_and_toasts() {
    assert!(matches!(row_note(true), Note::Plain));
    assert!(matches!(row_note(false), Note::Disabled));
    let change = LockChange { added: vec!["a-A".to_owned()], changed: vec![], removed: vec![], missing: vec![] };
    assert_eq!(added_text("a-A", &change), "added a-A, 1 added, 0 changed, 0 removed");
}
