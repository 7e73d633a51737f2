use blackforge::cli::{lock_change_lines, sync_report_line, table_lines};
use blackforge::commands::{
    list_note, more_line, nothing_found, outdated_rows, search_rows, shorten, split_version, Hit,
    Listed, Outdated,
};
use blackforge::mods_page::{Changed, LockChange, Missing};

fn row(cells: &[&str]) -> Vec<String> {
    cells.iter().map(|c| c.to_string()).collect()
}

#[test]
fn columns_align_left() {
    let rows = vec![row(&["mod", "version", ""]), row(&["Owner-LongName", "1.0", "pinned"])];
    assert_eq!(
        table_lines(&rows),
        vec!["mod             version".to_owned(), "Owner-LongName  1.0      pinned".to_owned()]
    );
}

#[test]
fn rows_of_other_lengths() {
    let rows = vec![row(&["a"]), row(&["bbb", "c"]), row(&[])];
    assert_eq!(table_lines(&rows), vec!["a".to_owned(), "bbb  c".to_owned(), String::new()]);
}

#[test]
fn lines_are_cut_with_dots() {
    assert_eq!(shorten("short", 70), "short");
    assert_eq!(shorten("first\r\nsecond", 70), "first");
    assert_eq!(shorten("abcdefgh", 5), "ab...");
    assert_eq!(shorten("abcdef", 2), "...");
    assert_eq!(shorten("", 3), "");
}

#[test]
fn versions_after_the_at() {
    assert_eq!(split_version("Owner-Name@1.2.3"), ("Owner-Name".to_owned(), Some("1.2.3".to_owned())));
    assert_eq!(split_version("Owner-Name"), ("Owner-Name".to_owned(), None));
    assert_eq!(split_version("a@b@c"), ("a".to_owned(), Some("b@c".to_owned())));
}

#[test]
fn a_lock_change_prints_every_move() {
    let change = LockChange {
        added: vec!["A-a-1.0.0".to_owned()],
        changed: vec![Changed { id: "B-b".to_owned(), from: "1.0.0".to_owned(), to: "1.1.0".to_owned() }],
        removed: vec!["C-c-2.0.0".to_owned()],
        missing: vec![Missing { required_by: "D-d".to_owned(), wanted: "E-e-1.0.0".to_owned() }],
    };
    assert_eq!(
        lock_change_lines(&change),
        vec![
            "  + A-a-1.0.0".to_owned(),
            "  ~ B-b 1.0.0 -> 1.1.0".to_owned(),
            "  - C-c-2.0.0".to_owned(),
            "  warning: D-d needs E-e-1.0.0, which is no longer on Thunderstore".to_owned(),
        ]
    );
    let empty = LockChange { added: vec![], changed: vec![], removed: vec![], missing: vec![] };
    assert_eq!(lock_change_lines(&empty), vec!["  the lock did not change".to_owned()]);
    assert_eq!(sync_report_line(3, 1, 40), "3 installed, 1 removed, 40 unchanged");
}

#[test]
fn outdated_and_listed_mods() {
    assert!(outdated_rows(&vec![]).is_none());
    let rows = outdated_rows(&vec![Outdated {
        id: "A-a".to_owned(),
        locked: "1.0.0".to_owned(),
        latest: "2.0.0".to_owned(),
        pinned: true,
    }])
    .unwrap();
    assert_eq!(rows[0], row(&["mod", "locked", "newest", ""]));
    assert_eq!(rows[1], row(&["A-a", "1.0.0", "2.0.0", "pinned in the manifest"]));
    assert_eq!(list_note(None), "dependency");
    assert_eq!(list_note(Some(&Listed { enabled: false, pinned: true })), "disabled");
    assert_eq!(list_note(Some(&Listed { enabled: true, pinned: true })), "pinned");
    assert_eq!(list_note(Some(&Listed { enabled: true, pinned: false })), "");
}

#[test]
fn search_lines() {
    let hits = vec![
        Hit { id: "A-a".to_owned(), version: "1.0".to_owned(), downloads: 1234, description: "x".repeat(80) },
        Hit { id: "B-b".to_owned(), version: String::new(), downloads: 0, description: "two\nlines".to_owned() },
    ];
    let rows = search_rows(&hits, 1);
    assert_eq!(rows.len(), 1);
    assert_eq!(rows[0], vec!["A-a".to_owned(), "1.0".to_owned(), "1234".to_owned(), format!("{}...", "x".repeat(67))]);
    assert_eq!(search_rows(&hits, 10)[1][3], "two");
    assert_eq!(more_line(2, 1).as_deref(), Some("1 more, narrow the search or raise --limit"));
    assert_eq!(more_line(1, 1), None);
    assert_eq!(nothing_found("zz"), "nothing on Thunderstore matches 'zz'");
}
