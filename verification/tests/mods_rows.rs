use blackforge::mod_info::installed_of;
use blackforge::mod_pills::{ModEntry, Note};
use blackforge::mods_page::{
    enabled_text, mod_row, mods_subtitle, newer_texts, remove_question, removed_text,
};
use blackforge::server_modal::Locked;
use blackforge::updates::Newer;

#[test]
fn rows_of_the_mods_page() {
    let entry = ModEntry { required: false, enabled: false, server: None };
    let row = mod_row("a-B".to_owned(), "1.0.0".to_owned(), Some(&entry), true);
    assert!(matches!(row.note, Note::Disabled));
    assert!(row.direct && !row.enabled && row.broken);
    let dep = mod_row("c-D".to_owned(), "2.0.0".to_owned(), None, false);
    assert!(matches!(dep.note, Note::Dependency));
    assert!(!dep.direct && dep.enabled);
    assert_eq!(mods_subtitle("Valheim", "client", 12), "Valheim client, 12 mods");
}

#[test]
fn newer_versions_on_a_row() {
    let pinned = Newer { version: "2.0.0".to_owned(), pinned: true };
    assert_eq!(newer_texts(Some(&pinned)), (Some("2.0.0 is out".to_owned()), None));
    let free = Newer { version: "2.0.0".to_owned(), pinned: false };
    assert_eq!(newer_texts(Some(&free)), (None, Some("Update to 2.0.0".to_owned())));
    assert_eq!(newer_texts(None), (None, None));
}

#[test]
fn mod_toasts() {
    assert_eq!(remove_question("MaxGerman-Skip_Intro_Video"), "Remove Skip Intro Video?");
    assert_eq!(removed_text("a-B"), "removed a-B");
    assert_eq!(enabled_text(true, "a-B"), "enabled a-B");
    assert_eq!(enabled_text(false, "a-B"), "disabled a-B");
}

#[test]
fn how_the_profile_has_a_mod() {
    let lock = vec![
        Locked { id: "a-B".to_owned(), version: "1.0.0".to_owned() },
        Locked { id: "c-D".to_owned(), version: "3.0.0".to_owned() },
    ];
    let entry = ModEntry { required: false, enabled: true, server: Some("Home".to_owned()) };
    let i = installed_of("c-D", &lock, Some(&entry)).unwrap();
    assert_eq!(i.line(), "Installed 3.0.0, pinned for Home");
    let i = installed_of("a-B", &lock, None).unwrap();
    assert_eq!(i.line(), "Installed 1.0.0, as a dependency");
    assert!(installed_of("x-Y", &lock, None).is_none());
}
