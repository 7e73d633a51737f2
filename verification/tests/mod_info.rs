use blackforge::mod_info::{
    join_texts, readable_dependency, Dependency, Installed, ModDetails, PackageInfo,
    SHOWN_NEEDS, SHOWN_VERSIONS,
};
use blackforge::mod_pills::Note;

fn dep(id: &str, version: &str) -> Dependency {
    Dependency { id: id.to_owned(), version: version.to_owned() }
}

fn package(deps: Vec<Dependency>, versions: usize, updated: &str) -> PackageInfo {
    PackageInfo {
        id: "MaxGerman-Skip_Intro_Video".to_owned(),
        newest: Some(("1.2.0".to_owned(), deps)),
        versions: (0..versions).map(|i| format!("1.{}.0", versions - i)).collect(),
        updated: updated.to_owned(),
        downloads: 1_250_000,
        rating: 42,
        categories: vec!["Client-side".to_owned(), "Tweaks".to_owned()],
        description: "Skips the intro".to_owned(),
        package_url: "https://thunderstore.io/c/valheim/p/MaxGerman/Skip_Intro_Video/".to_owned(),
        deprecated: false,
    }
}

#[test]
fn dependencies_read_as_names() {
    assert_eq!(
        readable_dependency(&dep("denikson-BepInExPack_Valheim", "5.4.2350")),
        "BepInExPack Valheim 5.4.2350, by denikson"
    );
    assert_eq!(join_texts(&vec!["a".to_owned(), "b".to_owned(), "c".to_owned()], ", "), "a, b, c");
    assert_eq!(join_texts(&vec![], ", "), "");
}

#[test]
fn the_installed_line() {
    let i = Installed { version: "1.0.0".to_owned(), note: Note::Pinned("Home".to_owned()) };
    assert_eq!(i.line(), "Installed 1.0.0, pinned for Home");
    let i = Installed { version: "2.0.0".to_owned(), note: Note::Plain };
    assert_eq!(i.line(), "Installed 2.0.0");
}

#[test]
fn the_details_of_a_package() {
    let p = package(vec![dep("denikson-BepInExPack_Valheim", "5.4.2350")], 3, "2024-01-01T00:00:00Z");
    let d = ModDetails::of_at(&p, None, None, 1_704_067_200 + 300);
    assert_eq!(d.id, "MaxGerman-Skip_Intro_Video");
    assert_eq!(d.newest, "1.2.0");
    assert_eq!(d.facts, "Newest 1.2.0, updated 5 minutes ago, 1.2M downloads, rating 42");
    assert_eq!(d.updated_at, Some(1_704_067_200));
    assert_eq!(d.categories, "Client-side, Tweaks");
    assert_eq!(d.needs, "BepInExPack Valheim 5.4.2350, by denikson");
    assert_eq!(d.versions, vec!["1.3.0", "1.2.0", "1.1.0"]);
    assert_eq!(d.broken, "");
    assert!(d.installed.is_none());
}

#[test]
fn long_lists_are_cut() {
    let deps: Vec<Dependency> = (0..8).map(|i| dep(&format!("a-m{}", i), "1.0.0")).collect();
    let p = package(deps, 14, "last week");
    let d = ModDetails::of_at(&p, Some(("0.217".to_owned(), "0.218".to_owned())), None, 0);
    assert_eq!(SHOWN_NEEDS, 6);
    assert_eq!(
        d.needs,
        "m0 1.0.0, by a\nm1 1.0.0, by a\nm2 1.0.0, by a\nm3 1.0.0, by a\nm4 1.0.0, by a\nm5 1.0.0, by a\nand 2 more"
    );
    assert_eq!(d.versions.len(), SHOWN_VERSIONS);
    assert_eq!(d.updated_at, None);
    assert_eq!(d.facts, "Newest 1.2.0, updated last week, 1.2M downloads, rating 42");
    assert_eq!(d.broken, "Broken on game version 0.217 and later, this game is on 0.218");
}

#[test]
fn nothing_needed() {
    let mut p = package(vec![], 1, "2024-01-01T00:00:00Z");
    assert_eq!(ModDetails::of(&p, None, None).needs, "Nothing");
    p.newest = None;
    let d = ModDetails::of(&p, None, Some(Installed { version: "1".to_owned(), note: Note::Dependency }));
    assert_eq!(d.needs, "Nothing");
    assert_eq!(d.newest, "");
    assert_eq!(d.installed.unwrap().line(), "Installed 1, as a dependency");
}
