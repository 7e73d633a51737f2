use blackforge::commands::{
    configs_line, created_line, imported_lines, info_rows, needs_lines, profile_list,
    versions_line, Facts,
};

fn facts(deprecated: bool) -> Facts {
    Facts {
        id: "a-B".to_owned(),
        newest: Some("1.2.0".to_owned()),
        updated: "2024-01-01T00:00:00Z".to_owned(),
        downloads: 1234,
        rating: 7,
        categories: vec!["Tools".to_owned(), "Client-side".to_owned()],
        page: "https://thunderstore.io/p".to_owned(),
        website: "".to_owned(),
        deprecated,
    }
}

#[test]
fn the_info_table() {
    let rows = info_rows(&facts(false));
    assert_eq!(rows.len(), 8);
    assert_eq!(rows[0], vec!["name", "a-B"]);
    assert_eq!(rows[1], vec!["newest", "1.2.0"]);
    assert_eq!(rows[3], vec!["downloads", "1234"]);
    assert_eq!(rows[5], vec!["categories", "Tools, Client-side"]);
    assert_eq!(rows[7], vec!["website", ""]);
    let rows = info_rows(&Facts { newest: None, ..facts(true) });
    assert_eq!(rows.len(), 9);
    assert_eq!(rows[1], vec!["newest", ""]);
    assert_eq!(rows[8], vec!["status", "deprecated"]);
}

#[test]
fn versions_and_needs() {
    let versions: Vec<String> = (0..12).map(|i| format!("1.{i}")).collect();
    assert_eq!(
        versions_line(&versions),
        "versions: 1.0, 1.1, 1.2, 1.3, 1.4, 1.5, 1.6, 1.7, 1.8, 1.9"
    );
    assert_eq!(versions_line(&vec![]), "versions: ");
    assert_eq!(needs_lines(&vec!["a-B-1.0.0".to_owned()]), vec!["  a-B-1.0.0"]);
}

#[test]
fn the_profile_list() {
    assert_eq!(
        profile_list(&vec![], None),
        vec!["no profiles yet, the first 'blackforge add <mod>' or 'blackforge run' creates one"]
    );
    assert_eq!(
        profile_list(&vec!["default".to_owned(), "server".to_owned()], Some("server")),
        vec!["  default", "* server"]
    );
    assert_eq!(profile_list(&vec!["default".to_owned()], None), vec!["  default"]);
}

#[test]
fn profile_command_lines() {
    assert_eq!(created_line("srv", "/data/srv"), "created profile srv in /data/srv");
    assert_eq!(
        imported_lines("code", 40),
        (
            "imported profile code with 40 mods".to_owned(),
            "switch to it with 'blackforge profile switch code'".to_owned()
        )
    );
    assert_eq!(configs_line(3, 1), "3 configs written, 1 kept as they are at the target");
}
