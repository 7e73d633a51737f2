use blackforge::servers_page::{
    chip_text, delete_question, install_title, installed_text, is_mine, more_text, owner_line,
    register_refusal, removed_text,
};
use blackforge::toast::Kind;

#[test]
fn server_rows() {
    assert_eq!(owner_line("odin", 12, 1000, 1300), "By odin, 12 mods, updated 5 minutes ago");
    assert_eq!(chip_text("denikson-BepInExPack_Valheim", "5.4.2333"), "BepInExPack Valheim 5.4.2333");
    assert_eq!(more_text(5), "+5 more");
    assert!(is_mine(Some("odin"), "odin"));
    assert!(!is_mine(Some("thor"), "odin"));
    assert!(!is_mine(None, "odin"));
}

#[test]
fn server_actions() {
    assert!(register_refusal(true).is_none());
    let t = register_refusal(false).unwrap();
    assert_eq!((t.kind, t.text.as_str()), (Kind::Info, "sign in on the Friends page to register a server"));
    assert_eq!(delete_question("Home"), "Remove Home from the list? The mods of nobody change.");
    assert_eq!(removed_text("Home"), "Home is removed");
    assert_eq!(install_title("Home"), "installing the mods of Home");
    assert_eq!(installed_text("Home", 1, 0, 0, 3), "Home: 1 mods added, 3 files installed");
    assert_eq!(installed_text("Home", 0, 0, 0, 3), "Home: you had everything already");
}
