use blackforge::friends_page::{
    account_status, after_me, call_failed, found_look, load_state, look, name_question, primary,
    refreshes, rows, search_act, secondary, shown, subtitle, username, Act, Dot, Friend, Relation,
    Row, SearchAct, Shown, State, Tab,
};
use blackforge::toast::Kind;

#[test]
fn what_each_state_shows() {
    assert_eq!(
        shown(State::SignedOut, Tab::Friends),
        Shown { login: true, sign_out: false, name: false, tabs: false, list: false, search: false }
    );
    assert_eq!(
        shown(State::Loading, Tab::Search),
        Shown { login: false, sign_out: false, name: false, tabs: false, list: false, search: false }
    );
    assert_eq!(
        shown(State::PickName, Tab::Friends),
        Shown { login: false, sign_out: true, name: true, tabs: false, list: false, search: false }
    );
    assert_eq!(
        shown(State::Friends, Tab::Search),
        Shown { login: false, sign_out: true, name: false, tabs: true, list: false, search: true }
    );
    assert_eq!(subtitle(State::Loading), Some("loading"));
    assert_eq!(subtitle(State::SignedOut), Some("sign in to see what your friends play with"));
    assert_eq!(subtitle(State::PickName), Some("one more step, your username"));
    assert_eq!(subtitle(State::Friends), None);
}

#[test]
fn loading_the_page() {
    assert_eq!(load_state(false), State::SignedOut);
    assert_eq!(load_state(true), State::Loading);
    assert_eq!(after_me(Some("odin")), (State::Friends, Some("signed in as odin".to_owned())));
    assert_eq!(after_me(None), (State::PickName, None));
    assert!(refreshes(State::Friends));
    assert!(!refreshes(State::PickName));
}

#[test]
fn rows_requests_first() {
    let list = rows(
        vec!["in".to_owned()],
        vec![Friend { username: "pal".to_owned(), in_game: true }],
        vec!["out".to_owned()],
    );
    let names: Vec<&str> = list.iter().map(username).collect();
    assert_eq!(names, vec!["in", "pal", "out"]);
    assert!(matches!(list[0], Row::Incoming(_)));
    assert!(matches!(list[1], Row::Friend { in_game: true, .. }));
    assert!(matches!(list[2], Row::Outgoing(_)));
}

#[test]
fn the_buttons_of_a_row() {
    let incoming = Row::Incoming("in".to_owned());
    let friend = Row::Friend { username: "pal".to_owned(), in_game: false };
    let outgoing = Row::Outgoing("out".to_owned());
    assert!(matches!(primary(Some(&incoming)), Act::Accept(n) if n == "in"));
    assert!(matches!(primary(Some(&friend)), Act::OpenMods(n) if n == "pal"));
    assert!(matches!(primary(Some(&outgoing)), Act::Nothing));
    assert!(matches!(primary(None), Act::Nothing));
    assert!(matches!(secondary(Some(&incoming)), Act::Decline(n) if n == "in"));
    assert!(matches!(
        secondary(Some(&friend)),
        Act::AskUnfriend(n, q) if n == "pal" && q == "Remove pal from your friends?"
    ));
    assert!(matches!(secondary(Some(&outgoing)), Act::Cancel(n) if n == "out"));
    let l = look(&friend);
    assert_eq!((l.detail, l.dot, l.primary, l.secondary), ("not in game", Dot::Nothing, Some("Mods"), "Unfriend"));
    let l = look(&Row::Friend { username: "pal".to_owned(), in_game: true });
    assert_eq!((l.detail, l.dot), ("in game", Dot::InGame));
    let l = look(&incoming);
    assert_eq!((l.detail, l.dot, l.primary, l.secondary), ("wants to be your friend", Dot::Warn, Some("Accept"), "Decline"));
    let l = look(&outgoing);
    assert_eq!((l.detail, l.dot, l.primary, l.secondary), ("request sent, waiting for an answer", Dot::Nothing, None, "Cancel"));
}

#[test]
fn names_and_failures() {
    assert_eq!(
        name_question("odin"),
        "Your username will be odin. It cannot be changed later. Save it?"
    );
    let (state, t) = call_failed(true, "not signed in");
    assert_eq!(state, Some(State::SignedOut));
    assert_eq!((t.kind, t.text.as_str()), (Kind::Info, "the session ended, sign in again"));
    let (state, t) = call_failed(false, "timeout");
    assert_eq!(state, None);
    assert_eq!((t.kind, t.text.as_str()), (Kind::Error, "timeout"));
}

#[test]
fn found_people() {
    assert_eq!(search_act(Relation::Stranger), SearchAct::Request);
    assert_eq!(search_act(Relation::AskedMe), SearchAct::Accept);
    assert_eq!(search_act(Relation::Asked), SearchAct::TakeBack);
    assert_eq!(search_act(Relation::Friend), SearchAct::Nothing);
    assert_eq!(found_look(Relation::Stranger), ("", Some(("Add", true))));
    assert_eq!(found_look(Relation::Asked), ("Request sent, waiting for an answer", Some(("Cancel", false))));
    assert_eq!(found_look(Relation::Friend), ("Your friend", None));
}

#[test]
fn the_account_line() {
    assert_eq!(account_status(false, Some(Some("odin"))), "Not signed in");
    assert_eq!(account_status(true, None), "Signed in");
    assert_eq!(account_status(true, Some(None)), "Signed in, pick a username on the Friends page");
    assert_eq!(account_status(true, Some(Some("odin"))), "Signed in as odin");
}
