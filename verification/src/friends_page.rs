//! Friends. Signed out it is a sign in button, on the first sign in it asks
//! for a username, after that it is two tabs: the list of friends and
//! requests, and the search for new people. Here are its states, what each
//! shows, the order of the rows and what the buttons of a row do.

use vstd::prelude::*;
use crate::toast::{Kind, Toast, failure, info};

verus! {

/// Where the page is.
#[derive(Clone, Copy, Debug, PartialEq, Eq, Structural)]
pub enum State {
    Loading,
    SignedOut,
    PickName,
    Friends,
}

/// The open tab.
#[derive(Clone, Copy, Debug, PartialEq, Eq, Structural)]
pub enum Tab {
    Friends,
    Search,
}

/// What the page shows in a state.
#[derive(Clone, Copy, Debug, PartialEq, Eq, Structural)]
pub struct Shown {
    pub login: bool,
    pub sign_out: bool,
    /// The username field, its save button and its note.
    pub name: bool,
    pub tabs: bool,
    pub list: bool,
    pub search: bool,
}

/// What the page shows in `state` with `tab` open.
pub open spec fn shown_in(state: State, tab: Tab) -> Shown {
    Shown {
        login: state == State::SignedOut,
        sign_out: !(state == State::SignedOut || state == State::Loading),
        name: state == State::PickName,
        tabs: state == State::Friends,
        list: state == State::Friends && tab == Tab::Friends,
        search: state == State::Friends && tab == Tab::Search,
    }
}

/// What the page shows in `state` with `tab` open.
pub fn shown(state: State, tab: Tab) -> (s: Shown)
    ensures
        s == shown_in(state, tab),
{
    let friends = state == State::Friends;
    Shown {
        login: state == State::SignedOut,
        sign_out: !(state == State::SignedOut || state == State::Loading),
        name: state == State::PickName,
        tabs: friends,
        list: friends && tab == Tab::Friends,
        search: friends && tab == Tab::Search,
    }
}

/// The page shows one thing at a time: the sign in button and the sign
/// out button never together, the username form only outside the tabs,
/// and of the two tabs only the open one.
pub proof fn law_one_view_at_a_time(state: State, tab: Tab)
    ensures
        !(shown_in(state, tab).login && shown_in(state, tab).sign_out),
        shown_in(state, tab).name ==> !shown_in(state, tab).tabs,
        !(shown_in(state, tab).list && shown_in(state, tab).search),
        shown_in(state, tab).list || shown_in(state, tab).search <==> shown_in(state, tab).tabs,
{
}

/// The line under the title of a state; the friends state writes its own,
/// it knows the username.
pub fn subtitle(state: State) -> (r: Option<&'static str>)
    ensures
        match state {
            State::Loading => r matches Some(t) && t@ == "loading"@,
            State::SignedOut => r matches Some(t) && t@ == "sign in to see what your friends play with"@,
            State::PickName => r matches Some(t) && t@ == "one more step, your username"@,
            State::Friends => r is None,
        },
{
    match state {
        State::Loading => Some("loading"),
        State::SignedOut => Some("sign in to see what your friends play with"),
        State::PickName => Some("one more step, your username"),
        State::Friends => None,
    }
}

/// The state a load of the page starts in: signed out it stays there,
/// otherwise it asks the server who I am.
pub fn load_state(signed_in: bool) -> (s: State)
    ensures
        s == if signed_in { State::Loading } else { State::SignedOut },
{
    if signed_in {
        State::Loading
    } else {
        State::SignedOut
    }
}

/// The state after the server said who I am: an account without a
/// username picks one first. The line under the title, when there is a name.
pub fn after_me(username: Option<&str>) -> (r: (State, Option<String>))
    ensures
        match username {
            Some(name) => r.0 == State::Friends && (r.1 matches Some(t) && t@ == "signed in as "@
                + name@),
            None => r.0 == State::PickName && r.1 is None,
        },
{
    match username {
        Some(name) => {
            let mut text = String::from_str("signed in as ");
            text.append(name);
            (State::Friends, Some(text))
        },
        None => (State::PickName, None),
    }
}

/// The list is asked for again while the page is open, in the friends
/// state only; a new tab of friends shows a request sent from the search.
pub fn refreshes(state: State) -> (r: bool)
    ensures
        r == (state == State::Friends),
{
    state == State::Friends
}

/// A row of the list.
#[derive(Debug)]
pub enum Row {
    /// A request that waits for me.
    Incoming(String),
    Friend { username: String, in_game: bool },
    /// My request, waiting for an answer.
    Outgoing(String),
}

/// A row as the contracts see it: 0 for a request to me, 1 for a friend,
/// 2 for my request, then the username and whether the friend plays.
pub open spec fn row_view(row: Row) -> (int, Seq<char>, bool) {
    match row {
        Row::Incoming(name) => (0, name@, false),
        Row::Friend { username, in_game } => (1, username@, in_game),
        Row::Outgoing(name) => (2, name@, false),
    }
}

pub open spec fn rows_view(rows: Seq<Row>) -> Seq<(int, Seq<char>, bool)> {
    rows.map_values(|row: Row| row_view(row))
}

/// A friend as the server lists one.
#[derive(Debug)]
pub struct Friend {
    pub username: String,
    pub in_game: bool,
}

/// The rows of the list: the requests that wait for me first, then my
/// friends, then my requests, each in the server's order.
pub open spec fn rows_of(incoming: Seq<String>, friends: Seq<Friend>, outgoing: Seq<String>) -> Seq<(int, Seq<char>, bool)> {
    incoming.map_values(|n: String| (0int, n@, false)) + friends.map_values(
        |f: Friend| (1int, f.username@, f.in_game),
    ) + outgoing.map_values(|n: String| (2int, n@, false))
}

/// The rows of the list.
pub fn rows(incoming: Vec<String>, friends: Vec<Friend>, outgoing: Vec<String>) -> (r: Vec<Row>)
    ensures
        rows_view(r@) == rows_of(incoming@, friends@, outgoing@),
{
    let ghost first = incoming@.map_values(|n: String| (0int, n@, false));
    let ghost second = friends@.map_values(|f: Friend| (1int, f.username@, f.in_game));
    let ghost third = outgoing@.map_values(|n: String| (2int, n@, false));
    let mut r: Vec<Row> = Vec::new();
    let mut i: usize = 0;
    while i < incoming.len()
        invariant
            i <= incoming.len(),
            rows_view(r@) == first.take(i as int),
            first == incoming@.map_values(|n: String| (0int, n@, false)),
        decreases incoming.len() - i,
    {
        let row = Row::Incoming(incoming[i].clone());
        let ghost before = r@;
        r.push(row);
        assert(r@ == before.push(row));
        assert(row_view(row) == first[i as int]);
        assert(rows_view(r@) =~= rows_view(before).push(row_view(row)));
        assert(first.take(i + 1) =~= first.take(i as int).push(first[i as int]));
        i = i + 1;
    }
    assert(first.take(incoming.len() as int) =~= first);
    let mut j: usize = 0;
    while j < friends.len()
        invariant
            j <= friends.len(),
            rows_view(r@) == first + second.take(j as int),
            second == friends@.map_values(|f: Friend| (1int, f.username@, f.in_game)),
        decreases friends.len() - j,
    {
        let row = Row::Friend { username: friends[j].username.clone(), in_game: friends[j].in_game };
        let ghost before = r@;
        r.push(row);
        assert(r@ == before.push(row));
        assert(row_view(row) == second[j as int]);
        assert(rows_view(r@) =~= rows_view(before).push(row_view(row)));
        assert(second.take(j + 1) =~= second.take(j as int).push(second[j as int]));
        assert(first + second.take(j + 1) =~= (first + second.take(j as int)).push(second[j as int]));
        j = j + 1;
    }
    assert(second.take(friends.len() as int) =~= second);
    let mut k: usize = 0;
    while k < outgoing.len()
        invariant
            k <= outgoing.len(),
            rows_view(r@) == first + second + third.take(k as int),
            third == outgoing@.map_values(|n: String| (2int, n@, false)),
        decreases outgoing.len() - k,
    {
        let row = Row::Outgoing(outgoing[k].clone());
        let ghost before = r@;
        r.push(row);
        assert(r@ == before.push(row));
        assert(row_view(row) == third[k as int]);
        assert(rows_view(r@) =~= rows_view(before).push(row_view(row)));
        assert(third.take(k + 1) =~= third.take(k as int).push(third[k as int]));
        assert(first + second + third.take(k + 1) =~= (first + second + third.take(k as int)).push(
            third[k as int],
        ));
        k = k + 1;
    }
    assert(third.take(outgoing.len() as int) =~= third);
    r
}

/// The username of a row.
pub fn username(row: &Row) -> (r: &str)
    ensures
        r@ == row_view(*row).1,
{
    match row {
        Row::Incoming(name) => name.as_str(),
        Row::Friend { username, .. } => username.as_str(),
        Row::Outgoing(name) => name.as_str(),
    }
}

/// The dot on the picture of a row.
#[derive(Clone, Copy, Debug, PartialEq, Eq, Structural)]
pub enum Dot {
    /// A request waits for me.
    Warn,
    /// The friend plays.
    InGame,
    Nothing,
}

/// How a row looks: the line under the name, the dot, the label of the
/// first button when it shows, and the label of the second.
#[derive(Clone, Copy, Debug)]
pub struct Look {
    pub detail: &'static str,
    pub dot: Dot,
    pub primary: Option<&'static str>,
    pub secondary: &'static str,
}

/// How a row looks.
pub fn look(row: &Row) -> (l: Look)
    ensures
        match *row {
            Row::Incoming(_) => l.detail@ == "wants to be your friend"@ && l.dot == Dot::Warn && (
            l.primary matches Some(p) && p@ == "Accept"@) && l.secondary@ == "Decline"@,
            Row::Friend { in_game, .. } => l.detail@ == (if in_game { "in game"@ } else { "not in game"@ })
                && l.dot == (if in_game { Dot::InGame } else { Dot::Nothing }) && (l.primary matches Some(
                p,
            ) && p@ == "Mods"@) && l.secondary@ == "Unfriend"@,
            Row::Outgoing(_) => l.detail@ == "request sent, waiting for an answer"@ && l.dot
                == Dot::Nothing && l.primary is None && l.secondary@ == "Cancel"@,
        },
{
    match row {
        Row::Incoming(_) => Look {
            detail: "wants to be your friend",
            dot: Dot::Warn,
            primary: Some("Accept"),
            secondary: "Decline",
        },
        Row::Friend { in_game, .. } => Look {
            detail: if *in_game { "in game" } else { "not in game" },
            dot: if *in_game { Dot::InGame } else { Dot::Nothing },
            primary: Some("Mods"),
            secondary: "Unfriend",
        },
        Row::Outgoing(_) => Look {
            detail: "request sent, waiting for an answer",
            dot: Dot::Nothing,
            primary: None,
            secondary: "Cancel",
        },
    }
}

/// What a button of a row does.
#[derive(Debug)]
pub enum Act {
    Nothing,
    /// Accept the request of the user.
    Accept(String),
    /// Open the mods of the friend.
    OpenMods(String),
    /// Decline the request of the user.
    Decline(String),
    /// Ask whether to end the friendship, with the question; it ends it for
    /// both sides.
    AskUnfriend(String, String),
    /// Take my request back.
    Cancel(String),
}

/// What the first button of the row `row` does.
pub fn primary(row: Option<&Row>) -> (a: Act)
    ensures
        match row {
            Some(Row::Incoming(n)) => a matches Act::Accept(m) && m@ == n@,
            Some(Row::Friend { username, .. }) => a matches Act::OpenMods(m) && m@ == username@,
            _ => a is Nothing,
        },
{
    match row {
        Some(Row::Incoming(n)) => Act::Accept(n.clone()),
        Some(Row::Friend { username, .. }) => Act::OpenMods(username.clone()),
        _ => Act::Nothing,
    }
}

/// What the second button of the row `row` does. Unfriend asks first.
pub fn secondary(row: Option<&Row>) -> (a: Act)
    ensures
        match row {
            Some(Row::Incoming(n)) => a matches Act::Decline(m) && m@ == n@,
            Some(Row::Friend { username, .. }) => a matches Act::AskUnfriend(m, q) && m@ == username@
                && q@ == "Remove "@ + username@ + " from your friends?"@,
            Some(Row::Outgoing(n)) => a matches Act::Cancel(m) && m@ == n@,
            None => a is Nothing,
        },
{
    match row {
        Some(Row::Incoming(n)) => Act::Decline(n.clone()),
        Some(Row::Friend { username, .. }) => {
            let mut question = String::from_str("Remove ");
            question.append(username.as_str());
            question.append(" from your friends?");
            Act::AskUnfriend(username.clone(), question)
        },
        Some(Row::Outgoing(n)) => Act::Cancel(n.clone()),
        None => Act::Nothing,
    }
}

/// The question before a username is saved for good.
pub fn name_question(name: &str) -> (r: String)
    ensures
        r@ == "Your username will be "@ + name@ + ". It cannot be changed later. Save it?"@,
{
    let mut text = String::from_str("Your username will be ");
    text.append(name);
    text.append(". It cannot be changed later. Save it?");
    text
}

/// A call to the server failed. A session the server no longer knows is
/// forgotten and the page goes back to the sign in button; any other
/// failure is only shown.
pub fn call_failed(session_ended: bool, chain: &str) -> (r: (Option<State>, Toast))
    ensures
        session_ended ==> r.0 == Some(State::SignedOut) && r.1.kind == Kind::Info && r.1.text@
            == "the session ended, sign in again"@,
        !session_ended ==> r.0 is None && r.1.kind == Kind::Error && r.1.text@ == chain@,
{
    if session_ended {
        (Some(State::SignedOut), info(String::from_str("the session ended, sign in again")))
    } else {
        (None, failure(chain, None))
    }
}

/// What a person the search found is to me.
#[derive(Clone, Copy, Debug, PartialEq, Eq, Structural)]
pub enum Relation {
    Stranger,
    /// They asked me.
    AskedMe,
    /// I asked them.
    Asked,
    Friend,
}

/// What the button of a found person does.
#[derive(Clone, Copy, Debug, PartialEq, Eq, Structural)]
pub enum SearchAct {
    /// Send a friend request.
    Request,
    /// Accept their request.
    Accept,
    /// Take my request back.
    TakeBack,
    Nothing,
}

/// What the button of a found person does; a friend has no button.
pub fn search_act(relation: Relation) -> (a: SearchAct)
    ensures
        a == match relation {
            Relation::Stranger => SearchAct::Request,
            Relation::AskedMe => SearchAct::Accept,
            Relation::Asked => SearchAct::TakeBack,
            Relation::Friend => SearchAct::Nothing,
        },
{
    match relation {
        Relation::Stranger => SearchAct::Request,
        Relation::AskedMe => SearchAct::Accept,
        Relation::Asked => SearchAct::TakeBack,
        Relation::Friend => SearchAct::Nothing,
    }
}

/// How a found person looks: the line under the name, and the label of the
/// button with whether it is the filled one; a friend has no button.
pub fn found_look(relation: Relation) -> (r: (&'static str, Option<(&'static str, bool)>))
    ensures
        match relation {
            Relation::Stranger => r.0@ == ""@ && (r.1 matches Some((l, filled)) && l@ == "Add"@
                && filled),
            Relation::AskedMe => r.0@ == "Wants to be your friend"@ && (r.1 matches Some((l, filled))
                && l@ == "Accept"@ && filled),
            Relation::Asked => r.0@ == "Request sent, waiting for an answer"@ && (r.1 matches Some(
                (l, filled),
            ) && l@ == "Cancel"@ && !filled),
            Relation::Friend => r.0@ == "Your friend"@ && r.1 is None,
        },
{
    match relation {
        Relation::Stranger => ("", Some(("Add", true))),
        Relation::AskedMe => ("Wants to be your friend", Some(("Accept", true))),
        Relation::Asked => ("Request sent, waiting for an answer", Some(("Cancel", false))),
        Relation::Friend => ("Your friend", None),
    }
}

/// The account line of the settings: signed out, signed in while the
/// server is asked, then with the username once it answered.
pub fn account_status(signed_in: bool, me: Option<Option<&str>>) -> (r: String)
    ensures
        r@ == if !signed_in {
            "Not signed in"@
        } else {
            match me {
                None => "Signed in"@,
                Some(None) => "Signed in, pick a username on the Friends page"@,
                Some(Some(name)) => "Signed in as "@ + name@,
            }
        },
{
    if !signed_in {
        return String::from_str("Not signed in");
    }
    match me {
        None => String::from_str("Signed in"),
        Some(None) => String::from_str("Signed in, pick a username on the Friends page"),
        Some(Some(name)) => {
            let mut text = String::from_str("Signed in as ");
            text.append(name);
            text
        },
    }
}

} // verus!
