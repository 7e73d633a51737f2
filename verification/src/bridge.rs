//! The local door the join plugin knocks on, for the rules of a server at the
//! click on a join button and for a code at Start in character select. A
//! request must carry the key this app gave the game at its start. Here are
//! the decisions of the door: which requests get in, and what each one is
//! answered.

use vstd::prelude::*;
use crate::text::{chars_of, slice_of, string_of};
use base64::Engine;
use vstd::string::StringSliceAdditionalSpecFns;

verus! {

/// The header that carries the key of the game start.
pub const KEY_HEADER: &'static str = "X-Blackforge-Key";
pub const RULES_PATH: &'static str = "/rules/";
pub const JOIN_PATH: &'static str = "/join/";
pub const REPORT_PATH: &'static str = "/report";
/// Reports the server did not take wait in the data folder, the newest ones.
pub const KEEP_REPORTS: usize = 50;
pub const SIGN_IN: &'static str = "Sign in to Blackforge to join";
pub const UNREACHABLE: &'static str = "Blackforge is not reachable, try again later";
pub const STARTED_AGAIN: &'static str = "Blackforge started Valheim again after this game opened, so this game cannot join. Close Valheim and press Play in Blackforge.";
pub const APP_RESTARTED: &'static str = "Blackforge was restarted after this game opened, so this game cannot join. Close Valheim and press Play in Blackforge.";

/// Compares two byte strings with `constant_time_eq::constant_time_eq`,
/// which is assumed to say whether they are equal; it takes the same time
/// for any two strings of one length.
#[verifier::external_body]
fn bytes_equal(a: &[u8], b: &[u8]) -> (r: bool)
    ensures
        r == (a@ == b@),
{
    constant_time_eq::constant_time_eq(a, b)
}

/// The error of `getrandom`.
#[verifier::external_type_specification]
#[verifier::external_body]
pub struct ExRandomError(getrandom::Error);

/// Fills `bytes` with `getrandom::fill` from the random source of the
/// system. Nothing is assumed of the bytes or of when it fails.
#[verifier::external_body]
fn fill_random(bytes: &mut [u8; 32]) -> Result<(), getrandom::Error> {
    getrandom::fill(bytes)
}

/// The character of the six bits `v` in the URL safe base64 alphabet:
/// `A`-`Z`, `a`-`z`, `0`-`9`, then `-` and `_`.
pub open spec fn url_char(v: nat) -> char {
    if v < 26 {
        (65 + v) as char
    } else if v < 52 {
        (97 + v - 26) as char
    } else if v < 62 {
        (48 + v - 52) as char
    } else if v == 62 {
        '-'
    } else {
        '_'
    }
}

/// URL safe base64 of `bytes` without padding, as `base64`'s
/// `URL_SAFE_NO_PAD` engine writes it: every three bytes become four
/// characters of six bits each, and the one or two bytes left over become
/// two or three characters, the last one filled up with zero bits.
pub open spec fn base64_url(bytes: Seq<u8>) -> Seq<char>
    decreases bytes.len(),
{
    if bytes.len() == 0 {
        Seq::empty()
    } else if bytes.len() == 1 {
        seq![url_char(bytes[0] as nat / 4), url_char((bytes[0] as nat % 4) * 16)]
    } else if bytes.len() == 2 {
        seq![
            url_char(bytes[0] as nat / 4),
            url_char((bytes[0] as nat % 4) * 16 + bytes[1] as nat / 16),
            url_char((bytes[1] as nat % 16) * 4),
        ]
    } else {
        seq![
            url_char(bytes[0] as nat / 4),
            url_char((bytes[0] as nat % 4) * 16 + bytes[1] as nat / 16),
            url_char((bytes[1] as nat % 16) * 4 + bytes[2] as nat / 64),
            url_char(bytes[2] as nat % 64),
        ] + base64_url(bytes.subrange(3, bytes.len() as int))
    }
}

/// The length of the base64 text of `n` bytes without padding.
pub open spec fn base64_len(n: nat) -> nat {
    (n / 3) * 4 + if n % 3 == 0 {
        0nat
    } else {
        n % 3 + 1
    }
}

/// The base64 text of `bytes` is `base64_len` characters long.
pub proof fn lemma_base64_len(bytes: Seq<u8>)
    ensures
        base64_url(bytes).len() == base64_len(bytes.len()),
    decreases bytes.len(),
{
    if bytes.len() >= 3 {
        let rest = bytes.subrange(3, bytes.len() as int);
        lemma_base64_len(rest);
        assert(base64_len(bytes.len()) == base64_len(rest.len()) + 4) by {
            assert(bytes.len() == rest.len() + 3);
        }
    }
}

/// Encodes `bytes` with `Engine::encode` of
/// `base64::engine::general_purpose::URL_SAFE_NO_PAD`, which is assumed to
/// give `base64_url` of them. The length must fit in a `usize`, the engine
/// panics otherwise.
#[verifier::external_body]
fn encode_url_safe(bytes: &[u8]) -> (s: String)
    requires
        bytes@.len() * 4 <= usize::MAX,
    ensures
        s@ == base64_url(bytes@),
{
    base64::engine::general_purpose::URL_SAFE_NO_PAD.encode(bytes)
}

/// What the plugin asks for.
#[derive(Clone, Copy, Debug, PartialEq, Eq, Structural)]
pub enum Door {
    /// At the click on a join button, the member check and the rules.
    Rules,
    /// At Start in character select, the one time code.
    Join,
}

/// Why a key is refused, in words the player can act on. `None` lets the
/// request in.
pub open spec fn refusal(lock_ok: bool, stored: Option<Seq<u8>>, sent: Option<Seq<u8>>) -> Option<Seq<char>> {
    if !lock_ok {
        Some(UNREACHABLE@)
    } else {
        match stored {
            None => Some(APP_RESTARTED@),
            Some(key) => if sent == Some(key) {
                None
            } else {
                Some(STARTED_AGAIN@)
            },
        }
    }
}

/// Why a key is refused. `lock_ok` is false when the lock of the key broke,
/// `stored` is the key of the last game start, `sent` the value of the key
/// header of the request. No key means this run of the app never started
/// the game; a wrong one is from an older start.
pub fn key_refusal(lock_ok: bool, stored: Option<&str>, sent: Option<&[u8]>) -> (r: Option<&'static str>)
    ensures
        match (r, refusal(
            lock_ok,
            match stored {
                Some(k) => Some(k.spec_bytes()),
                None => None,
            },
            match sent {
                Some(b) => Some(b@),
                None => None,
            },
        )) {
            (Some(a), Some(b)) => a@ == b,
            (None, None) => true,
            _ => false,
        },
{
    if !lock_ok {
        return Some(UNREACHABLE);
    }
    let key = match stored {
        None => return Some(APP_RESTARTED),
        Some(key) => key,
    };
    let matches = match sent {
        Some(value) => bytes_equal(value, key.as_bytes()),
        None => false,
    };
    if matches {
        None
    } else {
        Some(STARTED_AGAIN)
    }
}

/// `text` without `prefix` at its start, when it starts with it.
pub open spec fn strip_prefix(text: Seq<char>, prefix: Seq<char>) -> Option<Seq<char>> {
    if prefix.len() <= text.len() && text.take(prefix.len() as int) == prefix {
        Some(text.skip(prefix.len() as int))
    } else {
        None
    }
}

/// `text` without `prefix`, when it starts with it.
pub fn strip(text: &str, prefix: &str) -> (r: Option<String>)
    ensures
        match (r, strip_prefix(text@, prefix@)) {
            (Some(a), Some(b)) => a@ == b,
            (None, None) => true,
            _ => false,
        },
{
    let t = chars_of(text);
    let p = chars_of(prefix);
    if p.len() > t.len() {
        return None;
    }
    let mut i: usize = 0;
    while i < p.len()
        invariant
            i <= p.len() <= t.len(),
            t@ == text@,
            p@ == prefix@,
            forall|j: int| 0 <= j < i ==> t@[j] == p@[j],
        decreases p.len() - i,
    {
        if !(t[i] == p[i]) {
            assert(t@.take(p.len() as int)[i as int] != p@[i as int]);
            return None;
        }
        i = i + 1;
    }
    assert(t@.take(p.len() as int) =~= p@);
    let rest = slice_of(&t, p.len(), t.len());
    assert(rest@ =~= t@.skip(p.len() as int));
    Some(string_of(&rest))
}

/// Where a request of the plugin goes.
#[derive(Debug)]
pub enum Route {
    /// Answered at once with a status and a text.
    Answer(u16, String),
    /// Asks the backend at `door` for the server `server_id`.
    Ask(Door, String),
}

/// The route of a request as the contracts see it.
pub open spec fn route_of(
    is_post: bool,
    url: Seq<char>,
    refused: Option<Seq<char>>,
    signed_in: bool,
) -> (u16, Seq<char>, Option<(Door, Seq<char>)>) {
    if !is_post {
        (405, "only POST"@, None)
    } else {
        let door = match strip_prefix(url, RULES_PATH@) {
            Some(id) => Some((Door::Rules, id)),
            None => match strip_prefix(url, JOIN_PATH@) {
                Some(id) => Some((Door::Join, id)),
                None => None,
            },
        };
        match door {
            None => (404, "no such door"@, None),
            Some(asked) => match refused {
                Some(words) => (403, words, None),
                None => if !signed_in {
                    (401, SIGN_IN@, None)
                } else {
                    (200, Seq::empty(), Some(asked))
                },
            },
        }
    }
}

/// Where a request to a door goes: the method, the door of the path, the
/// key, and the account decide, in this order. `refused` is what
/// `key_refusal` says of the key of the request.
pub fn route(is_post: bool, url: &str, refused: Option<&str>, signed_in: bool) -> (r: Route)
    ensures
        ({
            let (status, text, asked) = route_of(
                is_post,
                url@,
                match refused {
                    Some(w) => Some(w@),
                    None => None,
                },
                signed_in,
            );
            match r {
                Route::Answer(s, t) => asked is None && s == status && t@ == text,
                Route::Ask(door, id) => asked == Some((door, id@)),
            }
        }),
{
    if !is_post {
        return Route::Answer(405, String::from_str("only POST"));
    }
    let (door, id) = match strip(url, RULES_PATH) {
        Some(id) => (Door::Rules, id),
        None => match strip(url, JOIN_PATH) {
            Some(id) => (Door::Join, id),
            None => return Route::Answer(404, String::from_str("no such door")),
        },
    };
    if let Some(words) = refused {
        return Route::Answer(403, String::from_str(words));
    }
    if !signed_in {
        return Route::Answer(401, String::from_str(SIGN_IN));
    }
    Route::Ask(door, id)
}

/// How the backend answered a door.
#[derive(Debug)]
pub enum Asked {
    /// No client could be made for the signed in account.
    NoClient,
    /// The rules or the code, as JSON.
    Answered(String),
    /// The session ended.
    NotSignedIn,
    /// The server refused, in its own words.
    Refused(String),
    /// Any other failure.
    Failed,
}

/// The status and the text the plugin shows for what the backend answered.
/// A 200 carries the JSON of the backend.
pub fn reply(asked: Asked) -> (r: (u16, String))
    ensures
        match asked {
            Asked::NoClient => r.0 == 500 && r.1@ == UNREACHABLE@,
            Asked::Answered(text) => r.0 == 200 && r.1@ == text@,
            Asked::NotSignedIn => r.0 == 401 && r.1@ == SIGN_IN@,
            Asked::Refused(words) => r.0 == 403 && r.1@ == words@,
            Asked::Failed => r.0 == 502 && r.1@ == UNREACHABLE@,
        },
{
    match asked {
        Asked::NoClient => (500, String::from_str(UNREACHABLE)),
        Asked::Answered(text) => (200, text),
        Asked::NotSignedIn => (401, String::from_str(SIGN_IN)),
        Asked::Refused(words) => (403, words),
        Asked::Failed => (502, String::from_str(UNREACHABLE)),
    }
}

/// The path of a request goes to the report door.
pub fn is_report(url: &str) -> (r: bool)
    ensures
        r == (url@ == REPORT_PATH@),
{
    crate::text::same_text(url, REPORT_PATH)
}

/// Only a refusal logs its text: a 200 of a join door carries the code.
pub fn logs_text(status: u16) -> (r: bool)
    ensures
        r == (status >= 300),
{
    status >= 300
}

/// How a report of the game went at the door.
#[derive(Debug)]
pub enum Report {
    /// The request was not a POST.
    NotPost,
    /// The body did not read or was no report, with the reason.
    Unreadable(String),
    /// The report was taken and is sent in the background.
    Taken,
    /// The background send did not start.
    NotStarted,
}

/// The answer to a report. A report skips the key check: a game with a
/// stale key is one of the failures worth a report.
pub fn report_reply(report: Report) -> (r: (u16, String))
    ensures
        match report {
            Report::NotPost => r.0 == 405 && r.1@ == "only POST"@,
            Report::Unreadable(why) => r.0 == 400 && r.1@ == "no report: "@ + why@,
            Report::Taken => r.0 == 202 && r.1@ == "taken"@,
            Report::NotStarted => r.0 == 500 && r.1@ == UNREACHABLE@,
        },
{
    match report {
        Report::NotPost => (405, String::from_str("only POST")),
        Report::Unreadable(why) => {
            let mut text = String::from_str("no report: ");
            text.append(why.as_str());
            (400, text)
        },
        Report::Taken => (202, String::from_str("taken")),
        Report::NotStarted => (500, String::from_str(UNREACHABLE)),
    }
}

/// How many of `kept` reports, oldest first, go before a new one is kept,
/// so the newest `KEEP_REPORTS` wait with the new one among them.
pub fn reports_to_drop(kept: usize) -> (n: usize)
    ensures
        n == if kept > KEEP_REPORTS - 1 { kept - (KEEP_REPORTS - 1) } else { 0 },
        kept - n <= KEEP_REPORTS - 1,
{
    if kept > KEEP_REPORTS - 1 {
        kept - (KEEP_REPORTS - 1)
    } else {
        0
    }
}

/// The key of the last game start.
#[derive(Debug)]
pub struct Keys {
    /// None before the first start of the game in this run of the app.
    pub key: Option<String>,
}

/// The random source gave no bytes.
#[derive(Debug, PartialEq, Eq, Structural)]
pub enum KeyError {
    NoRandom,
}

impl Keys {
    /// A new key for a new start of the game. The key of the start before
    /// stops working.
    pub fn new_key(&mut self) -> (r: Result<String, KeyError>)
        ensures
            match r {
                Ok(key) => final(self).key matches Some(k) && k@ == key@ && key@.len() == 43
                    && exists|bytes: Seq<u8>| bytes.len() == 32 && key@ == base64_url(bytes),
                Err(_) => final(self).key == old(self).key,
            },
    {
        let mut bytes = [0u8; 32];
        match fill_random(&mut bytes) {
            Ok(()) => {},
            Err(_) => return Err(KeyError::NoRandom),
        }
        let key = encode_url_safe(bytes.as_slice());
        proof {
            lemma_base64_len(bytes@);
        }
        assert(base64_len(32) == 43);
        self.key = Some(key.clone());
        Ok(key)
    }
}

/// A request reaches the backend only with the key of the last game start:
/// the lock of the key holds, a key was given, and the request sent exactly
/// it. Without an account it never does.
pub proof fn law_only_the_key_gets_in(
    is_post: bool,
    url: Seq<char>,
    lock_ok: bool,
    stored: Option<Seq<u8>>,
    sent: Option<Seq<u8>>,
    signed_in: bool,
)
    ensures
        route_of(is_post, url, refusal(lock_ok, stored, sent), signed_in).2 is Some ==> lock_ok
            && stored is Some && sent == stored && signed_in && is_post,
{
}

/// A request that is no POST, or goes to no door, is never asked of the
/// backend, whatever key it carries.
pub proof fn law_doors_only(is_post: bool, url: Seq<char>, refused: Option<Seq<char>>, signed_in: bool)
    requires
        !is_post || (strip_prefix(url, RULES_PATH@) is None && strip_prefix(url, JOIN_PATH@) is None),
    ensures
        route_of(is_post, url, refused, signed_in).2 is None,
{
}

/// The method, the door, the key and the account decide, in this order: a
/// request that is no POST gets 405 and one to no door 404, whatever key and
/// account it comes with; a refused key gets 403 with the words of the
/// refusal whatever the account; only an accepted key without an account
/// gets 401; and a signed in request with an accepted key is asked of the
/// backend at its door.
pub proof fn law_method_door_key_account_in_order(
    is_post: bool,
    url: Seq<char>,
    refused: Option<Seq<char>>,
    signed_in: bool,
)
    ensures
        !is_post ==> route_of(is_post, url, refused, signed_in) == (405u16, "only POST"@, None::<(Door, Seq<char>)>),
        is_post && strip_prefix(url, RULES_PATH@) is None && strip_prefix(url, JOIN_PATH@) is None
            ==> route_of(is_post, url, refused, signed_in) == (404u16, "no such door"@, None::<(Door, Seq<char>)>),
        is_post && (strip_prefix(url, RULES_PATH@) is Some || strip_prefix(url, JOIN_PATH@) is Some) ==> {
            &&& refused matches Some(words) ==> route_of(is_post, url, refused, signed_in) == (
                403u16,
                words,
                None::<(Door, Seq<char>)>,
            )
            &&& refused is None && !signed_in ==> route_of(is_post, url, refused, signed_in) == (
                401u16,
                SIGN_IN@,
                None::<(Door, Seq<char>)>,
            )
            &&& refused is None && signed_in ==> route_of(is_post, url, refused, signed_in).0 == 200
                && route_of(is_post, url, refused, signed_in).2 == Some(
                match strip_prefix(url, RULES_PATH@) {
                    Some(id) => (Door::Rules, id),
                    None => (Door::Join, strip_prefix(url, JOIN_PATH@)->0),
                },
            )
        },
        refused is Some ==> route_of(is_post, url, refused, true) == route_of(is_post, url, refused, false),
{
}

/// A new start of the game makes the key of the start before stop working:
/// once `new` is the stored key, a request that sends an `old`, other key
/// is refused as one of a game that was started again.
pub proof fn law_a_new_start_retires_the_old_key(old: Seq<u8>, new: Seq<u8>)
    requires
        old != new,
    ensures
        refusal(true, Some(new), Some(old)) == Some(STARTED_AGAIN@),
        refusal(true, Some(new), Some(new)) is None,
{
}

} // verus!
