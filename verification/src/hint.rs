//! How a fix that the core names is done in the window, and the text of a
//! failure with its way out.

use vstd::prelude::*;

verus! {

/// The ways out of a problem that the core knows.
#[derive(Clone, Copy, Debug, PartialEq, Eq, Structural)]
pub enum Fix {
    CreateProfile,
    PickProfile,
    GiveGameFolder,
    Sync,
    StartSteam,
}

/// The hint text of a fix, as the window words it.
pub open spec fn hint_text(fix: Fix) -> Option<Seq<char>> {
    match fix {
        Fix::GiveGameFolder => Some("press Run game to pick the folder by hand"@),
        Fix::Sync => Some("press Run game, it installs the missing files first"@),
        _ => None,
    }
}

/// The window has no profiles, it always works on the default one and makes
/// it by itself, so the two profile fixes have nothing to point at here.
/// Steam is started from the Doctor page, not from a hint.
pub fn hint(fix: Fix) -> (r: Option<&'static str>)
    ensures
        match (r, hint_text(fix)) {
            (Some(h), Some(t)) => h@ == t,
            (None, None) => true,
            _ => false,
        },
{
    match fix {
        Fix::CreateProfile | Fix::PickProfile | Fix::StartSteam => None,
        Fix::GiveGameFolder => Some("press Run game to pick the folder by hand"),
        Fix::Sync => Some("press Run game, it installs the missing files first"),
    }
}

/// What was found, followed by the way out when there is one.
pub open spec fn hinted(text: Seq<char>, fix: Option<Fix>) -> Seq<char> {
    match fix {
        Some(f) => match hint_text(f) {
            Some(h) => text + ", "@ + h,
            None => text,
        },
        None => text,
    }
}

/// What was found, followed by the way out when there is one.
pub fn with_hint(text: &str, fix: Option<Fix>) -> (r: String)
    ensures
        r@ == hinted(text@, fix),
{
    let mut r = String::from_str(text);
    if let Some(f) = fix {
        if let Some(h) = hint(f) {
            r.append(", ");
            r.append(h);
        }
    }
    r
}

/// The text of a failed operation: its whole error chain, followed by the
/// way out when the core knows one.
pub fn describe(chain: &str, fix: Option<Fix>) -> (r: String)
    ensures
        r@ == hinted(chain@, fix),
{
    with_hint(chain, fix)
}

} // verus!
