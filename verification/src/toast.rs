//! Short messages that stack at the top of the window and leave on their
//! own, so a result never blocks the page it reports on. An error stays
//! longer, so its whole text can be read.

use vstd::prelude::*;
use crate::hint::{Fix, describe, hinted};

verus! {

/// Seconds a toast stays.
pub const LIFETIME: u32 = 4;
/// Seconds an error stays.
pub const ERROR_LIFETIME: u32 = 10;

/// The look of a toast.
#[derive(Clone, Copy, Debug, PartialEq, Eq, Structural)]
pub enum Kind {
    /// The green accent, a change went through.
    Success,
    /// The accent color, for something to know.
    Info,
    /// The red accent, something failed.
    Error,
}

impl Kind {
    /// Seconds a toast of this kind stays on screen.
    pub fn lifetime(&self) -> (s: u32)
        ensures
            s == if *self == Kind::Error { ERROR_LIFETIME } else { LIFETIME },
    {
        match self {
            Kind::Error => ERROR_LIFETIME,
            _ => LIFETIME,
        }
    }
}

/// One message to show.
#[derive(Debug)]
pub struct Toast {
    pub kind: Kind,
    pub text: String,
}

/// A change went through.
pub fn success(text: String) -> (t: Toast)
    ensures
        t.kind == Kind::Success,
        t.text@ == text@,
{
    Toast { kind: Kind::Success, text }
}

/// Something to know.
pub fn info(text: String) -> (t: Toast)
    ensures
        t.kind == Kind::Info,
        t.text@ == text@,
{
    Toast { kind: Kind::Info, text }
}

/// Something failed.
pub fn error(text: String) -> (t: Toast)
    ensures
        t.kind == Kind::Error,
        t.text@ == text@,
{
    Toast { kind: Kind::Error, text }
}

/// A failed core operation, with the way out when the core knows one.
pub fn failure(chain: &str, fix: Option<Fix>) -> (t: Toast)
    ensures
        t.kind == Kind::Error,
        t.text@ == hinted(chain@, fix),
{
    error(describe(chain, fix))
}

} // verus!
