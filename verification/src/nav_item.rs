//! The badge at the right edge of a sidebar entry: what waits on the page
//! behind it.

use vstd::prelude::*;
use crate::text::{decimal, decimal_string};

verus! {

/// What waits on the page behind an entry.
#[derive(Clone, Copy, Debug, PartialEq, Eq, Structural)]
pub enum Badge {
    Nothing,
    /// How many things wait, like friend requests or mod updates.
    Count(usize),
    /// Something is wrong there, like a failed Doctor check.
    Alert,
}

impl Badge {
    /// The red dot shows for an alert only.
    pub fn shows_dot(&self) -> (r: bool)
        ensures
            r == (*self == Badge::Alert),
    {
        match self {
            Badge::Alert => true,
            _ => false,
        }
    }

    /// The text of the count bubble: nothing without a count above zero,
    /// `99+` above 99.
    pub fn count_text(&self) -> (text: Option<String>)
        ensures
            match *self {
                Badge::Count(n) => if n > 0 {
                    text matches Some(t) && t@ == (if n > 99 {
                        "99+"@
                    } else {
                        decimal(n as nat)
                    })
                } else {
                    text is None
                },
                _ => text is None,
            },
    {
        match self {
            Badge::Count(n) if *n > 0 => {
                if *n > 99 {
                    Some(String::from_str("99+"))
                } else {
                    Some(decimal_string(*n as u64))
                }
            },
            _ => None,
        }
    }
}

} // verus!
