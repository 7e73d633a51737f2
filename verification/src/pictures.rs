//! The pictures of rows: the profile picture of a person, with the first
//! letter of the name under it, and the icon of a mod. A picture is fetched
//! once per link, and a late answer for a link no longer wanted is dropped.

use vstd::prelude::*;
use crate::text::{chars_of, push_char, same_text};

verus! {

/// What `char::to_ascii_uppercase` makes of `c`.
pub open spec fn ascii_upper(c: char) -> char {
    if 'a' <= c <= 'z' {
        ((c as u32) - 32) as char
    } else {
        c
    }
}

/// The letter under the picture: the first character of the name in upper
/// case, nothing for an empty name.
pub fn letter(username: &str) -> (r: String)
    ensures
        r@ == if username@.len() == 0 { Seq::<char>::empty() } else { seq![ascii_upper(username@[0])] },
{
    let cs = chars_of(username);
    let mut r = String::new();
    if cs.len() > 0 {
        let c = cs[0];
        let upper = if 'a' <= c && c <= 'z' {
            ((c as u32) - 32) as u8 as char
        } else {
            c
        };
        assert(upper == ascii_upper(c)) by {
            if 'a' <= c && c <= 'z' {
                assert((((c as u32) - 32) as u8) as char == ((c as u32) - 32) as char);
            }
        }
        push_char(&mut r, upper);
    }
    proof {
        reveal_strlit("");
    }
    r
}

/// The key an icon is kept under: the id and the version of its package.
pub fn icon_key(id: &str, version: &str) -> (r: String)
    ensures
        r@ == id@ + "-"@ + version@,
{
    let mut text = String::from_str(id);
    text.append("-");
    text.append(version);
    text
}

/// What a view does when a picture is asked for.
#[derive(Clone, Copy, Debug, PartialEq, Eq, Structural)]
pub enum Want {
    /// It shows that picture already, or fetches it.
    Same,
    /// No picture: the view hides the one it showed.
    Nothing,
    /// A new picture: the view hides the old one and fetches this one.
    Fetch,
}

/// The picture a view wants, the link or the key of the last one asked for.
#[derive(Debug)]
pub struct Wanted {
    pub link: String,
}

impl Wanted {
    /// The picture `link` is asked for, an empty link asks for none.
    pub fn want(&mut self, link: &str) -> (w: Want)
        ensures
            old(self).link@ == link@ ==> w == Want::Same && final(self).link@ == old(self).link@,
            old(self).link@ != link@ ==> final(self).link@ == link@ && w == if link@.len() == 0 {
                Want::Nothing
            } else {
                Want::Fetch
            },
    {
        if same_text(self.link.as_str(), link) {
            return Want::Same;
        }
        self.link = String::from_str(link);
        if link.is_empty() {
            Want::Nothing
        } else {
            Want::Fetch
        }
    }

    /// The answer for `link` arrived; it is shown only while still wanted.
    pub fn still_wanted(&self, link: &str) -> (r: bool)
        ensures
            r == (self.link@ == link@),
    {
        same_text(self.link.as_str(), link)
    }
}

} // verus!
