//! Who may join my game servers. One list covers all of them, and I am
//! always let in without a row. A removal stops the next join of that person.

use vstd::prelude::*;
use crate::config_settings::{trim_text, trimmed};
use crate::toast::{Kind, Toast, error};

verus! {

/// The username typed to add a member, without whitespace at either end;
/// an empty one is refused with the toast that says what to type.
pub fn member_to_add(typed: &str) -> (r: Result<String, Toast>)
    ensures
        trimmed(typed@).len() == 0 <==> r is Err,
        r matches Ok(name) ==> name@ == trimmed(typed@),
        r matches Err(t) ==> t.kind == Kind::Error && t.text@ == "type the username of who may join"@,
{
    let name = trim_text(typed);
    if name.as_str().is_empty() {
        Err(error(String::from_str("type the username of who may join")))
    } else {
        Ok(name)
    }
}

/// The note over an empty list, hidden when someone may join.
pub fn members_note(count: usize) -> (r: Option<&'static str>)
    ensures
        count == 0 ==> (r matches Some(t) && t@ == "Nobody but you may join yet."@),
        count > 0 ==> r is None,
{
    if count == 0 {
        Some("Nobody but you may join yet.")
    } else {
        None
    }
}

} // verus!
