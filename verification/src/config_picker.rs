//! The config picker: the settings of a mod that differ between me and a
//! friend, each row a pick of one side. Here are its texts and what the
//! picks add up to.

use vstd::prelude::*;
use crate::text::{decimal, push_decimal};
use crate::toast::{Kind, Toast, info, success};

verus! {

/// The side whose value a row keeps.
#[derive(Clone, Copy, Debug, PartialEq, Eq, Structural)]
pub enum Pick {
    Mine,
    Friend,
}

/// How many rows take the friend's value.
pub open spec fn friend_picks(picks: Seq<Pick>) -> nat
    decreases picks.len(),
{
    if picks.len() == 0 {
        0
    } else {
        friend_picks(picks.drop_last()) + if picks.last() == Pick::Friend {
            1nat
        } else {
            0nat
        }
    }
}

/// How many rows take the friend's value.
pub fn taken(picks: &Vec<Pick>) -> (n: usize)
    ensures
        n == friend_picks(picks@),
{
    let mut n: usize = 0;
    let mut i: usize = 0;
    while i < picks.len()
        invariant
            i <= picks.len(),
            n == friend_picks(picks@.take(i as int)),
            n <= i,
        decreases picks.len() - i,
    {
        assert(picks@.take(i + 1).drop_last() == picks@.take(i as int));
        if picks[i] == Pick::Friend {
            n = n + 1;
        }
        i = i + 1;
    }
    assert(picks@.take(picks.len() as int) == picks@);
    n
}

/// An empty value is a real value, a blank button would read as broken.
pub fn shown(value: &str) -> (r: String)
    ensures
        r@ == if value@.len() == 0 { "Empty"@ } else { value@ },
{
    if value.is_empty() {
        String::from_str("Empty")
    } else {
        String::from_str(value)
    }
}

/// The label of the apply button for `taken` values of the friend.
pub open spec fn apply_text(taken: nat) -> Seq<char> {
    if taken == 0 {
        "Apply nothing"@
    } else if taken == 1 {
        "Apply 1 value"@
    } else {
        "Apply "@ + decimal(taken) + " values"@
    }
}

/// The label of the apply button.
pub fn apply_label(taken: usize) -> (r: String)
    ensures
        r@ == apply_text(taken as nat),
{
    if taken == 0 {
        String::from_str("Apply nothing")
    } else if taken == 1 {
        String::from_str("Apply 1 value")
    } else {
        let mut text = String::from_str("Apply ");
        push_decimal(&mut text, taken as u64);
        text.append(" values");
        text
    }
}

/// The line over the rows: how many settings differ.
pub fn differ_line(lines: usize) -> (r: String)
    ensures
        r@ == decimal(lines as nat)
            + " settings differ. Tap a value to pick it, nothing of yours is lost unless you pick the other side"@,
{
    let mut text = String::new();
    push_decimal(&mut text, lines as u64);
    text.append(" settings differ. Tap a value to pick it, nothing of yours is lost unless you pick the other side");
    text
}

/// The friend's button: the value, marked when it is the default of the
/// friend's file.
pub fn friend_value(value: &str, friend_has_default: bool) -> (r: String)
    ensures
        r@ == (if value@.len() == 0 { "Empty"@ } else { value@ }) + (if friend_has_default {
            " (default)"@
        } else {
            Seq::<char>::empty()
        }),
{
    let mut text = shown(value);
    if friend_has_default {
        text.append(" (default)");
    }
    text
}

/// Nothing is copied when no row takes the friend's value: the toast says
/// so, and nothing changes.
pub fn nothing_picked(picks: &Vec<Pick>) -> (t: Option<Toast>)
    ensures
        friend_picks(picks@) == 0 ==> (t matches Some(t) && t.kind == Kind::Info && t.text@
            == "nothing was picked, nothing changed"@),
        friend_picks(picks@) > 0 ==> t is None,
{
    if taken(picks) == 0 {
        Some(info(String::from_str("nothing was picked, nothing changed")))
    } else {
        None
    }
}

/// The toast after the picks were copied into my files.
pub open spec fn copied_text(changed: nat) -> Seq<char> {
    if changed == 1 {
        "1 setting copied"@
    } else {
        decimal(changed) + " settings copied"@
    }
}

/// The toast after the picks were copied into my files.
pub fn copied(changed: usize) -> (t: Toast)
    ensures
        t.kind == Kind::Success,
        t.text@ == copied_text(changed as nat),
{
    if changed == 1 {
        success(String::from_str("1 setting copied"))
    } else {
        let mut text = String::new();
        push_decimal(&mut text, changed as u64);
        text.append(" settings copied");
        success(text)
    }
}

/// The lines of the picker: every row of every file, file by file, as the
/// index of the file and the index of the row in it. `counts` holds how
/// many rows each file has.
pub open spec fn lines_of(counts: Seq<usize>) -> Seq<(usize, usize)>
    decreases counts.len(),
{
    if counts.len() == 0 {
        Seq::empty()
    } else {
        lines_of(counts.drop_last()) + Seq::new(
            counts.last() as nat,
            |r: int| ((counts.len() - 1) as usize, r as usize),
        )
    }
}

/// The lines of the picker.
pub fn picker_lines(counts: &Vec<usize>) -> (lines: Vec<(usize, usize)>)
    ensures
        lines@ == lines_of(counts@),
{
    let mut lines: Vec<(usize, usize)> = Vec::new();
    let mut f: usize = 0;
    while f < counts.len()
        invariant
            f <= counts.len(),
            lines@ == lines_of(counts@.take(f as int)),
        decreases counts.len() - f,
    {
        let ghost done = lines@;
        let mut r: usize = 0;
        while r < counts[f]
            invariant
                f < counts.len(),
                r <= counts@[f as int],
                lines@ == done + Seq::new(r as nat, |k: int| (f, k as usize)),
            decreases counts@[f as int] - r,
        {
            lines.push((f, r));
            assert(lines@ =~= done + Seq::new((r + 1) as nat, |k: int| (f, k as usize)));
            r = r + 1;
        }
        assert(counts@.take(f + 1).drop_last() =~= counts@.take(f as int));
        assert(lines@ =~= lines_of(counts@.take(f + 1)));
        f = f + 1;
    }
    assert(counts@.take(counts.len() as int) =~= counts@);
    lines
}

/// The title of the picker: whose settings of which mod.
pub fn picker_title(mod_name: &str, friend: &str) -> (r: String)
    ensures
        r@ == mod_name@ + " settings of "@ + friend@,
{
    let mut text = String::from_str(mod_name);
    text.append(" settings of ");
    text.append(friend);
    text
}

/// Where a setting of a row is: its file and its section.
pub fn place_line(file: &str, section: &str) -> (r: String)
    ensures
        r@ == file@ + ", ["@ + section@ + "]"@,
{
    let mut text = String::from_str(file);
    text.append(", [");
    text.append(section);
    text.append("]");
    text
}

} // verus!
