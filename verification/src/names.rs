//! Package ids made readable. `MaxGerman-Skip_Intro_Video` reads as the title
//! `Skip Intro Video` with `by MaxGerman` under it.
//!
//! A package id is `owner-name`: the name is made of ASCII letters, digits
//! and underscores, the owner of those and hyphens, and neither is empty.
//! The name starts after the last hyphen.

use vstd::prelude::*;
use crate::text::{chars_of, slice_of, string_of};

verus! {

/// A character of a package name.
pub open spec fn name_char(c: char) -> bool {
    ('a' <= c <= 'z') || ('A' <= c <= 'Z') || ('0' <= c <= '9') || c == '_'
}

/// A character of an owner.
pub open spec fn owner_char(c: char) -> bool {
    name_char(c) || c == '-'
}

/// The index of the last hyphen of `s` before `end`, -1 when there is none.
pub open spec fn last_hyphen(s: Seq<char>, end: int) -> int
    decreases end,
{
    if end <= 0 {
        -1
    } else if s[end - 1] == '-' {
        end - 1
    } else {
        last_hyphen(s, end - 1)
    }
}

/// The owner and the name of the id `s`, `None` when `s` is no id.
pub open spec fn parse_id(s: Seq<char>) -> Option<(Seq<char>, Seq<char>)> {
    let k = last_hyphen(s, s.len() as int);
    if k < 1 || k + 1 >= s.len() {
        None
    } else {
        let owner = s.take(k);
        let name = s.skip(k + 1);
        if (forall|i: int| 0 <= i < owner.len() ==> owner_char(#[trigger] owner[i])) && (forall|i: int|
            0 <= i < name.len() ==> name_char(#[trigger] name[i])) {
            Some((owner, name))
        } else {
            None
        }
    }
}

proof fn lemma_last_hyphen(s: Seq<char>, end: int)
    requires
        0 <= end <= s.len(),
    ensures
        -1 <= last_hyphen(s, end) < end,
        last_hyphen(s, end) >= 0 ==> s[last_hyphen(s, end)] == '-',
        forall|j: int| last_hyphen(s, end) < j < end ==> s[j] != '-',
    decreases end,
{
    if end > 0 && s[end - 1] != '-' {
        lemma_last_hyphen(s, end - 1);
    }
}

fn is_name_char(c: char) -> (r: bool)
    ensures
        r == name_char(c),
{
    ('a' <= c && c <= 'z') || ('A' <= c && c <= 'Z') || ('0' <= c && c <= '9') || c == '_'
}

/// The owner and the name of an id, `None` when the text is no id.
#[verifier::loop_isolation(false)]
pub fn split_id(id: &str) -> (r: Option<(Vec<char>, Vec<char>)>)
    ensures
        match (r, parse_id(id@)) {
            (Some((o, n)), Some((po, pn))) => o@ == po && n@ == pn,
            (None, None) => true,
            _ => false,
        },
{
    let cs = chars_of(id);
    let mut k = cs.len();
    while k > 0 && !(cs[k - 1] == '-')
        invariant
            k <= cs.len(),
            last_hyphen(cs@, cs.len() as int) == last_hyphen(cs@, k as int),
        decreases k,
    {
        k = k - 1;
    }
    proof {
        lemma_last_hyphen(cs@, cs.len() as int);
    }
    if k < 2 || k >= cs.len() {
        return None;
    }
    let at = k - 1;
    let owner = slice_of(&cs, 0, at);
    let name = slice_of(&cs, at + 1, cs.len());
    assert(owner@ == cs@.take(at as int));
    assert(name@ == cs@.skip(at + 1));
    let mut i: usize = 0;
    while i < owner.len()
        invariant
            i <= owner.len(),
            forall|j: int| 0 <= j < i ==> owner_char(#[trigger] owner@[j]),
        decreases owner.len() - i,
    {
        if !(is_name_char(owner[i]) || owner[i] == '-') {
            assert(!owner_char(owner@[i as int]));
            return None;
        }
        i = i + 1;
    }
    let mut i: usize = 0;
    while i < name.len()
        invariant
            i <= name.len(),
            forall|j: int| 0 <= j < i ==> name_char(#[trigger] name@[j]),
        decreases name.len() - i,
    {
        if !is_name_char(name[i]) {
            assert(!name_char(name@[i as int]));
            return None;
        }
        i = i + 1;
    }
    Some((owner, name))
}

/// `s` with every underscore made a space.
pub open spec fn spaced(s: Seq<char>) -> Seq<char> {
    s.map_values(|c: char| if c == '_' { ' ' } else { c })
}

/// The package name with spaces, or the text as it is when it is no id.
pub open spec fn title_of(id: Seq<char>) -> Seq<char> {
    match parse_id(id) {
        Some((_, name)) => spaced(name),
        None => id,
    }
}

/// `by` and the owner, empty when the text is no id.
pub open spec fn author_of(id: Seq<char>) -> Seq<char> {
    match parse_id(id) {
        Some((owner, _)) => "by "@ + owner,
        None => Seq::empty(),
    }
}

/// The package name with spaces, or the text as it is when it is no id.
pub fn title(id: &str) -> (r: String)
    ensures
        r@ == title_of(id@),
{
    match split_id(id) {
        Some((_, name)) => {
            let mut out: Vec<char> = Vec::new();
            let mut i: usize = 0;
            while i < name.len()
                invariant
                    i <= name.len(),
                    out@ == spaced(name@.take(i as int)),
                decreases name.len() - i,
            {
                let c = name[i];
                out.push(if c == '_' { ' ' } else { c });
                assert(spaced(name@.take(i + 1)) =~= spaced(name@.take(i as int)).push(if c == '_' { ' ' } else { c }));
                i = i + 1;
            }
            assert(name@.take(name.len() as int) == name@);
            string_of(&out)
        },
        None => String::from_str(id),
    }
}

/// `by MaxGerman`, empty when the text is no id.
pub fn author(id: &str) -> (r: String)
    ensures
        r@ == author_of(id@),
{
    match split_id(id) {
        Some((owner, _)) => {
            let mut text = String::from_str("by ");
            let o = string_of(&owner);
            text.append(o.as_str());
            text
        },
        None => String::new(),
    }
}

} // verus!
