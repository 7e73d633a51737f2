//! The Configs page: the config files of the profile on the left, each
//! card named after the mod it belongs to, or after the file.

use vstd::prelude::*;
use crate::names::{title, title_of};
use crate::text::{chars_of, slice_of, string_of};

verus! {

/// `file` with every `.cfg` at its end taken off, like
/// `trim_end_matches(".cfg")`.
pub open spec fn stem_of(file: Seq<char>) -> Seq<char>
    decreases file.len(),
{
    if file.len() >= 4 && file.subrange(file.len() - 4, file.len() as int) == seq!['.', 'c', 'f', 'g'] {
        stem_of(file.take(file.len() - 4))
    } else {
        file
    }
}

/// The name of a config file without its `.cfg`.
pub fn stem(file: &str) -> (r: String)
    ensures
        r@ == stem_of(file@),
{
    let cs = chars_of(file);
    let mut end: usize = cs.len();
    assert(cs@.take(end as int) == cs@);
    while end >= 4 && cs[end - 4] == '.' && cs[end - 3] == 'c' && cs[end - 2] == 'f' && cs[end - 1] == 'g'
        invariant
            end <= cs.len(),
            cs@ == file@,
            stem_of(file@) == stem_of(cs@.take(end as int)),
        decreases end,
    {
        let ghost t = cs@.take(end as int);
        assert(t.subrange(t.len() - 4, t.len() as int) =~= seq!['.', 'c', 'f', 'g']);
        assert(t.take(t.len() - 4) =~= cs@.take(end - 4));
        end = end - 4;
    }
    let ghost t = cs@.take(end as int);
    proof {
        if t.len() >= 4 {
            assert(t.subrange(t.len() - 4, t.len() as int)[0] == cs@[end - 4]);
            assert(t.subrange(t.len() - 4, t.len() as int)[1] == cs@[end - 3]);
            assert(t.subrange(t.len() - 4, t.len() as int)[2] == cs@[end - 2]);
            assert(t.subrange(t.len() - 4, t.len() as int)[3] == cs@[end - 1]);
        }
    }
    let part = slice_of(&cs, 0, end);
    assert(part@ =~= t);
    string_of(&part)
}

/// The name on the card of a config file: the readable name of its mod,
/// or the file name without `.cfg` when no mod of the lock owns it.
pub fn card_name(file: &str, package: Option<&str>) -> (r: String)
    ensures
        r@ == match package {
            Some(id) => title_of(id@),
            None => stem_of(file@),
        },
{
    match package {
        Some(id) => title(id),
        None => stem(file),
    }
}

} // verus!
