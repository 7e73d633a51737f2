//! The settings of one config file in a table: which control edits each
//! value.

use vstd::prelude::*;
use crate::text::{same_text, chars_of, eq_ignore_case, equal_ignoring_case, is_space, is_space_char, join, slice_of, string_of, views};
use crate::mod_info::join_texts;

verus! {

/// A longer list does not fit on screen as an open drop down, and a longer
/// row of pills is no quicker to read than a text field.
pub const MAX_CHOICES: usize = 12;

/// What edits the value of a setting.
#[derive(Debug)]
pub enum Control {
    Switch(bool),
    Field,
    /// One value of a short list, in the spelling of the list.
    Choice { values: Vec<String>, picked: String },
    /// Any of a short list at once, every value a pill that turns on or off.
    Pills(Vec<String>),
}

/// The values a setting accepts, as the file says.
#[derive(Debug)]
pub enum Accepted {
    /// One of a list, or any of them at once.
    Values { values: Vec<String>, multiple: bool },
    /// A number between two bounds.
    Range { min: String, max: String },
}

/// The first value of `values` that equals `value` without case.
pub open spec fn first_equal(values: Seq<Seq<char>>, value: Seq<char>) -> Option<int> {
    if exists|i: int| 0 <= i < values.len() && equal_ignoring_case(#[trigger] values[i], value) {
        Some(choose|i: int| 0 <= i < values.len() && equal_ignoring_case(#[trigger] values[i], value)
            && forall|j: int| 0 <= j < i ==> !equal_ignoring_case(#[trigger] values[j], value))
    } else {
        None
    }
}

/// The control of a setting. A value that reads as a boolean gets a switch.
/// A short list of values gets pills when any of them can be on at once, and
/// a choice when the value is one of the list; any other value stays
/// editable as text, a drop down would show another value than the file has.
#[verifier::loop_isolation(false)]
pub fn control(as_bool: Option<bool>, value: &str, accepted: Option<Accepted>) -> (c: Control)
    ensures
        match as_bool {
            Some(on) => c matches Control::Switch(o) && o == on,
            None => match accepted {
                Some(Accepted::Values { values, multiple }) => if values@.len() > MAX_CHOICES {
                    c is Field
                } else if multiple {
                    c matches Control::Pills(v) && views(v@) == views(values@)
                } else {
                    match first_equal(views(values@), value@) {
                        Some(i) => c matches Control::Choice { values: v, picked } && views(v@)
                            == views(values@) && picked@ == values@[i]@,
                        None => c is Field,
                    }
                },
                _ => c is Field,
            },
        },
{
    if let Some(on) = as_bool {
        return Control::Switch(on);
    }
    let (values, multiple) = match accepted {
        Some(Accepted::Values { values, multiple }) => (values, multiple),
        _ => return Control::Field,
    };
    if values.len() > MAX_CHOICES {
        return Control::Field;
    }
    if multiple {
        return Control::Pills(values);
    }
    let mut i: usize = 0;
    while i < values.len()
        invariant
            i <= values.len(),
            forall|j: int| 0 <= j < i ==> !equal_ignoring_case(#[trigger] views(values@)[j], value@),
        decreases values.len() - i,
    {
        if eq_ignore_case(values[i].as_str(), value) {
            let picked = values[i].clone();
            proof {
                let t = views(values@);
                assert(equal_ignoring_case(t[i as int], value@));
                assert(equal_ignoring_case(t[i as int], value@) && forall|j: int| 0 <= j < i ==> !equal_ignoring_case(#[trigger] t[j], value@));
                let k = choose|k: int| 0 <= k < t.len() && equal_ignoring_case(#[trigger] t[k], value@)
                    && forall|j: int| 0 <= j < k ==> !equal_ignoring_case(#[trigger] t[j], value@);
                if k < i {
                } else if k > i {
                    assert(!equal_ignoring_case(t[i as int], value@));
                }
                assert(k == i);
            }
            return Control::Choice { values, picked };
        }
        i = i + 1;
    }
    Control::Field
}

/// The parts of `s` between its commas, with nothing left out: a text
/// without a comma is one part.
pub open spec fn comma_parts(s: Seq<char>) -> Seq<Seq<char>>
    decreases s.len(),
{
    if s.len() == 0 {
        seq![Seq::empty()]
    } else {
        let rest = comma_parts(s.drop_last());
        if s.last() == ',' {
            rest.push(Seq::empty())
        } else {
            rest.update(rest.len() - 1, rest.last().push(s.last()))
        }
    }
}

proof fn lemma_comma_parts_nonempty(s: Seq<char>)
    ensures
        comma_parts(s).len() >= 1,
    decreases s.len(),
{
    if s.len() > 0 {
        lemma_comma_parts_nonempty(s.drop_last());
    }
}

/// `s` without whitespace at either end.
pub open spec fn trimmed(s: Seq<char>) -> Seq<char>
    decreases s.len(),
{
    if s.len() > 0 && is_space(s[0]) {
        trimmed(s.drop_first())
    } else if s.len() > 0 && is_space(s.last()) {
        trimmed(s.drop_last())
    } else {
        s
    }
}

/// The values of a list setting: the parts between commas, trimmed, the
/// empty ones left out.
pub open spec fn split_values(s: Seq<char>) -> Seq<Seq<char>> {
    comma_parts(s).map_values(|p: Seq<char>| trimmed(p)).filter(|p: Seq<char>| p.len() > 0)
}

/// `cs` without whitespace at either end.
fn trim(cs: &Vec<char>) -> (r: Vec<char>)
    ensures
        r@ == trimmed(cs@),
{
    let mut a: usize = 0;
    let mut b: usize = cs.len();
    assert(cs@.subrange(0, cs.len() as int) == cs@);
    while a < b && is_space_char(cs[a])
        invariant
            a <= b <= cs.len(),
            b == cs.len(),
            trimmed(cs@) == trimmed(cs@.subrange(a as int, b as int)),
        decreases b - a,
    {
        assert(cs@.subrange(a as int, b as int).drop_first() == cs@.subrange(a + 1, b as int));
        a = a + 1;
    }
    while a < b && is_space_char(cs[b - 1])
        invariant
            a <= b <= cs.len(),
            a == b || !is_space(cs@[a as int]),
            trimmed(cs@) == trimmed(cs@.subrange(a as int, b as int)),
        decreases b - a,
    {
        let ghost t = cs@.subrange(a as int, b as int);
        assert(t[0] == cs@[a as int]);
        assert(t.drop_last() == cs@.subrange(a as int, b - 1));
        b = b - 1;
    }
    let ghost t = cs@.subrange(a as int, b as int);
    assert(t.len() == 0 || (t[0] == cs@[a as int] && t.last() == cs@[b - 1]));
    slice_of(cs, a, b)
}

/// `s` without whitespace at either end, like `str::trim`.
pub fn trim_text(s: &str) -> (r: String)
    ensures
        r@ == trimmed(s@),
{
    let cs = chars_of(s);
    let t = trim(&cs);
    string_of(&t)
}

/// The values of a list setting, as texts.
pub fn values_of(current: &str) -> (r: Vec<String>)
    ensures
        views(r@) == split_values(current@),
{
    let cs = chars_of(current);
    let mut parts: Vec<Vec<char>> = Vec::new();
    let mut part: Vec<char> = Vec::new();
    let mut i: usize = 0;
    while i < cs.len()
        invariant
            i <= cs.len(),
            cs@ == current@,
            parts@.map_values(|p: Vec<char>| p@).push(part@) == comma_parts(cs@.take(i as int)),
        decreases cs.len() - i,
    {
        let c = cs[i];
        let ghost before = cs@.take(i as int);
        assert(cs@.take(i + 1).drop_last() == before);
        let ghost old_parts = parts@;
        let ghost old_part = part@;
        proof {
            lemma_comma_parts_nonempty(before);
        }
        if c == ',' {
            let done = part;
            parts.push(done);
            part = Vec::new();
            assert(parts@.map_values(|p: Vec<char>| p@) =~= old_parts.map_values(|p: Vec<char>| p@).push(old_part));
        } else {
            part.push(c);
            assert(old_parts.map_values(|p: Vec<char>| p@).push(part@) =~= old_parts.map_values(|p: Vec<char>| p@).push(old_part).update(
                old_parts.len() as int,
                old_part.push(c),
            ));
        }
        i = i + 1;
    }
    assert(cs@.take(cs.len() as int) == cs@);
    parts.push(part);
    let ghost all = parts@.map_values(|p: Vec<char>| p@);
    assert(all == comma_parts(current@));
    let mut out: Vec<String> = Vec::new();
    let mut k: usize = 0;
    while k < parts.len()
        invariant
            k <= parts.len(),
            all == parts@.map_values(|p: Vec<char>| p@),
            views(out@) == all.take(k as int).map_values(|p: Seq<char>| trimmed(p)).filter(|p: Seq<char>| p.len() > 0),
        decreases parts.len() - k,
    {
        let t = trim(&parts[k]);
        let ghost mapped = all.take(k + 1).map_values(|p: Seq<char>| trimmed(p));
        assert(mapped.drop_last() =~= all.take(k as int).map_values(|p: Seq<char>| trimmed(p)));
        assert(mapped.last() == t@);
        proof {
            reveal_with_fuel(Seq::filter, 1);
        }
        if t.len() > 0 {
            let ghost before = out@;
            let v = string_of(&t);
            out.push(v);
            assert(views(out@) =~= views(before).push(v@));
        }
        k = k + 1;
    }
    assert(all.take(parts.len() as int) == all);
    out
}

/// The first index of `list` equal to `value` without case.
pub open spec fn first_match(list: Seq<Seq<char>>, value: Seq<char>) -> Option<int> {
    first_equal(list, value)
}

/// The values of a pill row after a tap on `value`, as the text the file
/// keeps, the values joined by `, `. A value that is on goes off, one that
/// is off goes on at the end. The last value on cannot be turned off, the
/// mod reads an empty value as an error: `None` then.
pub open spec fn toggled(current: Seq<char>, value: Seq<char>) -> Option<Seq<char>> {
    let picked = split_values(current);
    match first_match(picked, value) {
        Some(at) => if picked.len() == 1 {
            None
        } else {
            Some(join(picked.remove(at), ", "@))
        },
        None => Some(join(picked.push(value), ", "@)),
    }
}

/// A tap on a pill that is off and a second tap on it give back the
/// values of before, in their order: the value goes on at the end, then off
/// again. This holds where the joined text reads back as those values with
/// the new one last.
pub proof fn law_on_then_off_gives_back(current: Seq<char>, value: Seq<char>)
    requires
        split_values(current).len() > 0,
        forall|i: int|
            0 <= i < split_values(current).len() ==> !equal_ignoring_case(
                #[trigger] split_values(current)[i],
                value,
            ),
        split_values(join(split_values(current).push(value), ", "@)) == split_values(current).push(
            value,
        ),
    ensures
        toggled(current, value) == Some(join(split_values(current).push(value), ", "@)),
        toggled(join(split_values(current).push(value), ", "@), value) == Some(
            join(split_values(current), ", "@),
        ),
{
    let parts = split_values(current);
    let on = parts.push(value);
    assert(first_match(parts, value) is None);
    assert(equal_ignoring_case(on[parts.len() as int], value));
    assert(forall|j: int| 0 <= j < parts.len() ==> !equal_ignoring_case(#[trigger] on[j], value)) by {
        assert forall|j: int| 0 <= j < parts.len() implies !equal_ignoring_case(#[trigger] on[j], value) by {
            assert(on[j] == parts[j]);
        }
    }
    let k = choose|k: int|
        0 <= k < on.len() && equal_ignoring_case(#[trigger] on[k], value) && forall|j: int|
            0 <= j < k ==> !equal_ignoring_case(#[trigger] on[j], value);
    assert(equal_ignoring_case(on[parts.len() as int], value) && forall|j: int|
        0 <= j < parts.len() ==> !equal_ignoring_case(#[trigger] on[j], value));
    assert(k == parts.len()) by {
        if k < parts.len() {
            assert(!equal_ignoring_case(on[k], value));
        } else if k > parts.len() {
            assert(!equal_ignoring_case(on[parts.len() as int], value));
        }
    }
    assert(first_match(on, value) == Some(parts.len() as int));
    assert(on.remove(parts.len() as int) =~= parts);
}

/// The values of a pill row after a tap on `value`.
#[verifier::loop_isolation(false)]
pub fn toggle(current: &str, value: &str) -> (r: Option<String>)
    ensures
        match (r, toggled(current@, value@)) {
            (Some(a), Some(b)) => a@ == b,
            (None, None) => true,
            _ => false,
        },
{
    let mut picked = values_of(current);
    let ghost list = views(picked@);
    let mut i: usize = 0;
    while i < picked.len()
        invariant
            i <= picked.len(),
            list == views(picked@),
            forall|j: int| 0 <= j < i ==> !equal_ignoring_case(#[trigger] list[j], value@),
        decreases picked.len() - i,
    {
        if eq_ignore_case(picked[i].as_str(), value) {
            proof {
                assert(equal_ignoring_case(list[i as int], value@));
                assert(equal_ignoring_case(list[i as int], value@) && forall|j: int| 0 <= j < i ==> !equal_ignoring_case(#[trigger] list[j], value@));
                let k = choose|k: int| 0 <= k < list.len() && equal_ignoring_case(#[trigger] list[k], value@)
                    && forall|j: int| 0 <= j < k ==> !equal_ignoring_case(#[trigger] list[j], value@);
                if k < i {
                } else if k > i {
                    assert(!equal_ignoring_case(list[i as int], value@));
                }
                assert(k == i);
            }
            if picked.len() == 1 {
                return None;
            }
            picked.remove(i);
            assert(views(picked@) =~= list.remove(i as int));
            return Some(join_texts(&picked, ", "));
        }
        i = i + 1;
    }
    let ghost before = picked@;
    picked.push(String::from_str(value));
    assert(views(picked@) =~= list.push(value@));
    Some(join_texts(&picked, ", "))
}

/// Why a value cannot be saved, `None` when it can: a number outside the
/// range of its setting. `allowed` is whether the range takes the value.
pub fn refusal(accepted: &Option<Accepted>, allowed: bool) -> (r: Option<String>)
    ensures
        match accepted {
            Some(Accepted::Range { min, max }) => if allowed {
                r is None
            } else {
                r matches Some(note) && note@ == "Must be from "@ + min@ + " to "@ + max@
            },
            _ => r is None,
        },
{
    match accepted {
        Some(Accepted::Range { min, max }) => if allowed {
            None
        } else {
            let mut note = String::from_str("Must be from ");
            note.append(min.as_str());
            note.append(" to ");
            note.append(max.as_str());
            Some(note)
        },
        _ => None,
    }
}

/// A value outside the range of its row, with the note that says so. The
/// field keeps the typed text, the file keeps the old value.
#[derive(Debug)]
pub struct Refused {
    pub index: usize,
    pub text: String,
    pub note: String,
}

/// What a save of a value does to the file.
#[derive(Debug, PartialEq, Eq, Structural)]
pub enum Save {
    /// Refused, the note shows under the field.
    Refuse,
    /// The file has the value already.
    Same,
    /// The value is written to the file.
    Write,
}

/// The panel of one config file, as far as saving goes.
#[derive(Debug)]
pub struct Editor {
    pub refused: Option<Refused>,
}

impl Editor {
    /// The value `value` was entered in the row `index`, whose value in the
    /// file is `current`; `refusal` says why it cannot be saved. A refused
    /// value is kept with its note; a value that goes through clears the
    /// note of its row. The flag is whether the table redraws.
    pub fn save(&mut self, index: usize, current: &str, value: String, refusal: Option<String>) -> (r: (Save, bool))
        ensures
            match refusal {
                Some(note) => r == (Save::Refuse, true) && (final(self).refused matches Some(f) && f.index
                    == index && f.text@ == value@ && f.note@ == note@),
                None => {
                    let was = old(self).refused matches Some(f) && f.index == index;
                    &&& r.0 == if current@ == value@ { Save::Same } else { Save::Write }
                    &&& r.1 == was
                    &&& was ==> final(self).refused is None
                    &&& !was ==> final(self).refused == old(self).refused
                },
            },
    {
        if let Some(note) = refusal {
            self.refused = Some(Refused { index, text: value, note });
            return (Save::Refuse, true);
        }
        let was = match &self.refused {
            Some(f) => f.index == index,
            None => false,
        };
        if was {
            self.refused = None;
        }
        if same_text(current, value.as_str()) {
            (Save::Same, was)
        } else {
            (Save::Write, was)
        }
    }

    /// The refused text and its note of row `index`, if it has them.
    pub fn refused_at(&self, index: usize) -> (r: Option<(&str, &str)>)
        ensures
            match self.refused {
                Some(f) => if f.index == index {
                    r matches Some((t, n)) && t@ == f.text@ && n@ == f.note@
                } else {
                    r is None
                },
                None => r is None,
            },
    {
        match &self.refused {
            Some(f) => if f.index == index {
                Some((f.text.as_str(), f.note.as_str()))
            } else {
                None
            },
            None => None,
        }
    }
}

/// What the log says of a saved value.
pub fn saved_line(section: &str, key: &str, value: &str) -> (r: String)
    ensures
        r@ == section@ + "."@ + key@ + " = "@ + value@,
{
    let mut text = String::from_str(section);
    text.append(".");
    text.append(key);
    text.append(" = ");
    text.append(value);
    text
}

/// A pill is on when the value of its setting names its value, letters
/// compared without case.
pub open spec fn pill_on(value: Seq<char>, current: Seq<char>) -> bool {
    exists|i: int| 0 <= i < split_values(current).len() && equal_ignoring_case(
        #[trigger] split_values(current)[i],
        value,
    )
}

/// Which pills of a row are on, one flag per value of the list.
pub fn pills_on(values: &Vec<String>, current: &str) -> (on: Vec<bool>)
    ensures
        on@.len() == values@.len(),
        forall|k: int| 0 <= k < values@.len() ==> on@[k] == pill_on(#[trigger] values@[k]@, current@),
{
    let picked = values_of(current);
    let ghost list = views(picked@);
    let mut on: Vec<bool> = Vec::new();
    let mut k: usize = 0;
    while k < values.len()
        invariant
            k <= values.len(),
            on@.len() == k,
            list == views(picked@),
            list == split_values(current@),
            forall|q: int| 0 <= q < k ==> on@[q] == pill_on(#[trigger] values@[q]@, current@),
        decreases values.len() - k,
    {
        let mut found = false;
        let mut i: usize = 0;
        while i < picked.len()
            invariant
                i <= picked.len(),
                k < values.len(),
                list == views(picked@),
                list == split_values(current@),
                !found ==> forall|j: int| 0 <= j < i ==> !equal_ignoring_case(#[trigger] list[j], values@[k as int]@),
                found ==> pill_on(values@[k as int]@, current@),
            decreases picked.len() - i,
        {
            if eq_ignore_case(picked[i].as_str(), values[k].as_str()) {
                assert(list[i as int] == picked@[i as int]@);
                found = true;
            }
            i = i + 1;
        }
        proof {
            if !found {
                assert forall|j: int| 0 <= j < split_values(current@).len() implies !equal_ignoring_case(
                    #[trigger] split_values(current@)[j],
                    values@[k as int]@,
                ) by {
                    assert(list[j] == split_values(current@)[j]);
                }
            }
        }
        on.push(found);
        k = k + 1;
    }
    on
}

/// The line under the description of a setting that names a default.
pub fn default_line(default: &str) -> (r: String)
    ensures
        r@ == "Default: "@ + default@,
{
    let mut text = String::from_str("Default: ");
    text.append(default);
    text
}


/// A setting is marked changed when its value differs from the default the
/// file names, letters compared without case. A setting with no default is
/// never marked, there is nothing to go back to.
pub fn setting_changed(default: Option<&str>, value: &str) -> (r: bool)
    ensures
        r == match default {
            Some(d) => !equal_ignoring_case(d@, value@),
            None => false,
        },
{
    match default {
        Some(d) => !eq_ignore_case(d, value),
        None => false,
    }
}

} // verus!
