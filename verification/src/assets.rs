//! The interface icons are single color line art. Tinting one means putting
//! one color in place of every hex color of its SVG text.

use vstd::prelude::*;
use crate::text::{chars_of, push_char};

verus! {

/// The bytes `c` takes in UTF-8.
pub open spec fn char_len(c: char) -> nat {
    let u = c as u32;
    if u < 0x80 {
        1
    } else if u < 0x800 {
        2
    } else if u < 0x10000 {
        3
    } else {
        4
    }
}

/// The bytes `s` takes in UTF-8.
pub open spec fn utf8_len(s: Seq<char>) -> nat
    decreases s.len(),
{
    if s.len() == 0 {
        0
    } else {
        utf8_len(s.drop_last()) + char_len(s.last())
    }
}

/// Where the next `"#` starts at or after `i`, -1 when there is none.
pub open spec fn next_pair(s: Seq<char>, i: int) -> int
    decreases s.len() - i,
{
    if i < 0 || i + 1 >= s.len() {
        -1
    } else if s[i] == '"' && s[i + 1] == '#' {
        i
    } else {
        next_pair(s, i + 1)
    }
}

/// Where the next `"` is at or after `i`, the end of `s` when there is none.
pub open spec fn next_quote(s: Seq<char>, i: int) -> int
    decreases s.len() - i,
{
    if i < 0 || i >= s.len() {
        s.len() as int
    } else if s[i] == '"' {
        i
    } else {
        next_quote(s, i + 1)
    }
}

/// The text of `s` from `i` on, with every quoted value that starts with
/// `#` and takes seven bytes, a `#rrggbb` color, replaced with `hex`.
pub open spec fn recolored_from(s: Seq<char>, i: int, hex: Seq<char>) -> Seq<char>
    decreases s.len() - i,
{
    if i < 0 || i > s.len() {
        Seq::empty()
    } else {
        let start = next_pair(s, i);
        if start < i {
            s.subrange(i, s.len() as int)
        } else {
            proof {
                lemma_next_pair_bounds(s, i);
                lemma_next_quote_bounds(s, start + 1);
            }
            let end = next_quote(s, start + 1);
            let value = s.subrange(start + 1, end);
            s.subrange(i, start + 1) + (if utf8_len(value) == 7 {
                hex
            } else {
                value
            }) + recolored_from(s, end, hex)
        }
    }
}

/// `svg` with every `"#rrggbb"` attribute value replaced with `hex`.
pub open spec fn recolored(svg: Seq<char>, hex: Seq<char>) -> Seq<char> {
    recolored_from(svg, 0, hex)
}

pub proof fn lemma_next_pair_bounds(s: Seq<char>, i: int)
    ensures
        next_pair(s, i) == -1 || (i <= next_pair(s, i) && next_pair(s, i) + 1 < s.len()
            && s[next_pair(s, i)] == '"' && s[next_pair(s, i) + 1] == '#'),
    decreases s.len() - i,
{
    if !(i < 0 || i + 1 >= s.len()) && !(s[i] == '"' && s[i + 1] == '#') {
        lemma_next_pair_bounds(s, i + 1);
    }
}

pub proof fn lemma_next_quote_bounds(s: Seq<char>, i: int)
    requires
        0 <= i,
    ensures
        i <= next_quote(s, i) <= s.len() || (i > s.len() && next_quote(s, i) == s.len()),
    decreases s.len() - i,
{
    if !(i < 0 || i >= s.len()) && s[i] != '"' {
        lemma_next_quote_bounds(s, i + 1);
    }
}

/// The start of the next `"#` at or after `from`.
fn find_pair(cs: &Vec<char>, from: usize) -> (r: Option<usize>)
    requires
        from <= cs.len(),
    ensures
        match r {
            Some(at) => next_pair(cs@, from as int) == at,
            None => next_pair(cs@, from as int) == -1,
        },
{
    let mut i = from;
    while i < cs.len() && i + 1 < cs.len()
        invariant
            from <= i <= cs.len(),
            next_pair(cs@, from as int) == next_pair(cs@, i as int),
        decreases cs.len() - i,
    {
        if cs[i] == '"' && cs[i + 1] == '#' {
            return Some(i);
        }
        i = i + 1;
    }
    None
}

/// The next `"` at or after `from`, or the end.
fn find_quote(cs: &Vec<char>, from: usize) -> (r: usize)
    requires
        from <= cs.len(),
    ensures
        r == next_quote(cs@, from as int),
{
    let mut i = from;
    while i < cs.len()
        invariant
            from <= i <= cs.len(),
            next_quote(cs@, from as int) == next_quote(cs@, i as int),
        decreases cs.len() - i,
    {
        if cs[i] == '"' {
            return i;
        }
        i = i + 1;
    }
    i
}

fn char_bytes(c: char) -> (n: u128)
    ensures
        n == char_len(c),
{
    let u = c as u32;
    if u < 0x80 {
        1
    } else if u < 0x800 {
        2
    } else if u < 0x10000 {
        3
    } else {
        4
    }
}

/// Whether the characters from `a` to `b` take seven bytes.
fn seven_bytes(cs: &Vec<char>, a: usize, b: usize) -> (r: bool)
    requires
        a <= b <= cs.len(),
    ensures
        r == (utf8_len(cs@.subrange(a as int, b as int)) == 7),
{
    let mut sum: u128 = 0;
    let mut k = a;
    while k < b
        invariant
            a <= k <= b <= cs.len(),
            sum == utf8_len(cs@.subrange(a as int, k as int)),
            sum <= 4 * (k - a),
        decreases b - k,
    {
        assert(cs@.subrange(a as int, k + 1).drop_last() == cs@.subrange(a as int, k as int));
        sum = sum + char_bytes(cs[k]);
        k = k + 1;
    }
    sum == 7
}

/// Appends the characters from `a` to `b` to `out`.
pub fn push_range(out: &mut String, cs: &Vec<char>, a: usize, b: usize)
    requires
        a <= b <= cs.len(),
    ensures
        final(out)@ == old(out)@ + cs@.subrange(a as int, b as int),
{
    let mut k = a;
    while k < b
        invariant
            a <= k <= b <= cs.len(),
            out@ == old(out)@ + cs@.subrange(a as int, k as int),
        decreases b - k,
    {
        push_char(out, cs[k]);
        assert(cs@.subrange(a as int, k + 1) == cs@.subrange(a as int, k as int).push(cs@[k as int]));
        k = k + 1;
    }
}

/// Every `"#rrggbb"` attribute value of `svg` replaced with `hex`.
pub fn recolor(svg: &str, hex: &str) -> (out: String)
    ensures
        out@ == recolored(svg@, hex@),
{
    let cs = chars_of(svg);
    let mut out = String::new();
    let mut i: usize = 0;
    loop
        invariant
            i <= cs.len(),
            cs@ == svg@,
            recolored(svg@, hex@) == out@ + recolored_from(cs@, i as int, hex@),
        decreases cs.len() - i,
    {
        match find_pair(&cs, i) {
            None => {
                push_range(&mut out, &cs, i, cs.len());
                return out;
            }
            Some(start) => {
                proof {
                    lemma_next_pair_bounds(cs@, i as int);
                }
                let end = find_quote(&cs, start + 1);
                proof {
                    lemma_next_quote_bounds(cs@, start + 1);
                }
                let ghost rest = recolored_from(cs@, end as int, hex@);
                assert(recolored_from(cs@, i as int, hex@) == cs@.subrange(i as int, start + 1)
                    + (if utf8_len(cs@.subrange(start + 1, end as int)) == 7 {
                    hex@
                } else {
                    cs@.subrange(start + 1, end as int)
                }) + rest);
                push_range(&mut out, &cs, i, start + 1);
                if seven_bytes(&cs, start + 1, end) {
                    out.append(hex);
                } else {
                    push_range(&mut out, &cs, start + 1, end);
                }
                i = end;
            }
        }
    }
}

/// An SVG without a quoted `#` value comes back as it is.
pub proof fn law_no_color_no_change(svg: Seq<char>, hex: Seq<char>)
    requires
        next_pair(svg, 0) == -1,
    ensures
        recolored(svg, hex) == svg,
{
    assert(svg.subrange(0, svg.len() as int) == svg);
}

/// The name an icon drawn in the tint `hex` is kept under.
pub fn tinted_name(name: &str, hex: &str) -> (r: String)
    ensures
        r@ == name@ + ":"@ + hex@,
{
    let mut text = String::from_str(name);
    text.append(":");
    text.append(hex);
    text
}

/// The names of the interface images the executable carries, so installers
/// and updates carry one file.
pub open spec fn embedded_names() -> Seq<Seq<char>> {
    seq![
        "nav_settings.svg"@,
        "trash.svg"@,
        "open_folder.svg"@,
        "check.svg"@,
        "bug.svg"@,
        "nav_servers.svg"@,
        "nav_mods.svg"@,
        "nav_browse.svg"@,
        "nav_configs.svg"@,
        "nav_share.svg"@,
        "nav_doctor.svg"@,
        "nav_friends.svg"@,
        "open_page.svg"@,
        "pill_downloads.svg"@,
        "pill_broken.svg"@,
        "pill_dependency.svg"@,
        "pill_deprecated.svg"@,
        "pill_disabled.svg"@,
        "pill_pinned.svg"@,
        "pill_version.svg"@,
        "sync_cloud.svg"@,
        "sync_history.svg"@,
        "tab_friends.svg"@,
        "tab_search.svg"@,
    ]
}

/// The names of the embedded interface images, in the order they load.
pub fn embedded() -> (names: Vec<&'static str>)
    ensures
        names@.map_values(|n: &'static str| n@) == embedded_names(),
{
    let mut names: Vec<&'static str> = Vec::new();
    names.push("nav_settings.svg");
    names.push("trash.svg");
    names.push("open_folder.svg");
    names.push("check.svg");
    names.push("bug.svg");
    names.push("nav_servers.svg");
    names.push("nav_mods.svg");
    names.push("nav_browse.svg");
    names.push("nav_configs.svg");
    names.push("nav_share.svg");
    names.push("nav_doctor.svg");
    names.push("nav_friends.svg");
    names.push("open_page.svg");
    names.push("pill_downloads.svg");
    names.push("pill_broken.svg");
    names.push("pill_dependency.svg");
    names.push("pill_deprecated.svg");
    names.push("pill_disabled.svg");
    names.push("pill_pinned.svg");
    names.push("pill_version.svg");
    names.push("sync_cloud.svg");
    names.push("sync_history.svg");
    names.push("tab_friends.svg");
    names.push("tab_search.svg");
    assert(names@.map_values(|n: &'static str| n@) =~= embedded_names());
    names
}

} // verus!
