//! The texts of the command line commands: the first line of a description
//! cut to a width, and how a mod is named on the command line.

use vstd::prelude::*;
use crate::mod_info::{SHOWN_VERSIONS, join_texts};
use crate::text::{join, chars_of, decimal, decimal_string, find_char, lemma_next_of, next_of, push_decimal, slice_of, string_of, views};

verus! {

/// The first line of `s`, as `lines().next()` gives it: up to the first
/// `\n`, without the `\r` of a `\r\n`. Empty when `s` is.
pub open spec fn first_line(s: Seq<char>) -> Seq<char> {
    let end = next_of(s, 0, '\n');
    if end < s.len() && end > 0 && s[end - 1] == '\r' {
        s.take(end - 1)
    } else {
        s.take(end)
    }
}

/// The first line of `text`, cut to `max` characters with `...` at the end
/// when it is longer.
pub open spec fn shortened(text: Seq<char>, max: nat) -> Seq<char> {
    let line = first_line(text);
    if line.len() <= max {
        line
    } else {
        line.take(if max >= 3 { max - 3 } else { 0 }) + seq!['.', '.', '.']
    }
}

/// The first line of `text` in at most `max` characters and the three dots
/// of a cut, for a table column.
pub fn shorten(text: &str, max: usize) -> (r: String)
    ensures
        r@ == shortened(text@, max as nat),
{
    let cs = chars_of(text);
    let end = find_char(&cs, 0, '\n');
    proof {
        lemma_next_of(cs@, 0, '\n');
    }
    let stop = if end < cs.len() && end > 0 && cs[end - 1] == '\r' {
        end - 1
    } else {
        end
    };
    let line = slice_of(&cs, 0, stop);
    assert(line@ == first_line(text@));
    if line.len() <= max {
        return string_of(&line);
    }
    let keep = if max >= 3 { max - 3 } else { 0 };
    let mut cut = slice_of(&line, 0, keep);
    cut.push('.');
    cut.push('.');
    cut.push('.');
    assert(cut@ == line@.take(keep as int) + seq!['.', '.', '.']);
    string_of(&cut)
}

/// `Owner-Name@1.2.3` names a version, without `@` the mod follows the
/// newest: the name and the version text after the first `@`.
pub open spec fn version_split(spec: Seq<char>) -> (Seq<char>, Option<Seq<char>>) {
    let at = next_of(spec, 0, '@');
    if at < spec.len() {
        (spec.take(at), Some(spec.skip(at + 1)))
    } else {
        (spec, None)
    }
}

/// The mod name of a command line argument and the version it asks for, if
/// any.
pub fn split_version(spec: &str) -> (r: (String, Option<String>))
    ensures
        r.0@ == version_split(spec@).0,
        match (r.1, version_split(spec@).1) {
            (Some(v), Some(w)) => v@ == w,
            (None, None) => true,
            _ => false,
        },
{
    let cs = chars_of(spec);
    let at = find_char(&cs, 0, '@');
    proof {
        lemma_next_of(cs@, 0, '@');
    }
    if at < cs.len() {
        let name = slice_of(&cs, 0, at);
        let version = slice_of(&cs, at + 1, cs.len());
        (string_of(&name), Some(string_of(&version)))
    } else {
        assert(cs@.take(cs.len() as int) == cs@);
        (string_of(&cs), None)
    }
}


/// A locked mod that has a newer version.
#[derive(Debug)]
pub struct Outdated {
    pub id: String,
    pub locked: String,
    pub latest: String,
    pub pinned: bool,
}

/// The row of one outdated mod.
pub open spec fn outdated_row(e: Outdated) -> Seq<Seq<char>> {
    seq![e.id@, e.locked@, e.latest@, if e.pinned { "pinned in the manifest"@ } else { Seq::empty() }]
}

/// The table of the outdated mods under its header, `None` when every mod
/// is on its newest version.
pub fn outdated_rows(outdated: &Vec<Outdated>) -> (rows: Option<Vec<Vec<String>>>)
    ensures
        outdated@.len() == 0 ==> rows is None,
        outdated@.len() > 0 ==> (rows matches Some(r) && r@.len() == outdated@.len() + 1 && views(
            r@[0]@,
        ) == seq!["mod"@, "locked"@, "newest"@, Seq::<char>::empty()] && forall|i: int|
            0 <= i < outdated@.len() ==> #[trigger] views(r@[i + 1]@) == outdated_row(outdated@[i])),
{
    if outdated.len() == 0 {
        return None;
    }
    let mut rows: Vec<Vec<String>> = Vec::new();
    let mut header: Vec<String> = Vec::new();
    header.push(String::from_str("mod"));
    header.push(String::from_str("locked"));
    header.push(String::from_str("newest"));
    header.push(String::new());
    assert(views(header@) =~= seq!["mod"@, "locked"@, "newest"@, Seq::<char>::empty()]);
    rows.push(header);
    let mut i: usize = 0;
    while i < outdated.len()
        invariant
            i <= outdated.len(),
            rows@.len() == i + 1,
            views(rows@[0]@) == seq!["mod"@, "locked"@, "newest"@, Seq::<char>::empty()],
            forall|j: int| 0 <= j < i ==> #[trigger] views(rows@[j + 1]@) == outdated_row(outdated@[j]),
        decreases outdated.len() - i,
    {
        let e = &outdated[i];
        let mut row: Vec<String> = Vec::new();
        row.push(e.id.clone());
        row.push(e.locked.clone());
        row.push(e.latest.clone());
        row.push(if e.pinned { String::from_str("pinned in the manifest") } else { String::new() });
        assert(views(row@) =~= outdated_row(*e));
        rows.push(row);
        i = i + 1;
    }
    Some(rows)
}

/// How the manifest names a locked mod, for the list.
#[derive(Debug)]
pub struct Listed {
    pub enabled: bool,
    /// Held at a version, not following the newest.
    pub pinned: bool,
}

/// The note of a locked mod in the list: a mod the manifest does not name
/// is there for another mod.
pub fn list_note(listed: Option<&Listed>) -> (note: &'static str)
    ensures
        note@ == match listed {
            Some(l) => if !l.enabled {
                "disabled"@
            } else if l.pinned {
                "pinned"@
            } else {
                Seq::empty()
            },
            None => "dependency"@,
        },
{
    proof {
        reveal_strlit("");
    }
    match listed {
        Some(l) => if !l.enabled {
            "disabled"
        } else if l.pinned {
            "pinned"
        } else {
            ""
        },
        None => "dependency",
    }
}

/// The search found nothing.
pub fn nothing_found(query: &str) -> (r: String)
    ensures
        r@ == "nothing on Thunderstore matches '"@ + query@ + "'"@,
{
    let mut r = String::from_str("nothing on Thunderstore matches '");
    r.append(query);
    r.append("'");
    r
}

/// The line after a search that showed `limit` of `hits`, `None` when all
/// showed.
pub fn more_line(hits: usize, limit: usize) -> (r: Option<String>)
    ensures
        hits <= limit ==> r is None,
        hits > limit ==> (r matches Some(t) && t@ == decimal((hits - limit) as nat)
            + " more, narrow the search or raise --limit"@),
{
    if hits <= limit {
        return None;
    }
    let mut t = String::new();
    push_decimal(&mut t, (hits - limit) as u64);
    t.append(" more, narrow the search or raise --limit");
    Some(t)
}

/// A package the search found, as the command line lists it.
#[derive(Debug)]
pub struct Hit {
    pub id: String,
    /// The newest version, empty when there is none.
    pub version: String,
    pub downloads: u64,
    pub description: String,
}

/// Descriptions are cut to this many characters in the table.
pub const DESCRIPTION_WIDTH: usize = 70;

/// The row of a found package.
pub open spec fn hit_row(h: Hit) -> Seq<Seq<char>> {
    seq![h.id@, h.version@, decimal(h.downloads as nat), shortened(h.description@, DESCRIPTION_WIDTH as nat)]
}

/// The rows of a search, the first `limit` hits.
pub fn search_rows(hits: &Vec<Hit>, limit: usize) -> (rows: Vec<Vec<String>>)
    ensures
        rows@.len() == if hits@.len() < limit { hits@.len() } else { limit as nat },
        forall|i: int| 0 <= i < rows@.len() ==> #[trigger] views(rows@[i]@) == hit_row(hits@[i]),
{
    let count = if hits.len() < limit { hits.len() } else { limit };
    let mut rows: Vec<Vec<String>> = Vec::new();
    let mut i: usize = 0;
    while i < count
        invariant
            i <= count <= hits.len(),
            rows@.len() == i,
            forall|j: int| 0 <= j < i ==> #[trigger] views(rows@[j]@) == hit_row(hits@[j]),
        decreases count - i,
    {
        let h = &hits[i];
        let mut row: Vec<String> = Vec::new();
        row.push(h.id.clone());
        row.push(h.version.clone());
        row.push(decimal_string(h.downloads));
        row.push(shorten(h.description.as_str(), DESCRIPTION_WIDTH));
        assert(views(row@) =~= hit_row(*h));
        rows.push(row);
        i = i + 1;
    }
    rows
}

/// A shortened line never takes more than `max` characters, once `max`
/// leaves room for the three dots.
pub proof fn law_shortened_fits(text: Seq<char>, max: nat)
    requires
        max >= 3,
    ensures
        shortened(text, max).len() <= max,
{
    crate::text::lemma_next_of(text, 0, '\n');
}

/// What `info` shows of a package.
#[derive(Debug)]
pub struct Facts {
    pub id: String,
    /// The version of the newest release.
    pub newest: Option<String>,
    pub updated: String,
    pub downloads: u64,
    pub rating: u64,
    pub categories: Vec<String>,
    pub page: String,
    pub website: String,
    pub deprecated: bool,
}

/// The table of `info`: a name and a value on each row, the status only
/// for a deprecated package.
pub open spec fn info_table(f: Facts) -> Seq<Seq<Seq<char>>> {
    seq![
        seq!["name"@, f.id@],
        seq!["newest"@, match f.newest { Some(v) => v@, None => Seq::empty() }],
        seq!["updated"@, f.updated@],
        seq!["downloads"@, decimal(f.downloads as nat)],
        seq!["rating"@, decimal(f.rating as nat)],
        seq!["categories"@, join(views(f.categories@), ", "@)],
        seq!["page"@, f.page@],
        seq!["website"@, f.website@],
    ] + if f.deprecated { seq![seq!["status"@, "deprecated"@]] } else { Seq::empty() }
}

fn pair(name: &str, value: String) -> (row: Vec<String>)
    ensures
        views(row@) == seq![name@, value@],
{
    let mut row: Vec<String> = Vec::new();
    row.push(String::from_str(name));
    row.push(value);
    assert(views(row@) =~= seq![name@, value@]);
    row
}

/// The rows of `info` for a package.
pub fn info_rows(f: &Facts) -> (rows: Vec<Vec<String>>)
    ensures
        rows@.map_values(|r: Vec<String>| views(r@)) == info_table(*f),
{
    let newest = match &f.newest {
        Some(v) => v.clone(),
        None => String::new(),
    };
    let r0 = pair("name", f.id.clone());
    let r1 = pair("newest", newest);
    let r2 = pair("updated", f.updated.clone());
    let r3 = pair("downloads", decimal_string(f.downloads));
    let r4 = pair("rating", decimal_string(f.rating));
    let r5 = pair("categories", join_texts(&f.categories, ", "));
    let r6 = pair("page", f.page.clone());
    let r7 = pair("website", f.website.clone());
    let mut rows: Vec<Vec<String>> = vec![r0, r1, r2, r3, r4, r5, r6, r7];
    assert(rows@ == seq![r0, r1, r2, r3, r4, r5, r6, r7]);
    if f.deprecated {
        let r8 = pair("status", String::from_str("deprecated"));
        rows.push(r8);
        assert(rows@ == seq![r0, r1, r2, r3, r4, r5, r6, r7, r8]);
    }
    proof {
        let table = info_table(*f);
        let shown = rows@.map_values(|r: Vec<String>| views(r@));
        assert(shown.len() == table.len());
        assert forall|i: int| 0 <= i < table.len() implies #[trigger] shown[i] == table[i] by {
            assert(shown[i] == views(rows@[i]@));
        }
        assert(shown =~= table);
    }
    rows
}

/// The versions line of `info`: the newest `SHOWN_VERSIONS` releases.
pub fn versions_line(versions: &Vec<String>) -> (r: String)
    ensures
        r@ == "versions: "@ + join(
            views(versions@).take(
                if versions@.len() < SHOWN_VERSIONS { versions@.len() as int } else { SHOWN_VERSIONS as int },
            ),
            ", "@,
        ),
{
    let count = if versions.len() < SHOWN_VERSIONS { versions.len() } else { SHOWN_VERSIONS };
    let mut shown: Vec<String> = Vec::new();
    let mut i: usize = 0;
    while i < count
        invariant
            i <= count <= versions.len(),
            views(shown@) == views(versions@).take(i as int),
        decreases count - i,
    {
        let v = versions[i].clone();
        let ghost before = shown@;
        shown.push(v);
        assert(shown@ == before.push(v));
        assert(views(shown@) =~= views(before).push(v@));
        assert(views(versions@).take(i + 1) =~= views(versions@).take(i as int).push(versions@[i as int]@));
        i = i + 1;
    }
    let mut r = String::from_str("versions: ");
    let list = join_texts(&shown, ", ");
    r.append(list.as_str());
    r
}

/// The lines under `needs:` in `info`, one dependency each, indented.
pub fn needs_lines(dependencies: &Vec<String>) -> (lines: Vec<String>)
    ensures
        views(lines@) == views(dependencies@).map_values(|d: Seq<char>| "  "@ + d),
{
    let mut lines: Vec<String> = Vec::new();
    let mut i: usize = 0;
    while i < dependencies.len()
        invariant
            i <= dependencies.len(),
            views(lines@) == views(dependencies@).take(i as int).map_values(|d: Seq<char>| "  "@ + d),
        decreases dependencies.len() - i,
    {
        let mut line = String::from_str("  ");
        line.append(dependencies[i].as_str());
        let ghost before = lines@;
        lines.push(line);
        assert(lines@ == before.push(line));
        assert(views(lines@) =~= views(before).push(line@));
        assert(views(dependencies@).take(i + 1) =~= views(dependencies@).take(i as int).push(
            dependencies@[i as int]@,
        ));
        assert(views(dependencies@).take(i + 1).map_values(|d: Seq<char>| "  "@ + d) =~= views(
            dependencies@,
        ).take(i as int).map_values(|d: Seq<char>| "  "@ + d).push("  "@ + dependencies@[i as int]@));
        i = i + 1;
    }
    assert(views(dependencies@).take(dependencies.len() as int) =~= views(dependencies@));
    lines
}

/// The line of `profile list` for one profile, the active one starred.
pub open spec fn profile_line(name: Seq<char>, active: Option<Seq<char>>) -> Seq<char> {
    (if active == Some(name) { "*"@ } else { " "@ }) + " "@ + name
}

/// The lines of `profile list`: every profile, or a note when there is none.
pub open spec fn profile_list_text(names: Seq<Seq<char>>, active: Option<Seq<char>>) -> Seq<Seq<char>> {
    if names.len() == 0 {
        seq!["no profiles yet, the first 'blackforge add <mod>' or 'blackforge run' creates one"@]
    } else {
        names.map_values(|n: Seq<char>| profile_line(n, active))
    }
}

/// The lines of `profile list`.
pub fn profile_list(names: &Vec<String>, active: Option<&str>) -> (lines: Vec<String>)
    ensures
        views(lines@) == profile_list_text(
            views(names@),
            match active {
                Some(a) => Some(a@),
                None => None,
            },
        ),
{
    let ghost act = match active {
        Some(a) => Some(a@),
        None => None::<Seq<char>>,
    };
    let mut lines: Vec<String> = Vec::new();
    if names.len() == 0 {
        lines.push(String::from_str(
            "no profiles yet, the first 'blackforge add <mod>' or 'blackforge run' creates one",
        ));
        assert(views(lines@) =~= profile_list_text(views(names@), act));
        return lines;
    }
    let mut i: usize = 0;
    while i < names.len()
        invariant
            i <= names.len(),
            views(lines@) == views(names@).take(i as int).map_values(|n: Seq<char>| profile_line(n, act)),
            act == match active {
                Some(a) => Some(a@),
                None => None::<Seq<char>>,
            },
        decreases names.len() - i,
    {
        let starred = match active {
            Some(a) => crate::text::same_text(a, names[i].as_str()),
            None => false,
        };
        let mut line = if starred { String::from_str("* ") } else { String::from_str("  ") };
        line.append(names[i].as_str());
        proof {
            reveal_strlit("* ");
            reveal_strlit("  ");
            reveal_strlit("*");
            reveal_strlit(" ");
            assert(line@ == profile_line(names@[i as int]@, act));
        }
        let ghost before = lines@;
        lines.push(line);
        assert(lines@ == before.push(line));
        assert(views(lines@) =~= views(before).push(line@));
        assert(views(names@).take(i + 1) =~= views(names@).take(i as int).push(names@[i as int]@));
        assert(views(names@).take(i + 1).map_values(|n: Seq<char>| profile_line(n, act)) =~= views(
            names@,
        ).take(i as int).map_values(|n: Seq<char>| profile_line(n, act)).push(profile_line(names@[i as int]@, act)));
        i = i + 1;
    }
    assert(views(names@).take(names.len() as int) =~= views(names@));
    lines
}

/// What `profile create` says.
pub fn created_line(name: &str, dir: &str) -> (r: String)
    ensures
        r@ == "created profile "@ + name@ + " in "@ + dir@,
{
    let mut text = String::from_str("created profile ");
    text.append(name);
    text.append(" in ");
    text.append(dir);
    text
}

/// What `import` says of the imported profile, and how to switch to it.
pub fn imported_lines(name: &str, mods: usize) -> (r: (String, String))
    ensures
        r.0@ == "imported profile "@ + name@ + " with "@ + decimal(mods as nat) + " mods"@,
        r.1@ == "switch to it with 'blackforge profile switch "@ + name@ + "'"@,
{
    let mut first = String::from_str("imported profile ");
    first.append(name);
    first.append(" with ");
    push_decimal(&mut first, mods as u64);
    first.append(" mods");
    let mut second = String::from_str("switch to it with 'blackforge profile switch ");
    second.append(name);
    second.append("'");
    (first, second)
}

/// What `deploy` says of the config files.
pub fn configs_line(written: usize, kept: usize) -> (r: String)
    ensures
        r@ == decimal(written as nat) + " configs written, "@ + decimal(kept as nat)
            + " kept as they are at the target"@,
{
    let mut text = String::new();
    push_decimal(&mut text, written as u64);
    text.append(" configs written, ");
    push_decimal(&mut text, kept as u64);
    text.append(" kept as they are at the target");
    text
}

} // verus!
