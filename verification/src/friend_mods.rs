//! The mods of one friend, the ones they asked for. A dependency comes
//! along with the mod that needs it, so it is not listed. A mod both of us
//! have offers the friend's config files that I have as well.

use vstd::prelude::*;
use crate::browse::holds;
use crate::mod_pills::{Note, note_view};
use crate::mods_page::{LockChange, lock_change_summary, lock_change_text};
use crate::text::{same_text, decimal, lowercase, lowercase_of, push_decimal, views};

verus! {

/// A mod of the friend's shared profile, with what this machine knows of
/// it: whether the server lists it as broken here, and its description in
/// the package list, empty when the list does not know it.
#[derive(Debug)]
pub struct SharedMod {
    pub id: String,
    pub version: String,
    /// Off in the friend's profile.
    pub enabled: bool,
    /// Pulled in by another mod of the friend.
    pub dependency: bool,
    pub broken: bool,
    pub description: String,
}

/// A config file the friend shares, with the mod it belongs to as the
/// file name tells it, among all of the friend's mods.
#[derive(Debug)]
pub struct SharedConfig {
    pub file: String,
    pub package: Option<String>,
}

/// The row of a mod of the friend.
#[derive(Debug)]
pub struct FriendRow {
    pub id: String,
    pub version: String,
    pub enabled: bool,
    pub installed: bool,
    pub broken: bool,
    pub description: String,
    /// The friend's shared config files of this mod that I have as well.
    pub configs: Vec<String>,
}

/// A row as the contracts see it.
pub type FriendRowView = (Seq<char>, Seq<char>, bool, bool, bool, Seq<char>, Seq<Seq<char>>);

pub open spec fn friend_row_view(row: FriendRow) -> FriendRowView {
    (row.id@, row.version@, row.enabled, row.installed, row.broken, row.description@, views(row.configs@))
}

pub open spec fn friend_rows_view(rows: Seq<FriendRow>) -> Seq<FriendRowView> {
    rows.map_values(|row: FriendRow| friend_row_view(row))
}

/// The shared files of mod `id` among `configs` whose name, in lower case,
/// is one of `mine`.
pub open spec fn files_of(configs: Seq<SharedConfig>, id: Seq<char>, mine: Seq<Seq<char>>) -> Seq<Seq<char>>
    decreases configs.len(),
{
    if configs.len() == 0 {
        Seq::empty()
    } else {
        let rest = files_of(configs.drop_last(), id, mine);
        let c = configs.last();
        if mine.contains(lowercase_of(c.file@)) && (c.package matches Some(p) && p@ == id) {
            rest.push(c.file@)
        } else {
            rest
        }
    }
}

/// The row of `m`: a mod I do not have offers no files.
pub open spec fn row_of(m: SharedMod, configs: Seq<SharedConfig>, installed: Seq<Seq<char>>, mine: Seq<Seq<char>>) -> FriendRowView {
    let owned = installed.contains(m.id@);
    (
        m.id@,
        m.version@,
        m.enabled,
        owned,
        m.broken,
        m.description@,
        if owned { files_of(configs, m.id@, mine) } else { Seq::empty() },
    )
}

/// The rows of the mods the friend asked for, in the friend's order.
pub open spec fn rows_of(mods: Seq<SharedMod>, configs: Seq<SharedConfig>, installed: Seq<Seq<char>>, mine: Seq<Seq<char>>) -> Seq<FriendRowView>
    decreases mods.len(),
{
    if mods.len() == 0 {
        Seq::empty()
    } else {
        let rest = rows_of(mods.drop_last(), configs, installed, mine);
        if mods.last().dependency {
            rest
        } else {
            rest.push(row_of(mods.last(), configs, installed, mine))
        }
    }
}

/// The lower case names of `files`.
pub open spec fn lower_all(files: Seq<Seq<char>>) -> Seq<Seq<char>> {
    files.map_values(|f: Seq<char>| lowercase_of(f))
}

fn lowered(files: &Vec<String>) -> (r: Vec<String>)
    ensures
        views(r@) == lower_all(views(files@)),
{
    let mut r: Vec<String> = Vec::new();
    let mut i: usize = 0;
    while i < files.len()
        invariant
            i <= files.len(),
            views(r@) == lower_all(views(files@)).take(i as int),
        decreases files.len() - i,
    {
        let l = lowercase(files[i].as_str());
        let ghost before = r@;
        r.push(l);
        proof {
            assert(r@ == before.push(l));
            assert(views(r@) =~= views(before).push(l@));
            assert(lower_all(views(files@))[i as int] == lowercase_of(files@[i as int]@));
            assert(lower_all(views(files@)).take(i + 1) =~= lower_all(views(files@)).take(i as int).push(
                lower_all(views(files@))[i as int],
            ));
        }
        i = i + 1;
    }
    assert(lower_all(views(files@)).take(files.len() as int) =~= lower_all(views(files@)));
    r
}

fn files_for(configs: &Vec<SharedConfig>, id: &String, mine: &Vec<String>) -> (r: Vec<String>)
    ensures
        views(r@) == files_of(configs@, id@, views(mine@)),
{
    let mut r: Vec<String> = Vec::new();
    let mut j: usize = 0;
    while j < configs.len()
        invariant
            j <= configs.len(),
            views(r@) == files_of(configs@.take(j as int), id@, views(mine@)),
        decreases configs.len() - j,
    {
        assert(configs@.take(j + 1).drop_last() == configs@.take(j as int));
        let c = &configs[j];
        let lower = lowercase(c.file.as_str());
        let belongs = match &c.package {
            Some(p) => same_text(p.as_str(), id.as_str()),
            None => false,
        };
        if holds(mine, &lower) && belongs {
            let f = c.file.clone();
            let ghost before = r@;
            r.push(f);
            assert(r@ == before.push(f));
            assert(views(r@) =~= views(before).push(f@));
        }
        j = j + 1;
    }
    assert(configs@.take(configs.len() as int) == configs@);
    r
}

/// The rows of the friend's mods: every mod they asked for, whether I have
/// it, and the shared config files of it that I have too, matched without
/// case against the names of `my_configs`.
pub fn friend_rows(
    mods: &Vec<SharedMod>,
    configs: &Vec<SharedConfig>,
    installed: &Vec<String>,
    my_configs: &Vec<String>,
) -> (rows: Vec<FriendRow>)
    ensures
        friend_rows_view(rows@) == rows_of(
            mods@,
            configs@,
            views(installed@),
            lower_all(views(my_configs@)),
        ),
{
    let mine = lowered(my_configs);
    let mut rows: Vec<FriendRow> = Vec::new();
    let mut i: usize = 0;
    while i < mods.len()
        invariant
            i <= mods.len(),
            views(mine@) == lower_all(views(my_configs@)),
            friend_rows_view(rows@) == rows_of(
                mods@.take(i as int),
                configs@,
                views(installed@),
                views(mine@),
            ),
        decreases mods.len() - i,
    {
        assert(mods@.take(i + 1).drop_last() == mods@.take(i as int));
        let m = &mods[i];
        if !m.dependency {
            let owned = holds(installed, &m.id);
            let files = if owned {
                files_for(configs, &m.id, &mine)
            } else {
                Vec::new()
            };
            let row = FriendRow {
                id: m.id.clone(),
                version: m.version.clone(),
                enabled: m.enabled,
                installed: owned,
                broken: m.broken,
                description: m.description.clone(),
                configs: files,
            };
            proof {
                if !owned {
                    assert(views(row.configs@) =~= Seq::<Seq<char>>::empty());
                }
            }
            let ghost before = rows@;
            rows.push(row);
            assert(rows@ == before.push(row));
            assert(friend_rows_view(rows@) =~= friend_rows_view(before).push(friend_row_view(row)));
        }
        i = i + 1;
    }
    assert(mods@.take(mods.len() as int) == mods@);
    rows
}

/// How many rows are mods I do not have.
pub open spec fn missing_of(rows: Seq<FriendRowView>) -> nat
    decreases rows.len(),
{
    if rows.len() == 0 {
        0
    } else {
        missing_of(rows.drop_last()) + if rows.last().3 { 0nat } else { 1nat }
    }
}

/// The line under the title: how many mods, and how many of them I lack.
pub open spec fn subtitle_text(count: nat, missing: nat) -> Seq<char> {
    if count == 0 {
        "Nothing shared yet"@
    } else if missing == 0 {
        decimal(count) + " mods, you have all of them"@
    } else {
        decimal(count) + " mods, you do not have "@ + decimal(missing) + " of them"@
    }
}

/// The line under the title of the friend's mods.
pub fn subtitle(rows: &Vec<FriendRow>) -> (r: String)
    ensures
        r@ == subtitle_text(rows@.len(), missing_of(friend_rows_view(rows@))),
{
    let mut missing: usize = 0;
    let mut i: usize = 0;
    while i < rows.len()
        invariant
            i <= rows.len(),
            missing <= i,
            missing == missing_of(friend_rows_view(rows@.take(i as int))),
        decreases rows.len() - i,
    {
        assert(friend_rows_view(rows@.take(i + 1)).drop_last() =~= friend_rows_view(rows@.take(i as int)));
        if !rows[i].installed {
            missing = missing + 1;
        }
        i = i + 1;
    }
    assert(rows@.take(rows.len() as int) == rows@);
    if rows.len() == 0 {
        return String::from_str("Nothing shared yet");
    }
    let mut text = String::new();
    push_decimal(&mut text, rows.len() as u64);
    if missing == 0 {
        text.append(" mods, you have all of them");
    } else {
        text.append(" mods, you do not have ");
        push_decimal(&mut text, missing as u64);
        text.append(" of them");
    }
    text
}

/// The pill of a friend's mod: disabled when it is off in their profile.
pub fn row_note(enabled: bool) -> (n: Note)
    ensures
        note_view(n) == if enabled { (0int, Seq::<char>::empty()) } else { (4int, Seq::<char>::empty()) },
{
    if enabled {
        Note::Plain
    } else {
        Note::Disabled
    }
}

/// The toast after a mod of the friend was added to my profile.
pub fn added_text(id: &str, change: &LockChange) -> (r: String)
    ensures
        r@ == "added "@ + id@ + ", "@ + lock_change_text(*change),
{
    let mut text = String::from_str("added ");
    text.append(id);
    text.append(", ");
    let summary = lock_change_summary(change);
    text.append(summary.as_str());
    text
}

} // verus!
