//! What the Mods page and the command line say after a change of the lock
//! and after an install.

use vstd::prelude::*;
use crate::mod_pills::{ModEntry, Note, note_of, note_view};
use crate::names::{title, title_of};
use crate::text::{decimal, push_decimal};
use crate::updates::Newer;

verus! {

/// A mod that moved from one version to another.
#[derive(Debug)]
pub struct Changed {
    pub id: String,
    pub from: String,
    pub to: String,
}

/// A dependency that Thunderstore no longer has.
#[derive(Debug)]
pub struct Missing {
    pub required_by: String,
    pub wanted: String,
}

/// How a change moved the lock.
#[derive(Debug)]
pub struct LockChange {
    pub added: Vec<String>,
    pub changed: Vec<Changed>,
    pub removed: Vec<String>,
    pub missing: Vec<Missing>,
}

impl LockChange {
    /// Nothing moved and nothing is missing.
    pub open spec fn empty(&self) -> bool {
        self.added@.len() == 0 && self.changed@.len() == 0 && self.removed@.len() == 0
            && self.missing@.len() == 0
    }

    /// Nothing moved and nothing is missing.
    pub fn is_empty(&self) -> (r: bool)
        ensures
            r == self.empty(),
    {
        self.added.len() == 0 && self.changed.len() == 0 && self.removed.len() == 0
            && self.missing.len() == 0
    }
}

/// The toast of a change of the lock.
pub open spec fn lock_change_text(change: LockChange) -> Seq<char> {
    if change.empty() {
        "the lock did not change"@
    } else {
        decimal(change.added@.len()) + " added, "@ + decimal(change.changed@.len()) + " changed, "@
            + decimal(change.removed@.len()) + " removed"@ + if change.missing@.len() == 0 {
            Seq::<char>::empty()
        } else {
            ", "@ + decimal(change.missing@.len()) + " dependencies are no longer on Thunderstore"@
        }
    }
}

/// The toast of a change of the lock.
pub fn lock_change_summary(change: &LockChange) -> (text: String)
    ensures
        text@ == lock_change_text(*change),
{
    if change.is_empty() {
        return String::from_str("the lock did not change");
    }
    let mut text = String::new();
    push_decimal(&mut text, change.added.len() as u64);
    text.append(" added, ");
    push_decimal(&mut text, change.changed.len() as u64);
    text.append(" changed, ");
    push_decimal(&mut text, change.removed.len() as u64);
    text.append(" removed");
    if change.missing.len() > 0 {
        text.append(", ");
        push_decimal(&mut text, change.missing.len() as u64);
        text.append(" dependencies are no longer on Thunderstore");
    }
    text
}

/// The toast of an install.
pub open spec fn sync_text(installed: nat, removed: nat, unchanged: nat) -> Seq<char> {
    decimal(installed) + " installed, "@ + decimal(removed) + " removed, "@ + decimal(unchanged)
        + " unchanged"@
}

/// The toast of an install: what it installed, removed and left.
pub fn sync_summary(installed: u64, removed: u64, unchanged: u64) -> (text: String)
    ensures
        text@ == sync_text(installed as nat, removed as nat, unchanged as nat),
{
    let mut text = String::new();
    push_decimal(&mut text, installed);
    text.append(" installed, ");
    push_decimal(&mut text, removed);
    text.append(" removed, ");
    push_decimal(&mut text, unchanged);
    text.append(" unchanged");
    text
}

/// A locked mod as its row shows it.
#[derive(Debug)]
pub struct ModRow {
    pub id: String,
    pub version: String,
    pub note: Note,
    /// The server lists it as broken on this game version.
    pub broken: bool,
    /// The user asked for it, so it can be disabled and removed. A
    /// dependency leaves by itself when nothing needs it.
    pub direct: bool,
    pub enabled: bool,
}

/// The row of a locked mod, from its entry in the manifest, which a
/// dependency does not have.
pub fn mod_row(id: String, version: String, entry: Option<&ModEntry>, broken: bool) -> (row: ModRow)
    ensures
        row.id@ == id@,
        row.version@ == version@,
        note_view(row.note) == note_of(entry),
        row.broken == broken,
        row.direct == entry is Some,
        row.enabled == match entry {
            Some(e) => e.enabled,
            None => true,
        },
{
    let note = Note::of(entry);
    let (direct, enabled) = match entry {
        Some(e) => (true, e.enabled),
        None => (false, true),
    };
    ModRow { id, version, note, broken, direct, enabled }
}

/// The line under the title: the game, its target and how many mods the
/// lock holds.
pub fn mods_subtitle(game: &str, target: &str, count: usize) -> (r: String)
    ensures
        r@ == game@ + " "@ + target@ + ", "@ + decimal(count as nat) + " mods"@,
{
    let mut text = String::from_str(game);
    text.append(" ");
    text.append(target);
    text.append(", ");
    push_decimal(&mut text, count as u64);
    text.append(" mods");
    text
}

/// What a row says of a newer version: a pinned mod only says it is out,
/// updating it would break the match with its server; any other gets an
/// update button.
pub fn newer_texts(newer: Option<&Newer>) -> (r: (Option<String>, Option<String>))
    ensures
        match newer {
            Some(n) => if n.pinned {
                (r.0 matches Some(t) && t@ == n.version@ + " is out"@) && r.1 is None
            } else {
                r.0 is None && (r.1 matches Some(t) && t@ == "Update to "@ + n.version@)
            },
            None => r.0 is None && r.1 is None,
        },
{
    match newer {
        Some(n) => if n.pinned {
            let mut text = String::from_str(n.version.as_str());
            text.append(" is out");
            (Some(text), None)
        } else {
            let mut text = String::from_str("Update to ");
            text.append(n.version.as_str());
            (None, Some(text))
        },
        None => (None, None),
    }
}

/// The question before a mod is removed.
pub fn remove_question(id: &str) -> (r: String)
    ensures
        r@ == "Remove "@ + title_of(id@) + "?"@,
{
    let mut text = String::from_str("Remove ");
    let name = title(id);
    text.append(name.as_str());
    text.append("?");
    text
}

/// The toast after a mod was removed.
pub fn removed_text(id: &str) -> (r: String)
    ensures
        r@ == "removed "@ + id@,
{
    let mut text = String::from_str("removed ");
    text.append(id);
    text
}

/// The toast after a mod was switched on or off.
pub fn enabled_text(enabled: bool, id: &str) -> (r: String)
    ensures
        r@ == (if enabled { "enabled "@ } else { "disabled "@ }) + id@,
{
    let mut text = if enabled {
        String::from_str("enabled ")
    } else {
        String::from_str("disabled ")
    };
    text.append(id);
    text
}

} // verus!
