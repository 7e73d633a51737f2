//! The revisions of the cloud setup, newest first. The one installed now is
//! marked, any other can be restored: it becomes the newest revision on
//! every machine.

use vstd::prelude::*;
use crate::text::{push_signed, signed_decimal};
use crate::time::{ago_at, elapsed, time_ago};

verus! {

/// A revision of the history.
#[derive(Debug)]
pub struct HistoryRow {
    pub revision: i64,
    /// Seconds since the Unix epoch.
    pub created: i64,
    pub machine: String,
    pub restored_from: Option<i64>,
    /// This machine installed it; a side kept from a conflict was not.
    pub applied: bool,
    pub summary: String,
}

/// The revision installed now: the first applied one of the list, 0 when
/// there is none.
pub open spec fn head_of(rows: Seq<HistoryRow>) -> i64
    decreases rows.len(),
{
    if rows.len() == 0 {
        0
    } else if rows[0].applied {
        rows[0].revision
    } else {
        head_of(rows.drop_first())
    }
}

/// The revision installed now.
pub fn head(rows: &Vec<HistoryRow>) -> (r: i64)
    ensures
        r == head_of(rows@),
{
    let mut i: usize = 0;
    assert(rows@.skip(0) == rows@);
    while i < rows.len()
        invariant
            i <= rows.len(),
            head_of(rows@) == head_of(rows@.skip(i as int)),
        decreases rows.len() - i,
    {
        assert(rows@.skip(i as int)[0] == rows@[i as int]);
        if rows[i].applied {
            return rows[i].revision;
        }
        assert(rows@.skip(i as int).drop_first() == rows@.skip(i + 1));
        i = i + 1;
    }
    0
}

/// Whether a row shows the mark of the installed revision, and whether it
/// shows the restore button: one or the other.
pub fn marks(revision: i64, head: i64) -> (r: (bool, bool))
    ensures
        r == (revision == head, revision != head),
{
    (revision == head, revision != head)
}

/// The question before a restore, at the time `now`.
pub fn restore_question(revision: i64, created: i64, now: i64) -> (r: String)
    ensures
        r@ == "Restore revision "@ + signed_decimal(revision as int) + ", saved "@ + time_ago(
            elapsed(now, created),
        ) + "? It becomes the newest setup on every machine."@,
{
    let mut text = String::from_str("Restore revision ");
    push_signed(&mut text, revision);
    text.append(", saved ");
    let ago = ago_at(now, created);
    text.append(ago.as_str());
    text.append("? It becomes the newest setup on every machine.");
    text
}

/// The toast after a restore.
pub fn restored_text(revision: i64) -> (r: String)
    ensures
        r@ == "Revision "@ + signed_decimal(revision as int) + " is restored, it installs now."@,
{
    let mut text = String::from_str("Revision ");
    push_signed(&mut text, revision);
    text.append(" is restored, it installs now.");
    text
}

/// The note over an empty history, hidden when there are revisions.
pub fn history_note(count: usize) -> (r: Option<&'static str>)
    ensures
        count == 0 ==> (r matches Some(t) && t@ == "Nothing is saved yet."@),
        count > 0 ==> r is None,
{
    if count == 0 {
        Some("Nothing is saved yet.")
    } else {
        None
    }
}

} // verus!
