//! Newer versions of the locked mods. The app looks for them at start and
//! when the user asks, and keeps the answer for the session, so the Mods page
//! and the sidebar badge show it on any page.

use vstd::prelude::*;
use crate::nav_item::Badge;
use crate::text::{decimal, decimal_string, same_text};
use crate::toast::{Kind, Toast, info, success};

verus! {

/// A newer version of a locked mod.
#[derive(Debug)]
pub struct Newer {
    pub version: String,
    /// Held at its version, so update all leaves it and the row offers no
    /// update of its own.
    pub pinned: bool,
}

impl Clone for Newer {
    fn clone(&self) -> (r: Self)
        ensures
            r.version@ == self.version@,
            r.pinned == self.pinned,
    {
        Newer { version: self.version.clone(), pinned: self.pinned }
    }
}

/// One mod that has a newer version: its id and the version.
#[derive(Debug)]
pub struct Entry {
    pub id: String,
    pub newer: Newer,
}

impl Clone for Entry {
    fn clone(&self) -> (r: Self)
        ensures
            r.id@ == self.id@,
            r.newer.version@ == self.newer.version@,
            r.newer.pinned == self.newer.pinned,
    {
        Entry { id: self.id.clone(), newer: self.newer.clone() }
    }
}

/// What the check for newer versions knows.
#[derive(Debug)]
pub struct Updates {
    /// When the last check ended, seconds since the epoch. `None` before the
    /// first one, `newest` is only complete after it.
    pub checked: Option<i64>,
    /// A check runs now.
    pub checking: bool,
    /// The newest version of every locked mod that has one, one entry per id.
    pub newest: Vec<Entry>,
}

/// A newer version as the contracts see it: the version and whether it is
/// pinned.
pub type NewerView = (Seq<char>, bool);

/// The newest versions by id, a later entry for an id over an earlier one.
pub open spec fn newest_map(s: Seq<Entry>) -> Map<Seq<char>, NewerView>
    decreases s.len(),
{
    if s.len() == 0 {
        Map::empty()
    } else {
        newest_map(s.drop_last()).insert(s.last().id@, (s.last().newer.version@, s.last().newer.pinned))
    }
}

/// No id is named twice.
pub open spec fn unique_ids(s: Seq<Entry>) -> bool {
    forall|i: int, j: int| 0 <= i < j < s.len() ==> s[i].id@ != s[j].id@
}

/// How many entries update all would move.
pub open spec fn unpinned(s: Seq<Entry>) -> nat
    decreases s.len(),
{
    if s.len() == 0 {
        0
    } else {
        unpinned(s.drop_last()) + if s.last().newer.pinned {
            0nat
        } else {
            1nat
        }
    }
}

/// With unique ids, the map has exactly the ids of the entries, with
/// their versions.
pub proof fn lemma_newest_map(s: Seq<Entry>)
    requires
        unique_ids(s),
    ensures
        forall|k: Seq<char>|
            #[trigger] newest_map(s).contains_key(k) <==> exists|i: int| 0 <= i < s.len() && s[i].id@ == k,
        forall|i: int|
            0 <= i < s.len() ==> #[trigger] newest_map(s)[s[i].id@] == (s[i].newer.version@, s[i].newer.pinned),
        newest_map(s).len() == s.len(),
        newest_map(s).dom().finite(),
    decreases s.len(),
{
    if s.len() > 0 {
        let d = s.drop_last();
        assert(unique_ids(d));
        lemma_newest_map(d);
        assert forall|k: Seq<char>| #[trigger] newest_map(s).contains_key(k) <==> exists|i: int| 0 <= i < s.len() && s[i].id@ == k by {
            if newest_map(s).contains_key(k) && k != s.last().id@ {
                let i = choose|i: int| 0 <= i < d.len() && d[i].id@ == k;
                assert(s[i].id@ == k);
            }
            if exists|i: int| 0 <= i < s.len() && s[i].id@ == k {
                let i = choose|i: int| 0 <= i < s.len() && s[i].id@ == k;
                if i < d.len() {
                    assert(d[i].id@ == k);
                }
            }
        }
        assert forall|i: int| 0 <= i < s.len() implies #[trigger] newest_map(s)[s[i].id@] == (s[i].newer.version@, s[i].newer.pinned) by {
            if i < d.len() {
                assert(d[i].id@ == s[i].id@);
                assert(s[i].id@ != s.last().id@);
            }
        }
        assert(!newest_map(d).contains_key(s.last().id@)) by {
            if newest_map(d).contains_key(s.last().id@) {
                let i = choose|i: int| 0 <= i < d.len() && d[i].id@ == s.last().id@;
                assert(s[i].id@ == s[s.len() - 1].id@);
            }
        }
    }
}

proof fn lemma_unpinned_bound(s: Seq<Entry>)
    ensures
        unpinned(s) <= s.len(),
    decreases s.len(),
{
    if s.len() > 0 {
        lemma_unpinned_bound(s.drop_last());
    }
}

impl Updates {
    /// The newest versions by id.
    pub open spec fn map(&self) -> Map<Seq<char>, NewerView> {
        newest_map(self.newest@)
    }

    /// Every id has one entry.
    pub open spec fn well_formed(&self) -> bool {
        unique_ids(self.newest@)
    }

    /// Nothing known yet, no check ran.
    pub fn new() -> (u: Self)
        ensures
            u.well_formed(),
            u.checked is None,
            !u.checking,
            u.newest@.len() == 0,
    {
        Updates { checked: None, checking: false, newest: Vec::new() }
    }

    /// The mods update all would move, pinned ones left out.
    pub fn movable(&self) -> (n: usize)
        ensures
            n == unpinned(self.newest@),
    {
        let mut n: usize = 0;
        let mut i: usize = 0;
        while i < self.newest.len()
            invariant
                i <= self.newest.len(),
                n == unpinned(self.newest@.take(i as int)),
                n <= i,
            decreases self.newest.len() - i,
        {
            assert(self.newest@.take(i + 1).drop_last() == self.newest@.take(i as int));
            if !self.newest[i].newer.pinned {
                n = n + 1;
            }
            i = i + 1;
        }
        assert(self.newest@.take(self.newest.len() as int) == self.newest@);
        n
    }

    /// The count on the sidebar entry of the Mods page.
    pub fn badge(&self) -> (b: Badge)
        ensures
            b == Badge::Count(unpinned(self.newest@) as usize),
    {
        Badge::Count(self.movable())
    }

    /// A copy for a page that reads it.
    pub fn get(&self) -> (u: Updates)
        ensures
            u.checked == self.checked,
            u.checking == self.checking,
            u.newest@.len() == self.newest@.len(),
            forall|i: int|
                0 <= i < self.newest@.len() ==> #[trigger] u.newest@[i].id@ == self.newest@[i].id@
                    && u.newest@[i].newer.version@ == self.newest@[i].newer.version@
                    && u.newest@[i].newer.pinned == self.newest@[i].newer.pinned,
    {
        let mut newest: Vec<Entry> = Vec::new();
        let mut i: usize = 0;
        while i < self.newest.len()
            invariant
                i <= self.newest.len(),
                newest@.len() == i,
                forall|j: int|
                    0 <= j < i ==> #[trigger] newest@[j].id@ == self.newest@[j].id@
                        && newest@[j].newer.version@ == self.newest@[j].newer.version@
                        && newest@[j].newer.pinned == self.newest@[j].newer.pinned,
            decreases self.newest.len() - i,
        {
            newest.push(self.newest[i].clone());
            i = i + 1;
        }
        Updates { checked: self.checked, checking: self.checking, newest }
    }

    /// Update all moved every mod that is not pinned: only the pinned ones
    /// still have a newer version.
    pub fn all_moved(&mut self)
        requires
            old(self).well_formed(),
        ensures
            final(self).well_formed(),
            final(self).checked == old(self).checked,
            final(self).checking == old(self).checking,
            forall|k: Seq<char>|
                #[trigger] final(self).map().contains_key(k) <==> old(self).map().contains_key(k)
                    && old(self).map()[k].1,
            forall|k: Seq<char>|
                #[trigger] final(self).map().contains_key(k) ==> final(self).map()[k] == old(self).map()[k],
            unpinned(final(self).newest@) == 0,
    {
        let ghost before = self.newest@;
        let mut kept: Vec<Entry> = Vec::new();
        let ghost mut from: Seq<int> = Seq::empty();
        let mut i: usize = 0;
        while i < self.newest.len()
            invariant
                i <= self.newest.len(),
                self.newest@ == before,
                unique_ids(before),
                from.len() == kept@.len(),
                forall|j: int| 0 <= j < from.len() ==> 0 <= #[trigger] from[j] < i,
                forall|a: int, b: int| 0 <= a < b < from.len() ==> from[a] < from[b],
                forall|j: int|
                    0 <= j < from.len() ==> #[trigger] kept@[j].id@ == before[from[j]].id@
                        && kept@[j].newer.version@ == before[from[j]].newer.version@
                        && kept@[j].newer.pinned == before[from[j]].newer.pinned,
                forall|j: int| 0 <= j < kept@.len() ==> #[trigger] kept@[j].newer.pinned,
                forall|q: int|
                    0 <= q < i && before[q].newer.pinned ==> exists|j: int|
                        0 <= j < from.len() && #[trigger] from[j] == q,
            decreases self.newest.len() - i,
        {
            if self.newest[i].newer.pinned {
                kept.push(self.newest[i].clone());
                proof {
                    let old_from = from;
                    from = from.push(i as int);
                    assert(from[from.len() - 1] == i);
                    assert forall|q: int|
                        0 <= q < i + 1 && before[q].newer.pinned implies exists|j: int|
                            0 <= j < from.len() && #[trigger] from[j] == q by {
                        if q < i {
                            let j = choose|j: int| 0 <= j < old_from.len() && #[trigger] old_from[j] == q;
                            assert(from[j] == q);
                        } else {
                            assert(from[from.len() - 1] == q);
                        }
                    }
                }
            }
            i = i + 1;
        }
        proof {
            assert(unique_ids(kept@)) by {
                assert forall|a: int, b: int| 0 <= a < b < kept@.len() implies kept@[a].id@ != kept@[b].id@ by {
                    assert(from[a] < from[b]);
                }
            }
            lemma_newest_map(before);
            lemma_newest_map(kept@);
            assert forall|k: Seq<char>| #[trigger] newest_map(kept@).contains_key(k) <==> newest_map(before).contains_key(k) && newest_map(before)[k].1 by {
                if newest_map(kept@).contains_key(k) {
                    let j = choose|j: int| 0 <= j < kept@.len() && kept@[j].id@ == k;
                    assert(before[from[j]].id@ == k);
                }
                if newest_map(before).contains_key(k) && newest_map(before)[k].1 {
                    let q = choose|q: int| 0 <= q < before.len() && before[q].id@ == k;
                    let j = choose|j: int| 0 <= j < from.len() && #[trigger] from[j] == q;
                    assert(kept@[j].id@ == k);
                }
            }
            assert forall|k: Seq<char>| #[trigger] newest_map(kept@).contains_key(k) implies newest_map(kept@)[k] == newest_map(before)[k] by {
                let j = choose|j: int| 0 <= j < kept@.len() && kept@[j].id@ == k;
                assert(before[from[j]].id@ == k);
            }
            lemma_all_pinned(kept@);
        }
        self.newest = kept;
    }

    /// One mod moved to its newest version, it has no newer one now.
    pub fn moved(&mut self, id: &str)
        requires
            old(self).well_formed(),
        ensures
            final(self).well_formed(),
            final(self).checked == old(self).checked,
            final(self).checking == old(self).checking,
            final(self).map() == old(self).map().remove(id@),
    {
        let ghost before = self.newest@;
        proof {
            lemma_newest_map(before);
        }
        let mut i: usize = 0;
        while i < self.newest.len()
            invariant
                i <= self.newest.len(),
                self.newest@ == before,
                self.checked == old(self).checked,
                self.checking == old(self).checking,
                before == old(self).newest@,
                unique_ids(before),
                forall|j: int| 0 <= j < i ==> before[j].id@ != id@,
            decreases self.newest.len() - i,
        {
            if same_text(self.newest[i].id.as_str(), id) {
                let ghost at = i as int;
                self.newest.remove(i);
                proof {
                    lemma_newest_map(before);
                    let after = self.newest@;
                    before.remove_ensures(at);
                    assert(after == before.remove(at));
                    assert(unique_ids(after)) by {
                        assert forall|a: int, b: int| 0 <= a < b < after.len() implies after[a].id@ != after[b].id@ by {
                            let x = if a < at { a } else { a + 1 };
                            let y = if b < at { b } else { b + 1 };
                            assert(after[a] == before[x]);
                            assert(after[b] == before[y]);
                        }
                    }
                    lemma_newest_map(after);
                    assert(newest_map(after) =~= newest_map(before).remove(id@)) by {
                        assert forall|k: Seq<char>| #[trigger] newest_map(after).contains_key(k) <==> newest_map(before).remove(id@).contains_key(k) by {
                            if newest_map(after).contains_key(k) {
                                let j = choose|j: int| 0 <= j < after.len() && after[j].id@ == k;
                                let x = if j < at { j } else { j + 1 };
                                assert(after[j] == before[x]);
                                assert(before[x].id@ != before[at].id@);
                            }
                            if newest_map(before).remove(id@).contains_key(k) {
                                let j = choose|j: int| 0 <= j < before.len() && before[j].id@ == k;
                                assert(j != at);
                                let y = if j < at { j } else { j - 1 };
                                assert(after[y] == before[j]);
                            }
                        }
                        assert forall|k: Seq<char>| #[trigger] newest_map(after).contains_key(k) implies newest_map(after)[k] == newest_map(before)[k] by {
                            let j = choose|j: int| 0 <= j < after.len() && after[j].id@ == k;
                            let x = if j < at { j } else { j + 1 };
                            assert(after[j] == before[x]);
                        }
                    }
                }
                return;
            }
            i = i + 1;
        }
        proof {
            lemma_newest_map(before);
            assert(newest_map(before) =~= newest_map(before).remove(id@)) by {
                if newest_map(before).contains_key(id@) {
                    let j = choose|j: int| 0 <= j < before.len() && before[j].id@ == id@;
                    assert(false);
                }
            }
        }
    }

    /// A check starts, unless one runs already. True when it starts.
    pub fn begin_check(&mut self) -> (started: bool)
        ensures
            started == !old(self).checking,
            final(self).checking,
            final(self).checked == old(self).checked,
            final(self).newest@ == old(self).newest@,
    {
        if self.checking {
            return false;
        }
        self.checking = true;
        true
    }

    /// The check failed, what was known stays.
    pub fn check_failed(&mut self)
        ensures
            !final(self).checking,
            final(self).checked == old(self).checked,
            final(self).newest@ == old(self).newest@,
    {
        self.checking = false;
    }

    /// The check ended at `now` and found `outdated`, the newest version of
    /// every locked mod that has one. A later entry of an id wins.
    pub fn check_done(&mut self, outdated: Vec<Entry>, now: i64)
        ensures
            final(self).well_formed(),
            !final(self).checking,
            final(self).checked == Some(now),
            final(self).map() == newest_map(outdated@),
    {
        let mut newest: Vec<Entry> = Vec::new();
        let mut i: usize = 0;
        while i < outdated.len()
            invariant
                i <= outdated.len(),
                unique_ids(newest@),
                newest_map(newest@) == newest_map(outdated@.take(i as int)),
            decreases outdated.len() - i,
        {
            let entry = outdated[i].clone();
            assert(outdated@.take(i + 1).drop_last() == outdated@.take(i as int));
            let ghost before = newest@;
            proof {
                lemma_newest_map(before);
            }
            let mut p: usize = 0;
            while p < newest.len() && !same_text(newest[p].id.as_str(), entry.id.as_str())
                invariant
                    p <= newest.len(),
                    newest@ == before,
                    forall|q: int| 0 <= q < p ==> before[q].id@ != entry.id@,
                decreases newest.len() - p,
            {
                p = p + 1;
            }
            if p < newest.len() {
                newest.set(p, entry);
                proof {
                    let after = newest@;
                    assert(unique_ids(after)) by {
                        assert forall|a: int, b: int| 0 <= a < b < after.len() implies after[a].id@ != after[b].id@ by {
                            assert(before[a].id@ != before[b].id@);
                        }
                    }
                    lemma_newest_map(after);
                    assert(newest_map(after) =~= newest_map(before).insert(entry.id@, (entry.newer.version@, entry.newer.pinned))) by {
                        assert forall|k: Seq<char>| #[trigger] newest_map(after).contains_key(k) implies newest_map(after)[k] == newest_map(before).insert(entry.id@, (entry.newer.version@, entry.newer.pinned))[k] by {
                            let j = choose|j: int| 0 <= j < after.len() && after[j].id@ == k;
                            if j != p {
                                assert(after[j] == before[j]);
                            }
                        }
                        assert forall|k: Seq<char>| #[trigger] newest_map(before).insert(entry.id@, (entry.newer.version@, entry.newer.pinned)).contains_key(k) implies newest_map(after).contains_key(k) by {
                            if k != entry.id@ {
                                let j = choose|j: int| 0 <= j < before.len() && before[j].id@ == k;
                                assert(after[j] == before[j]);
                            } else {
                                assert(after[p as int].id@ == k);
                            }
                        }
                    }
                }
            } else {
                newest.push(entry);
                proof {
                    let after = newest@;
                    assert(after.drop_last() == before);
                    assert(unique_ids(after)) by {
                        assert forall|a: int, b: int| 0 <= a < b < after.len() implies after[a].id@ != after[b].id@ by {
                            if b < before.len() {
                                assert(before[a].id@ != before[b].id@);
                            }
                        }
                    }
                }
            }
            i = i + 1;
        }
        assert(outdated@.take(outdated.len() as int) == outdated@);
        self.newest = newest;
        self.checking = false;
        self.checked = Some(now);
    }
}

/// The update all button: it names how many mods it moves once a check
/// ran, and is off when there is nothing to move. Pinned mods do not count,
/// it leaves them. The label and whether the button is on.
pub fn update_button(checked: bool, movable: usize) -> (r: (String, bool))
    ensures
        r.0@ == if checked && movable > 0 { "Update "@ + decimal(movable as nat) } else { "Update all"@ },
        r.1 == (!checked || movable > 0),
{
    if !checked || movable == 0 {
        return (String::from_str("Update all"), !checked || movable > 0);
    }
    let mut text = String::from_str("Update ");
    let n = decimal_string(movable as u64);
    text.append(n.as_str());
    (text, true)
}

/// The toast of a check the user asked for: every mod is on its newest
/// version, or how many have a newer one.
pub open spec fn check_text(outdated: nat) -> Seq<char> {
    if outdated == 0 {
        "Every mod is on its newest version"@
    } else {
        decimal(outdated) + " mods have a newer version"@
    }
}

/// The toast at the end of a check. The check at start stays quiet and only
/// fills the badge.
pub fn check_toast(announce: bool, outdated: usize) -> (t: Option<Toast>)
    ensures
        !announce ==> t is None,
        announce ==> (t matches Some(t) && t.text@ == check_text(outdated as nat) && t.kind == (
        if outdated == 0 {
            Kind::Success
        } else {
            Kind::Info
        })),
{
    if !announce {
        return None;
    }
    if outdated == 0 {
        Some(success(String::from_str("Every mod is on its newest version")))
    } else {
        let mut text = decimal_string(outdated as u64);
        text.append(" mods have a newer version");
        Some(info(text))
    }
}

proof fn lemma_all_pinned(s: Seq<Entry>)
    requires
        forall|j: int| 0 <= j < s.len() ==> #[trigger] s[j].newer.pinned,
    ensures
        unpinned(s) == 0,
    decreases s.len(),
{
    if s.len() > 0 {
        lemma_all_pinned(s.drop_last());
    }
}

/// Update all never moves more mods than have a newer version.
pub proof fn law_movable_at_most_newest(updates: Updates)
    ensures
        unpinned(updates.newest@) <= updates.newest@.len(),
{
    lemma_unpinned_bound(updates.newest@);
}

} // verus!
