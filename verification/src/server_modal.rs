//! The form that registers a game server or edits one of mine: a switch per
//! mod of my profile. A ticked mod is required at the version my lock has,
//! so editing after an update moves the server to the new version.

use vstd::prelude::*;
use crate::browse::holds;
use crate::order::{ascending_order, char_views, indices, lemma_order_covers, stable_ascending};
use crate::text::{chars_of, decimal, lowercase, lowercase_of, push_decimal, same_text, views};

verus! {

/// A package of my lock.
#[derive(Debug)]
pub struct Locked {
    pub id: String,
    pub version: String,
}

/// A mod a server requires, at a version.
#[derive(Debug)]
pub struct ServerMod {
    pub id: String,
    pub version: String,
}

/// One switch of the form.
#[derive(Debug)]
pub struct PickRow {
    pub id: String,
    pub version: String,
    /// In my lock only because another mod needs it.
    pub dependency: bool,
    /// The server lists it, my profile does not have it.
    pub foreign: bool,
    pub picked: bool,
}

/// A row as the contracts see it: id, version, dependency, foreign, picked.
pub type RowView = (Seq<char>, Seq<char>, bool, bool, bool);

pub open spec fn row_view(row: PickRow) -> RowView {
    (row.id@, row.version@, row.dependency, row.foreign, row.picked)
}

pub open spec fn rows_view(rows: Seq<PickRow>) -> Seq<RowView> {
    rows.map_values(|row: PickRow| row_view(row))
}

/// The version the server requires of `id`. The list is read into a map,
/// so of two entries of one mod the later one wins.
pub open spec fn required_version(mods: Seq<ServerMod>, id: Seq<char>) -> Option<Seq<char>>
    decreases mods.len(),
{
    if mods.len() == 0 {
        None
    } else if mods.last().id@ == id {
        Some(mods.last().version@)
    } else {
        required_version(mods.drop_last(), id)
    }
}

/// The row of a package of my lock: ticked when the server requires it.
pub open spec fn lock_row(package: Locked, manifest: Seq<Seq<char>>, mods: Seq<ServerMod>) -> RowView {
    (
        package.id@,
        package.version@,
        !manifest.contains(package.id@),
        false,
        required_version(mods, package.id@) is Some,
    )
}

/// The entry at `k` is the first of its mod in the list.
pub open spec fn first_of_its_mod(mods: Seq<ServerMod>, k: int) -> bool {
    forall|j: int| 0 <= j < k ==> #[trigger] mods[j].id@ != mods[k].id@
}

/// The rows of the first `n` entries of the server that my lock lacks: a
/// required mod that left my profile stays on the server until I switch it
/// off, at the version the server has.
pub open spec fn foreign_rows(locked_ids: Seq<Seq<char>>, mods: Seq<ServerMod>, n: nat) -> Seq<RowView>
    decreases n,
{
    if n == 0 {
        Seq::empty()
    } else {
        let k = (n - 1) as nat;
        let rest = foreign_rows(locked_ids, mods, k);
        let id = mods[k as int].id@;
        if !locked_ids.contains(id) && first_of_its_mod(mods, k as int) {
            rest.push((id, required_version(mods, id).unwrap(), false, true, true))
        } else {
            rest
        }
    }
}

pub open spec fn locked_ids(locked: Seq<Locked>) -> Seq<Seq<char>> {
    locked.map_values(|p: Locked| p.id@)
}

/// The rows of the packages of my lock, in the order of the lock.
pub open spec fn lock_rows(locked: Seq<Locked>, manifest: Seq<Seq<char>>, mods: Seq<ServerMod>) -> Seq<RowView> {
    locked.map_values(|p: Locked| lock_row(p, manifest, mods))
}

/// The rows before the sort: my lock in its order, then what only the
/// server has, in the order of the server's list.
pub open spec fn unsorted_rows(locked: Seq<Locked>, manifest: Seq<Seq<char>>, mods: Seq<ServerMod>) -> Seq<RowView> {
    lock_rows(locked, manifest, mods) + foreign_rows(
        locked_ids(locked),
        mods,
        mods.len(),
    )
}

/// The sort key of each row: its id in lower case.
pub open spec fn row_keys(rows: Seq<RowView>) -> Seq<Seq<char>> {
    rows.map_values(|row: RowView| lowercase_of(row.0))
}

/// `rows` are `unsorted` in the order of a stable sort by lower case id.
pub open spec fn sorted_rows(unsorted: Seq<RowView>, rows: Seq<RowView>) -> bool {
    exists|order: Seq<usize>|
        stable_ascending(row_keys(unsorted), order) && rows == order.map_values(
            |i: usize| unsorted[i as int],
        )
}

/// The version the server requires of `id`, if it lists it.
fn required(mods: &Vec<ServerMod>, id: &str) -> (r: Option<String>)
    ensures
        match r {
            Some(v) => required_version(mods@, id@) == Some(v@),
            None => required_version(mods@, id@) is None,
        },
{
    let mut k: usize = mods.len();
    assert(mods@.take(mods.len() as int) == mods@);
    while k > 0
        invariant
            k <= mods.len(),
            required_version(mods@, id@) == required_version(mods@.take(k as int), id@),
        decreases k,
    {
        assert(mods@.take(k as int).drop_last() == mods@.take(k - 1));
        if same_text(mods[k - 1].id.as_str(), id) {
            return Some(mods[k - 1].version.clone());
        }
        k = k - 1;
    }
    None
}

/// Whether the entry at `k` is the first of its mod.
fn first_entry(mods: &Vec<ServerMod>, k: usize) -> (r: bool)
    requires
        k < mods.len(),
    ensures
        r == first_of_its_mod(mods@, k as int),
{
    let mut j: usize = 0;
    while j < k
        invariant
            j <= k < mods.len(),
            forall|q: int| 0 <= q < j ==> #[trigger] mods@[q].id@ != mods@[k as int].id@,
        decreases k - j,
    {
        if same_text(mods[j].id.as_str(), mods[k].id.as_str()) {
            return false;
        }
        j = j + 1;
    }
    true
}

fn copy_row(row: &PickRow) -> (r: PickRow)
    ensures
        row_view(r) == row_view(*row),
{
    PickRow {
        id: row.id.clone(),
        version: row.version.clone(),
        dependency: row.dependency,
        foreign: row.foreign,
        picked: row.picked,
    }
}

/// The switches of the form, sorted by id without case: every package of
/// my lock, ticked when the server requires it, and every mod the server
/// requires that my lock lacks, ticked.
pub fn pick_rows(locked: &Vec<Locked>, manifest: &Vec<String>, mods: &Vec<ServerMod>) -> (rows: Vec<PickRow>)
    ensures
        sorted_rows(unsorted_rows(locked@, views(manifest@), mods@), rows_view(rows@)),
{
    let ghost unsorted = unsorted_rows(locked@, views(manifest@), mods@);
    let ghost ids = locked_ids(locked@);
    let mut rows: Vec<PickRow> = Vec::new();
    let mut mine: Vec<String> = Vec::new();
    let mut i: usize = 0;
    while i < locked.len()
        invariant
            i <= locked.len(),
            ids == locked_ids(locked@),
            rows_view(rows@) == locked@.take(i as int).map_values(
                |p: Locked| lock_row(p, views(manifest@), mods@),
            ),
            views(mine@) == ids.take(i as int),
        decreases locked.len() - i,
    {
        let package = &locked[i];
        let in_manifest = holds(manifest, &package.id);
        let picked = required(mods, package.id.as_str()).is_some();
        let row = PickRow {
            id: package.id.clone(),
            version: package.version.clone(),
            dependency: !in_manifest,
            foreign: false,
            picked,
        };
        let ghost before = rows@;
        let ghost mine_before = mine@;
        rows.push(row);
        let own = package.id.clone();
        mine.push(own);
        proof {
            assert(rows@ == before.push(row));
            assert(rows_view(rows@) =~= rows_view(before).push(row_view(row)));
            assert(locked@.take(i + 1) =~= locked@.take(i as int).push(locked@[i as int]));
            assert(mine@ == mine_before.push(own));
            assert(views(mine@) =~= views(mine_before).push(own@));
            assert(ids[i as int] == locked@[i as int].id@);
            assert(ids.take(i + 1) =~= ids.take(i as int).push(ids[i as int]));
        }
        i = i + 1;
    }
    assert(locked@.take(locked.len() as int) =~= locked@);
    assert(ids.take(locked.len() as int) =~= ids);
    let ghost lock_part = rows_view(rows@);
    let mut k: usize = 0;
    while k < mods.len()
        invariant
            k <= mods.len(),
            views(mine@) == ids,
            ids == locked_ids(locked@),
            rows_view(rows@) == lock_part + foreign_rows(ids, mods@, k as nat),
        decreases mods.len() - k,
    {
        let id = &mods[k].id;
        if !holds(&mine, id) && first_entry(mods, k) {
            let version = match required(mods, id.as_str()) {
                Some(v) => v,
                None => mods[k].version.clone(),
            };
            let row = PickRow {
                id: id.clone(),
                version,
                dependency: false,
                foreign: true,
                picked: true,
            };
            let ghost before = rows@;
            rows.push(row);
            proof {
                assert(required_version(mods@, id@) is Some) by {
                    lemma_listed_is_required(mods@, k as int);
                }
                assert(rows@ == before.push(row));
                assert(rows_view(rows@) =~= rows_view(before).push(row_view(row)));
            }
        }
        k = k + 1;
    }
    assert(rows_view(rows@) == unsorted);
    let mut keys: Vec<Vec<char>> = Vec::new();
    let mut j: usize = 0;
    while j < rows.len()
        invariant
            j <= rows.len(),
            rows_view(rows@) == unsorted,
            char_views(keys@) == row_keys(unsorted).take(j as int),
        decreases rows.len() - j,
    {
        let lower = lowercase(rows[j].id.as_str());
        let key = chars_of(lower.as_str());
        let ghost before = keys@;
        keys.push(key);
        proof {
            assert(keys@ == before.push(key));
            assert(rows_view(rows@)[j as int] == row_view(rows@[j as int]));
            assert(unsorted[j as int].0 == rows@[j as int].id@);
            assert(row_keys(unsorted)[j as int] == lowercase_of(unsorted[j as int].0));
            assert(key@ == lowercase_of(rows@[j as int].id@));
            assert(char_views(keys@) =~= char_views(before).push(key@));
            assert(row_keys(unsorted).take(j + 1) =~= row_keys(unsorted).take(j as int).push(
                row_keys(unsorted)[j as int],
            ));
        }
        j = j + 1;
    }
    assert(row_keys(unsorted).take(rows.len() as int) =~= row_keys(unsorted));
    let order = ascending_order(&keys);
    let mut sorted: Vec<PickRow> = Vec::new();
    let mut q: usize = 0;
    while q < order.len()
        invariant
            q <= order.len() == rows.len(),
            rows_view(rows@) == unsorted,
            stable_ascending(row_keys(unsorted), order@),
            rows_view(sorted@) == order@.take(q as int).map_values(|i: usize| unsorted[i as int]),
        decreases order.len() - q,
    {
        let row = copy_row(&rows[order[q]]);
        let ghost before = sorted@;
        sorted.push(row);
        proof {
            let at = order@[q as int] as int;
            assert(sorted@ == before.push(row));
            assert(rows_view(rows@)[at] == row_view(rows@[at]));
            assert(row_view(row) == unsorted[at]);
            assert(rows_view(sorted@) =~= rows_view(before).push(row_view(row)));
            assert(order@.take(q + 1) =~= order@.take(q as int).push(order@[q as int]));
            assert(order@.take(q + 1).map_values(|i: usize| unsorted[i as int]) =~= order@.take(
                q as int,
            ).map_values(|i: usize| unsorted[i as int]).push(unsorted[at]));
        }
        q = q + 1;
    }
    assert(order@.take(order.len() as int) =~= order@);
    sorted
}

/// A mod the list names is one the server requires.
proof fn lemma_listed_is_required(mods: Seq<ServerMod>, k: int)
    requires
        0 <= k < mods.len(),
    ensures
        required_version(mods, mods[k].id@) is Some,
    decreases mods.len(),
{
    if mods.last().id@ != mods[k].id@ {
        assert(k < mods.len() - 1);
        assert(mods.drop_last()[k] == mods[k]);
        lemma_listed_is_required(mods.drop_last(), k);
    }
}

/// The rows of only the server are ticked, flagged as not in my profile,
/// and name no package of my lock.
proof fn lemma_foreign_rows(locked_ids: Seq<Seq<char>>, mods: Seq<ServerMod>, n: nat)
    requires
        n <= mods.len(),
    ensures
        forall|j: int|
            0 <= j < foreign_rows(locked_ids, mods, n).len() ==> (#[trigger] foreign_rows(
                locked_ids,
                mods,
                n,
            )[j]).3 && foreign_rows(locked_ids, mods, n)[j].4 && !foreign_rows(locked_ids, mods, n)[j].2
                && !locked_ids.contains(foreign_rows(locked_ids, mods, n)[j].0),
    decreases n,
{
    if n > 0 {
        let k = (n - 1) as nat;
        lemma_foreign_rows(locked_ids, mods, k);
        let rest = foreign_rows(locked_ids, mods, k);
        let all = foreign_rows(locked_ids, mods, n);
        assert forall|j: int| 0 <= j < all.len() implies (#[trigger] all[j]).3 && all[j].4 && !all[j].2
            && !locked_ids.contains(all[j].0) by {
            if j < rest.len() {
                assert(all[j] == rest[j]);
            }
        }
    }
}

/// Every row comes from my lock or from the server's list, as its flag says.
proof fn lemma_row_sources(
    locked: Seq<Locked>,
    manifest: Seq<Seq<char>>,
    mods: Seq<ServerMod>,
    rows: Seq<RowView>,
)
    requires
        sorted_rows(unsorted_rows(locked, manifest, mods), rows),
    ensures
        forall|j: int|
            0 <= j < rows.len() && !(#[trigger] rows[j]).3 ==> lock_rows(locked, manifest, mods).contains(
                rows[j],
            ),
        forall|j: int|
            0 <= j < rows.len() && (#[trigger] rows[j]).3 ==> rows[j].4 && !locked_ids(locked).contains(
                rows[j].0,
            ),
{
    let unsorted = unsorted_rows(locked, manifest, mods);
    let order = choose|order: Seq<usize>|
        stable_ascending(row_keys(unsorted), order) && rows == order.map_values(
            |i: usize| unsorted[i as int],
        );
    let lock_part = lock_rows(locked, manifest, mods);
    let foreign = foreign_rows(locked_ids(locked), mods, mods.len());
    lemma_foreign_rows(locked_ids(locked), mods, mods.len());
    assert forall|j: int| 0 <= j < rows.len() && !(#[trigger] rows[j]).3 implies lock_rows(
        locked,
        manifest,
        mods,
    ).contains(rows[j]) by {
        let i = order[j] as int;
        assert(rows[j] == unsorted[i]);
        if i >= lock_part.len() {
            assert(unsorted[i] == foreign[i - lock_part.len()]);
        } else {
            assert(unsorted[i] == lock_part[i]);
            assert(lock_part[i] == rows[j]);
        }
    }
    assert forall|j: int| 0 <= j < rows.len() && (#[trigger] rows[j]).3 implies rows[j].4
        && !locked_ids(locked).contains(rows[j].0) by {
        let i = order[j] as int;
        assert(rows[j] == unsorted[i]);
        if i >= lock_part.len() {
            assert(unsorted[i] == foreign[i - lock_part.len()]);
        } else {
            assert(unsorted[i] == lock_part[i]);
        }
    }
}

/// Every package of my lock has its row.
proof fn lemma_lock_rows_present(
    locked: Seq<Locked>,
    manifest: Seq<Seq<char>>,
    mods: Seq<ServerMod>,
    rows: Seq<RowView>,
)
    requires
        sorted_rows(unsorted_rows(locked, manifest, mods), rows),
    ensures
        forall|k: int|
            0 <= k < locked.len() ==> rows.contains(lock_row(#[trigger] locked[k], manifest, mods)),
{
    let unsorted = unsorted_rows(locked, manifest, mods);
    let order = choose|order: Seq<usize>|
        stable_ascending(row_keys(unsorted), order) && rows == order.map_values(
            |i: usize| unsorted[i as int],
        );
    let lock_part = lock_rows(locked, manifest, mods);
    lemma_order_covers(row_keys(unsorted), order);
    assert forall|k: int| 0 <= k < locked.len() implies rows.contains(
        lock_row(#[trigger] locked[k], manifest, mods),
    ) by {
        assert(indices(order).contains(k));
        let j = choose|j: int| 0 <= j < indices(order).len() && indices(order)[j] == k;
        assert(order[j] as int == k);
        assert(rows[j] == unsorted[k]);
        assert(unsorted[k] == lock_part[k]);
        assert(lock_part[k] == lock_row(locked[k], manifest, mods));
    }
}

/// A ticked mod is required at the version my lock has: every row that is
/// not flagged as foreign is a package of my lock with its lock version,
/// ticked exactly when the server requires the mod; a foreign row is a mod
/// only the server has, and it is ticked; and every package of my lock has
/// its row.
pub proof fn law_rows_follow_the_lock(
    locked: Seq<Locked>,
    manifest: Seq<Seq<char>>,
    mods: Seq<ServerMod>,
    rows: Seq<RowView>,
)
    requires
        sorted_rows(unsorted_rows(locked, manifest, mods), rows),
    ensures
        forall|j: int|
            0 <= j < rows.len() && !(#[trigger] rows[j]).3 ==> lock_rows(locked, manifest, mods).contains(
                rows[j],
            ),
        forall|j: int|
            0 <= j < rows.len() && (#[trigger] rows[j]).3 ==> rows[j].4 && !locked_ids(locked).contains(
                rows[j].0,
            ),
        forall|k: int|
            0 <= k < locked.len() ==> rows.contains(lock_row(#[trigger] locked[k], manifest, mods)),
{
    lemma_row_sources(locked, manifest, mods, rows);
    lemma_lock_rows_present(locked, manifest, mods, rows);
}

/// The mods of the ticked rows, for the server to require.
pub open spec fn picked_mods(rows: Seq<PickRow>) -> Seq<(Seq<char>, Seq<char>)>
    decreases rows.len(),
{
    if rows.len() == 0 {
        Seq::empty()
    } else {
        let rest = picked_mods(rows.drop_last());
        if rows.last().picked {
            rest.push((rows.last().id@, rows.last().version@))
        } else {
            rest
        }
    }
}

/// The mods the server is saved with: the ticked rows, in their order.
pub fn picked(rows: &Vec<PickRow>) -> (mods: Vec<ServerMod>)
    ensures
        mods@.map_values(|m: ServerMod| (m.id@, m.version@)) == picked_mods(rows@),
{
    let mut mods: Vec<ServerMod> = Vec::new();
    let mut i: usize = 0;
    while i < rows.len()
        invariant
            i <= rows.len(),
            mods@.map_values(|m: ServerMod| (m.id@, m.version@)) == picked_mods(rows@.take(i as int)),
        decreases rows.len() - i,
    {
        assert(rows@.take(i + 1).drop_last() == rows@.take(i as int));
        if rows[i].picked {
            let m = ServerMod { id: rows[i].id.clone(), version: rows[i].version.clone() };
            let ghost before = mods@;
            mods.push(m);
            assert(mods@ == before.push(m));
            assert(mods@.map_values(|m: ServerMod| (m.id@, m.version@)) =~= before.map_values(
                |m: ServerMod| (m.id@, m.version@),
            ).push((m.id@, m.version@)));
        }
        i = i + 1;
    }
    assert(rows@.take(rows.len() as int) == rows@);
    mods
}

/// The toast after a server was saved.
pub fn registered_text(name: &str, count: usize) -> (r: String)
    ensures
        r@ == name@ + " is registered with "@ + decimal(count as nat) + " mods"@,
{
    let mut text = String::from_str(name);
    text.append(" is registered with ");
    push_decimal(&mut text, count as u64);
    text.append(" mods");
    text
}

/// The title of the form for a server of mine.
pub fn edit_title(name: &str) -> (r: String)
    ensures
        r@ == "Edit "@ + name@,
{
    let mut text = String::from_str("Edit ");
    text.append(name);
    text
}

/// The line under the id of a switch: the version, and why the row is
/// there when it is no mod I asked for.
pub fn pick_detail(row: &PickRow) -> (r: String)
    ensures
        r@ == row.version@ + if row.foreign {
            ", not in your profile"@
        } else if row.dependency {
            ", a dependency"@
        } else {
            Seq::<char>::empty()
        },
{
    let mut text = row.version.clone();
    if row.foreign {
        text.append(", not in your profile");
    } else if row.dependency {
        text.append(", a dependency");
    }
    proof {
        reveal_strlit("");
    }
    text
}

} // verus!
