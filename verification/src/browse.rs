//! The search of the Browse page: the order of the found packages, what a
//! row shows of each, and the line above the rows.

use vstd::prelude::*;
use crate::pill::{compact, compact_text};
use crate::text::{decimal, decimal_string, squeeze, squeezed, views};

verus! {

/// Rows past this add nothing, the user narrows the search instead.
pub const SHOWN: usize = 200;

/// The order of the found packages.
#[derive(Clone, Copy, Debug, PartialEq, Eq, Structural)]
pub enum Sort {
    /// A hit in the name first, then live before deprecated, then more
    /// downloads. The order of the package list.
    BestMatch,
    /// Most downloads first, wherever the words were found.
    Downloads,
}

impl Sort {
    /// The name of the order in its drop down.
    pub fn to_label(&self) -> (label: String)
        ensures
            label@ == (match self {
                Sort::BestMatch => "best match"@,
                Sort::Downloads => "downloads"@,
            }),
    {
        match self {
            Sort::BestMatch => String::from_str("best match"),
            Sort::Downloads => String::from_str("downloads"),
        }
    }
}

/// A package the search found, as the package list has it.
#[derive(Clone, Debug)]
pub struct Found {
    pub id: String,
    /// The newest version, empty when the package has none.
    pub version: String,
    pub downloads: u64,
    pub description: String,
    pub page_url: String,
    pub deprecated: bool,
    /// The server lists it as broken on this game version.
    pub broken: bool,
}

/// One row of the results.
#[derive(Clone, Debug)]
pub struct Hit {
    pub id: String,
    pub version: String,
    pub downloads: String,
    pub description: String,
    pub page_url: String,
    pub installed: bool,
    pub deprecated: bool,
    pub broken: bool,
}

/// `order` lists every index of `keys` once, the larger keys first, and
/// equal keys in the order they had.
pub open spec fn stable_descending(keys: Seq<u64>, order: Seq<usize>) -> bool {
    &&& order.len() == keys.len()
    &&& forall|i: int| 0 <= i < order.len() ==> #[trigger] order[i] < keys.len()
    &&& forall|i: int, j: int| 0 <= i < j < order.len() ==> order[i] != order[j]
    &&& forall|i: int, j: int|
        0 <= i < j < order.len() ==> keys[order[i] as int] >= keys[order[j] as int]
    &&& forall|i: int, j: int|
        0 <= i < j < order.len() && keys[order[i] as int] == keys[order[j] as int] ==> order[i]
            < order[j]
}

/// The download counts of `found`.
pub open spec fn download_keys(found: Seq<Found>) -> Seq<u64> {
    found.map_values(|f: Found| f.downloads)
}

/// Putting the next index `i` in at `pos`, after the larger or equal keys
/// and before the smaller ones, keeps the order stable.
proof fn lemma_insert_stable(ks: Seq<u64>, old: Seq<usize>, pos: int)
    requires
        ks.len() >= 1,
        ks.len() - 1 <= usize::MAX,
        stable_descending(ks.drop_last(), old),
        0 <= pos <= old.len(),
        forall|q: int| 0 <= q < pos ==> ks[#[trigger] old[q] as int] >= ks.last(),
        forall|q: int| pos <= q < old.len() ==> ks[#[trigger] old[q] as int] < ks.last(),
    ensures
        stable_descending(ks, old.insert(pos, (ks.len() - 1) as usize)),
{
    let i = (ks.len() - 1) as usize;
    let n = old.insert(pos, i);
    old.insert_ensures(pos, i);
    let d = ks.drop_last();
    assert forall|q: int| 0 <= q < old.len() implies #[trigger] d[old[q] as int] == ks[old[q] as int] by {}
    assert forall|a: int| 0 <= a < n.len() implies #[trigger] n[a] < ks.len() by {
        if a > pos {
            assert(n[a] == old[a - 1]);
        }
    }
    assert forall|a: int, b: int| 0 <= a < b < n.len() implies n[a] != n[b] by {
        if a > pos {
            assert(n[a] == old[a - 1]);
        }
        if b > pos {
            assert(n[b] == old[b - 1]);
        }
    }
    assert forall|a: int, b: int| 0 <= a < b < n.len() implies ks[n[a] as int] >= ks[n[b] as int] by {
        if a > pos {
            assert(n[a] == old[a - 1]);
        }
        if b > pos {
            assert(n[b] == old[b - 1]);
        }
        if a != pos && b != pos {
            let x = if a < pos { a } else { a - 1 };
            let y = if b < pos { b } else { b - 1 };
            assert(d[old[x] as int] >= d[old[y] as int]);
        }
    }
    assert forall|a: int, b: int|
        0 <= a < b < n.len() && ks[n[a] as int] == ks[n[b] as int] implies n[a] < n[b] by {
        if a > pos {
            assert(n[a] == old[a - 1]);
        }
        if b > pos {
            assert(n[b] == old[b - 1]);
        }
        if a != pos && b != pos {
            let x = if a < pos { a } else { a - 1 };
            let y = if b < pos { b } else { b - 1 };
            assert(d[old[x] as int] == d[old[y] as int]);
        }
    }
}

/// The indices of `keys`, most first, ties in their order: the order of a
/// stable sort by descending key.
pub fn descending_order(keys: &Vec<u64>) -> (order: Vec<usize>)
    ensures
        stable_descending(keys@, order@),
{
    let mut order: Vec<usize> = Vec::new();
    let mut i: usize = 0;
    while i < keys.len()
        invariant
            i <= keys.len(),
            stable_descending(keys@.take(i as int), order@),
        decreases keys.len() - i,
    {
        let key = keys[i];
        let mut pos: usize = 0;
        while pos < order.len() && keys[order[pos]] >= key
            invariant
                pos <= order.len() == i < keys.len(),
                stable_descending(keys@.take(i as int), order@),
                forall|q: int| 0 <= q < pos ==> keys@[#[trigger] order@[q] as int] >= key,
            decreases order.len() - pos,
        {
            pos = pos + 1;
        }
        let ghost old_order = order@;
        let ghost ks = keys@.take(i + 1);
        proof {
            let d = keys@.take(i as int);
            assert(ks.drop_last() == d);
            assert forall|q: int| 0 <= q < old_order.len() implies #[trigger] d[old_order[q] as int]
                == keys@[old_order[q] as int] by {}
            assert forall|q: int| pos <= q < old_order.len() implies ks[#[trigger] old_order[q] as int] < ks.last() by {
                if q > pos {
                    assert(d[old_order[pos as int] as int] >= d[old_order[q] as int]);
                }
            }
            assert forall|q: int| 0 <= q < pos implies ks[#[trigger] old_order[q] as int] >= ks.last() by {}
            lemma_insert_stable(ks, old_order, pos as int);
        }
        order.insert(pos, i);
        i = i + 1;
    }
    assert(keys@.take(keys.len() as int) == keys@);
    order
}

/// A row shows `found` this way.
pub open spec fn shows(hit: Hit, found: Found, installed: Seq<Seq<char>>) -> bool {
    &&& hit.id@ == found.id@
    &&& hit.version@ == found.version@
    &&& hit.downloads@ == compact_text(found.downloads as nat)
    &&& hit.description@ == squeezed(found.description@)
    &&& hit.page_url@ == found.page_url@
    &&& hit.installed == installed.contains(found.id@)
    &&& hit.deprecated == found.deprecated
    &&& hit.broken == found.broken
}

/// Whether `list` holds `s`.
pub fn holds(list: &Vec<String>, s: &String) -> (r: bool)
    ensures
        r == views(list@).contains(s@),
{
    let mut i: usize = 0;
    while i < list.len()
        invariant
            i <= list.len(),
            forall|j: int| 0 <= j < i ==> list@[j]@ != s@,
        decreases list.len() - i,
    {
        if list[i] == *s {
            assert(views(list@)[i as int] == s@);
            return true;
        }
        i = i + 1;
    }
    assert forall|j: int| 0 <= j < views(list@).len() implies views(list@)[j] != s@ by {
        assert(views(list@)[j] == list@[j]@);
    }
    false
}

fn hit(found: &Found, installed: &Vec<String>) -> (h: Hit)
    ensures
        shows(h, *found, views(installed@)),
{
    Hit {
        id: found.id.clone(),
        version: found.version.clone(),
        downloads: compact(found.downloads),
        description: squeeze(found.description.as_str()),
        page_url: found.page_url.clone(),
        installed: holds(installed, &found.id),
        deprecated: found.deprecated,
        broken: found.broken,
    }
}

/// The rows of a search: the found packages in the order of `sort`, at most
/// `SHOWN` of them, each marked when the profile has it. Also how many were
/// found.
pub fn hits_of(found: &Vec<Found>, installed: &Vec<String>, sort: Sort) -> (r: (Vec<Hit>, usize))
    ensures
        r.1 == found.len(),
        r.0.len() == if found.len() < SHOWN { found.len() } else { SHOWN },
        exists|order: Seq<usize>|
            {
                &&& (sort == Sort::BestMatch ==> order.len() == found.len() && forall|k: int|
                    0 <= k < order.len() ==> #[trigger] order[k] == k)
                &&& (sort == Sort::Downloads ==> stable_descending(download_keys(found@), order))
                &&& forall|k: int|
                    0 <= k < r.0.len() ==> #[trigger] shows(
                        r.0@[k],
                        found@[order[k] as int],
                        views(installed@),
                    )
            },
{
    let mut keys: Vec<u64> = Vec::new();
    let mut order: Vec<usize> = Vec::new();
    let mut i: usize = 0;
    while i < found.len()
        invariant
            i <= found.len(),
            keys@ == download_keys(found@).take(i as int),
            order.len() == i,
            forall|k: int| 0 <= k < i ==> #[trigger] order@[k] == k,
        decreases found.len() - i,
    {
        keys.push(found[i].downloads);
        order.push(i);
        assert(download_keys(found@).take(i + 1) == download_keys(found@).take(i as int).push(
            found@[i as int].downloads,
        ));
        i = i + 1;
    }
    assert(keys@ == download_keys(found@));
    if sort == Sort::Downloads {
        order = descending_order(&keys);
    }
    let count = if found.len() < SHOWN { found.len() } else { SHOWN };
    let mut hits: Vec<Hit> = Vec::new();
    let mut k: usize = 0;
    while k < count
        invariant
            k <= count <= found.len(),
            count <= SHOWN,
            order.len() == found.len(),
            forall|q: int| 0 <= q < order.len() ==> #[trigger] order@[q] < found.len(),
            hits.len() == k,
            forall|q: int|
                0 <= q < k ==> #[trigger] shows(hits@[q], found@[order@[q] as int], views(installed@)),
        decreases count - k,
    {
        hits.push(hit(&found[order[k]], installed));
        k = k + 1;
    }
    (hits, found.len())
}

/// The line above the rows: how many packages were found, and how many of
/// them show when that is fewer.
pub open spec fn found_line(total: nat, shown: nat) -> Seq<char> {
    if total > shown {
        decimal(total) + " packages, the first "@ + decimal(shown) + " are shown"@
    } else {
        decimal(total) + " packages"@
    }
}

/// The line above the rows.
pub fn found_text(total: usize, shown: usize) -> (text: String)
    ensures
        text@ == found_line(total as nat, shown as nat),
{
    let mut text = decimal_string(total as u64);
    if total > shown {
        text.append(" packages, the first ");
        let n = decimal_string(shown as u64);
        text.append(n.as_str());
        text.append(" are shown");
    } else {
        text.append(" packages");
    }
    text
}

/// The searches of the page. Every one gets the next number, and a result
/// is shown only when no newer search started since.
pub struct Searches {
    pub query: u64,
}

impl Searches {
    /// A new search starts, its number comes back.
    pub fn start(&mut self) -> (n: u64)
        requires
            old(self).query < u64::MAX,
        ensures
            n == old(self).query + 1,
            final(self).query == n,
    {
        self.query = self.query + 1;
        self.query
    }

    /// The result of search `n` is the newest one.
    pub fn current(&self, n: u64) -> (r: bool)
        ensures
            r == (n == self.query),
    {
        n == self.query
    }
}

} // verus!
