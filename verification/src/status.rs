//! The bar at the bottom of the window. It follows the running operations
//! and the progress events they send: which one runs, what it does now, and
//! how far the downloads are.

use vstd::prelude::*;
use crate::text::{decimal, decimal_string, same_text};

verus! {

/// A progress event of a running operation.
#[derive(Debug)]
pub enum Event {
    /// A chunk of the package list arrived.
    IndexChunk { done: u64, total: u64 },
    /// A download started, with its size when the server says it.
    DownloadStarted { package: String, total_bytes: Option<u64> },
    DownloadProgress { package: String, bytes: u64 },
    DownloadFinished { package: String },
    Installed { package: String },
    Removed { package: String },
}

/// The bytes of one download: received and total.
#[derive(Debug)]
pub struct Download {
    pub package: String,
    pub received: u64,
    pub total: u64,
}

/// What the bar shows and what it follows.
#[derive(Debug)]
pub struct StatusBar {
    pub next_id: u64,
    /// The ids of the running operations.
    pub running: Vec<u64>,
    /// Every download of the running operations, one entry per package.
    pub downloads: Vec<Download>,
    /// The line of text.
    pub text: String,
    /// The progress line: what is done of what total. Hidden when `None`.
    pub progress: Option<(u128, u128)>,
}

/// The downloads by package: received and total bytes.
pub open spec fn download_map(s: Seq<Download>) -> Map<Seq<char>, (u64, u64)>
    decreases s.len(),
{
    if s.len() == 0 {
        Map::empty()
    } else {
        download_map(s.drop_last()).insert(s.last().package@, (s.last().received, s.last().total))
    }
}

/// Every package has one entry.
pub open spec fn unique_packages(s: Seq<Download>) -> bool {
    forall|i: int, j: int| 0 <= i < j < s.len() ==> s[i].package@ != s[j].package@
}

/// The received bytes of all downloads.
pub open spec fn received_sum(s: Seq<Download>) -> nat
    decreases s.len(),
{
    if s.len() == 0 {
        0
    } else {
        received_sum(s.drop_last()) + s.last().received as nat
    }
}

/// The total bytes of all downloads.
pub open spec fn total_sum(s: Seq<Download>) -> nat
    decreases s.len(),
{
    if s.len() == 0 {
        0
    } else {
        total_sum(s.drop_last()) + s.last().total as nat
    }
}

/// The progress line for `done` of `total`: hidden without a total.
pub open spec fn progress_of(done: nat, total: nat) -> Option<(u128, u128)> {
    if total == 0 {
        None
    } else {
        Some((done as u128, total as u128))
    }
}

/// The text of an event.
pub open spec fn event_text(event: Event) -> Option<Seq<char>> {
    match event {
        Event::IndexChunk { done, total } => Some(
            "package list "@ + decimal(done as nat) + " of "@ + decimal(total as nat),
        ),
        Event::DownloadStarted { package, .. } => Some("downloading "@ + package@),
        Event::Installed { package } => Some("installed "@ + package@),
        Event::Removed { package } => Some("removed "@ + package@),
        _ => None,
    }
}

/// The downloads after `event`, by package.
pub open spec fn downloads_after(m: Map<Seq<char>, (u64, u64)>, event: Event) -> Map<Seq<char>, (u64, u64)> {
    match event {
        Event::DownloadStarted { package, total_bytes } => m.insert(
            package@,
            (
                0,
                match total_bytes {
                    Some(t) => t,
                    None => 0,
                },
            ),
        ),
        Event::DownloadProgress { package, bytes } => if m.contains_key(package@) {
            m.insert(package@, (bytes, m[package@].1))
        } else {
            m
        },
        Event::DownloadFinished { package } => if m.contains_key(package@) {
            m.insert(package@, (m[package@].1, m[package@].1))
        } else {
            m
        },
        _ => m,
    }
}

proof fn lemma_download_map(s: Seq<Download>)
    requires
        unique_packages(s),
    ensures
        forall|k: Seq<char>|
            #[trigger] download_map(s).contains_key(k) <==> exists|i: int| 0 <= i < s.len() && s[i].package@ == k,
        forall|i: int|
            0 <= i < s.len() ==> #[trigger] download_map(s)[s[i].package@] == (s[i].received, s[i].total),
    decreases s.len(),
{
    if s.len() > 0 {
        let d = s.drop_last();
        assert(unique_packages(d));
        lemma_download_map(d);
        assert(download_map(s) == download_map(d).insert(s.last().package@, (s.last().received, s.last().total)));
        assert forall|k: Seq<char>| #[trigger] download_map(s).contains_key(k) <==> exists|i: int| 0 <= i < s.len() && s[i].package@ == k by {
            assert(download_map(s) == download_map(d).insert(s.last().package@, (s.last().received, s.last().total)));
            if download_map(s).contains_key(k) && k != s.last().package@ {
                assert(download_map(d).contains_key(k));
                let i = choose|i: int| 0 <= i < d.len() && d[i].package@ == k;
                assert(s[i].package@ == k);
            }
            if exists|i: int| 0 <= i < s.len() && s[i].package@ == k {
                let i = choose|i: int| 0 <= i < s.len() && s[i].package@ == k;
                if i < d.len() {
                    assert(d[i].package@ == k);
                }
            }
        }
        assert forall|i: int| 0 <= i < s.len() implies #[trigger] download_map(s)[s[i].package@] == (s[i].received, s[i].total) by {
            if i < d.len() {
                assert(d[i].package@ == s[i].package@);
                assert(s[i].package@ != s.last().package@);
                assert(download_map(d)[d[i].package@] == (d[i].received, d[i].total));
            }
        }
    }
}

/// Changing the entry at `p` to `(received, total)` is an insert of its
/// package into the map.
proof fn lemma_set_download(before: Seq<Download>, after: Seq<Download>, p: int)
    requires
        unique_packages(before),
        0 <= p < before.len(),
        after.len() == before.len(),
        after[p].package@ == before[p].package@,
        forall|j: int| 0 <= j < before.len() && j != p ==> after[j] == before[j],
    ensures
        unique_packages(after),
        download_map(after) == download_map(before).insert(before[p].package@, (after[p].received, after[p].total)),
{
    assert(unique_packages(after)) by {
        assert forall|a: int, b: int| 0 <= a < b < after.len() implies after[a].package@ != after[b].package@ by {
            assert(before[a].package@ != before[b].package@);
        }
    }
    lemma_download_map(before);
    lemma_download_map(after);
    let k0 = before[p].package@;
    let want = download_map(before).insert(k0, (after[p].received, after[p].total));
    assert(download_map(after) =~= want) by {
        assert forall|k: Seq<char>| #[trigger] download_map(after).contains_key(k) implies download_map(after)[k] == want[k] by {
            let j = choose|j: int| 0 <= j < after.len() && after[j].package@ == k;
            if j != p {
                assert(after[j] == before[j]);
            }
        }
        assert forall|k: Seq<char>| #[trigger] want.contains_key(k) implies download_map(after).contains_key(k) by {
            if k != k0 {
                let j = choose|j: int| 0 <= j < before.len() && before[j].package@ == k;
                assert(after[j] == before[j]);
            } else {
                assert(after[p].package@ == k);
            }
        }
    }
}

/// The position of the download of `package`, or the count of downloads.
fn find_download(downloads: &Vec<Download>, package: &str) -> (p: usize)
    ensures
        p <= downloads.len(),
        p < downloads.len() ==> downloads@[p as int].package@ == package@,
        forall|q: int| 0 <= q < p ==> downloads@[q].package@ != package@,
{
    let mut p: usize = 0;
    while p < downloads.len() && !same_text(downloads[p].package.as_str(), package)
        invariant
            p <= downloads.len(),
            forall|q: int| 0 <= q < p ==> downloads@[q].package@ != package@,
        decreases downloads.len() - p,
    {
        p = p + 1;
    }
    p
}

/// The ids of `running` but `id`, in their order.
pub open spec fn without(running: Seq<u64>, id: u64) -> Seq<u64> {
    running.filter(|r: u64| r != id)
}

impl StatusBar {
    /// The map of the downloads.
    pub open spec fn download_view(&self) -> Map<Seq<char>, (u64, u64)> {
        download_map(self.downloads@)
    }

    /// Every package has one download entry, and with nothing running the
    /// bar says it is ready, follows no download and hides its progress.
    pub open spec fn well_formed(&self) -> bool {
        &&& unique_packages(self.downloads@)
        &&& self.running@.len() == 0 ==> self.text@ == "ready"@ && self.downloads@.len() == 0
            && self.progress is None
    }

    /// An empty bar that says it is ready.
    pub fn new() -> (bar: Self)
        ensures
            bar.well_formed(),
            bar.next_id == 0,
            bar.running@.len() == 0,
            bar.downloads@.len() == 0,
            bar.text@ == "ready"@,
            bar.progress is None,
    {
        StatusBar {
            next_id: 0,
            running: Vec::new(),
            downloads: Vec::new(),
            text: String::from_str("ready"),
            progress: None,
        }
    }

    /// Marks the start of one operation. The id goes back into `event` and
    /// `end`.
    pub fn begin(&mut self, title: &str) -> (id: u64)
        requires
            old(self).next_id < u64::MAX,
        ensures
            id == old(self).next_id + 1,
            final(self).next_id == id,
            final(self).running@ == old(self).running@.push(id),
            final(self).text@ == title@,
            final(self).downloads@ == old(self).downloads@,
            final(self).progress == old(self).progress,
            old(self).well_formed() ==> final(self).well_formed(),
    {
        self.next_id = self.next_id + 1;
        let id = self.next_id;
        self.running.push(id);
        self.text = String::from_str(title);
        id
    }

    /// The operation `id` ended. When none runs any more, the bar is ready.
    pub fn end(&mut self, id: u64)
        requires
            old(self).well_formed(),
        ensures
            final(self).well_formed(),
            final(self).next_id == old(self).next_id,
            final(self).running@ == without(old(self).running@, id),
            final(self).running@.len() == 0 ==> final(self).downloads@.len() == 0
                && final(self).text@ == "ready"@ && final(self).progress is None,
            final(self).running@.len() > 0 ==> final(self).downloads@ == old(self).downloads@
                && final(self).text@ == old(self).text@ && final(self).progress == old(self).progress,
    {
        let mut kept: Vec<u64> = Vec::new();
        let mut i: usize = 0;
        while i < self.running.len()
            invariant
                i <= self.running.len(),
                kept@ == without(self.running@.take(i as int), id),
            decreases self.running.len() - i,
        {
            let r = self.running[i];
            proof {
                let t = self.running@.take(i + 1);
                assert(t.drop_last() == self.running@.take(i as int));
                reveal_with_fuel(Seq::filter, 1);
            }
            if r != id {
                kept.push(r);
            }
            i = i + 1;
        }
        assert(self.running@.take(self.running.len() as int) == self.running@);
        self.running = kept;
        if self.running.len() == 0 {
            self.downloads = Vec::new();
            self.text = String::from_str("ready");
            self.progress = None;
        }
    }

    /// An event of the operation `id`. The events travel on their own task,
    /// so the last ones can land after the operation already ended: those
    /// change nothing.
    pub fn event(&mut self, id: u64, event: Event)
        requires
            old(self).well_formed(),
        ensures
            final(self).well_formed(),
            final(self).next_id == old(self).next_id,
            final(self).running@ == old(self).running@,
            !old(self).running@.contains(id) ==> final(self).downloads@ == old(self).downloads@
                && final(self).text@ == old(self).text@ && final(self).progress == old(self).progress,
            old(self).running@.contains(id) ==> {
                &&& final(self).download_view() == downloads_after(old(self).download_view(), event)
                &&& match event_text(event) {
                    Some(t) => final(self).text@ == t,
                    None => final(self).text@ == old(self).text@,
                }
                &&& match event {
                    Event::IndexChunk { done, total } => final(self).progress == progress_of(
                        done as nat,
                        total as nat,
                    ),
                    Event::Installed { .. } | Event::Removed { .. } => final(self).progress == old(self).progress,
                    _ => final(self).progress == progress_of(
                        received_sum(final(self).downloads@),
                        total_sum(final(self).downloads@),
                    ),
                }
            },
    {
        if !self.running_has(id) {
            return;
        }
        let ghost before = self.downloads@;
        proof {
            lemma_download_map(before);
        }
        match event {
            Event::IndexChunk { done, total } => {
                let mut text = String::from_str("package list ");
                let d = decimal_string(done);
                text.append(d.as_str());
                text.append(" of ");
                let t = decimal_string(total);
                text.append(t.as_str());
                self.text = text;
                self.progress = if total == 0 { None } else { Some((done as u128, total as u128)) };
            },
            Event::DownloadStarted { package, total_bytes } => {
                let mut text = String::from_str("downloading ");
                text.append(package.as_str());
                self.text = text;
                let total = match total_bytes {
                    Some(t) => t,
                    None => 0,
                };
                let p = find_download(&self.downloads, package.as_str());
                if p < self.downloads.len() {
                    self.downloads.set(p, Download { package, received: 0, total });
                    proof {
                        lemma_set_download(before, self.downloads@, p as int);
                    }
                } else {
                    self.downloads.push(Download { package, received: 0, total });
                    proof {
                        let after = self.downloads@;
                        assert(after.drop_last() == before);
                        assert(unique_packages(after)) by {
                            assert forall|a: int, b: int| 0 <= a < b < after.len() implies after[a].package@ != after[b].package@ by {
                                if b < before.len() {
                                    assert(before[a].package@ != before[b].package@);
                                }
                            }
                        }
                    }
                }
                self.show_downloads();
            },
            Event::DownloadProgress { package, bytes } => {
                let p = find_download(&self.downloads, package.as_str());
                if p < self.downloads.len() {
                    let total = self.downloads[p].total;
                    self.downloads.set(p, Download { package, received: bytes, total });
                    proof {
                        lemma_set_download(before, self.downloads@, p as int);
                    }
                } else {
                    proof {
                        if download_map(before).contains_key(package@) {
                            let j = choose|j: int| 0 <= j < before.len() && before[j].package@ == package@;
                            assert(false);
                        }
                    }
                }
                self.show_downloads();
            },
            Event::DownloadFinished { package } => {
                let p = find_download(&self.downloads, package.as_str());
                if p < self.downloads.len() {
                    let total = self.downloads[p].total;
                    self.downloads.set(p, Download { package, received: total, total });
                    proof {
                        lemma_set_download(before, self.downloads@, p as int);
                    }
                } else {
                    proof {
                        if download_map(before).contains_key(package@) {
                            let j = choose|j: int| 0 <= j < before.len() && before[j].package@ == package@;
                            assert(false);
                        }
                    }
                }
                self.show_downloads();
            },
            Event::Installed { package } => {
                let mut text = String::from_str("installed ");
                text.append(package.as_str());
                self.text = text;
            },
            Event::Removed { package } => {
                let mut text = String::from_str("removed ");
                text.append(package.as_str());
                self.text = text;
            },
        }
    }

    fn running_has(&self, id: u64) -> (r: bool)
        ensures
            r == self.running@.contains(id),
    {
        let mut i: usize = 0;
        while i < self.running.len()
            invariant
                i <= self.running.len(),
                forall|j: int| 0 <= j < i ==> self.running@[j] != id,
            decreases self.running.len() - i,
        {
            if self.running[i] == id {
                return true;
            }
            i = i + 1;
        }
        false
    }

    /// The progress line of all downloads together.
    fn show_downloads(&mut self)
        ensures
            final(self).downloads@ == old(self).downloads@,
            final(self).running@ == old(self).running@,
            final(self).next_id == old(self).next_id,
            final(self).text@ == old(self).text@,
            final(self).progress == progress_of(
                received_sum(old(self).downloads@),
                total_sum(old(self).downloads@),
            ),
    {
        let mut received: u128 = 0;
        let mut total: u128 = 0;
        let mut i: usize = 0;
        while i < self.downloads.len()
            invariant
                i <= self.downloads.len(),
                received == received_sum(self.downloads@.take(i as int)),
                total == total_sum(self.downloads@.take(i as int)),
                received <= i * 0x1_0000_0000_0000_0000,
                total <= i * 0x1_0000_0000_0000_0000,
            decreases self.downloads.len() - i,
        {
            assert(self.downloads@.take(i + 1).drop_last() == self.downloads@.take(i as int));
            received = received + self.downloads[i].received as u128;
            total = total + self.downloads[i].total as u128;
            i = i + 1;
        }
        assert(self.downloads@.take(self.downloads.len() as int) == self.downloads@);
        self.progress = if total == 0 { None } else { Some((received, total)) };
    }
}

/// `after` is the bar `before` after the start of the operation `id` named
/// `title`.
pub open spec fn began(before: StatusBar, title: Seq<char>, id: u64, after: StatusBar) -> bool {
    &&& id == before.next_id + 1
    &&& after.next_id == id
    &&& after.running@ == before.running@.push(id)
    &&& after.text@ == title
    &&& after.downloads@ == before.downloads@
    &&& after.progress == before.progress
}

/// `after` is the bar `before` after the operation `id` ended.
pub open spec fn ended(before: StatusBar, id: u64, after: StatusBar) -> bool {
    &&& after.well_formed()
    &&& after.next_id == before.next_id
    &&& after.running@ == without(before.running@, id)
    &&& after.running@.len() == 0 ==> after.downloads@.len() == 0 && after.text@ == "ready"@
        && after.progress is None
    &&& after.running@.len() > 0 ==> after.downloads@ == before.downloads@ && after.text@
        == before.text@ && after.progress == before.progress
}

/// `after` is the bar `before` after the event `event` of the operation `id`.
pub open spec fn evented(before: StatusBar, id: u64, event: Event, after: StatusBar) -> bool {
    &&& after.well_formed()
    &&& after.next_id == before.next_id
    &&& after.running@ == before.running@
    &&& !before.running@.contains(id) ==> after.downloads@ == before.downloads@ && after.text@
        == before.text@ && after.progress == before.progress
    &&& before.running@.contains(id) ==> {
        &&& after.download_view() == downloads_after(before.download_view(), event)
        &&& match event_text(event) {
            Some(t) => after.text@ == t,
            None => after.text@ == before.text@,
        }
        &&& match event {
            Event::IndexChunk { done, total } => after.progress == progress_of(done as nat, total as nat),
            Event::Installed { .. } | Event::Removed { .. } => after.progress == before.progress,
            _ => after.progress == progress_of(received_sum(after.downloads@), total_sum(after.downloads@)),
        }
    }
}

/// Leaving out an id that is not there leaves the ids as they are.
proof fn lemma_without_absent(running: Seq<u64>, id: u64)
    requires
        !running.contains(id),
    ensures
        without(running, id) == running,
    decreases running.len(),
{
    reveal_with_fuel(Seq::filter, 1);
    if running.len() > 0 {
        let rest = running.drop_last();
        assert(!rest.contains(id)) by {
            if rest.contains(id) {
                let k = choose|k: int| 0 <= k < rest.len() && rest[k] == id;
                assert(running[k] == id);
            }
        }
        lemma_without_absent(rest, id);
        assert(running.last() != id) by {
            assert(running[running.len() - 1] == running.last());
        }
        assert(rest.push(running.last()) == running);
    }
}

/// Ending an operation that does not run changes nothing the bar shows:
/// the same operations run, with the same line, downloads and progress.
pub proof fn law_ending_an_unknown_operation_changes_nothing(
    before: StatusBar,
    id: u64,
    after: StatusBar,
)
    requires
        before.well_formed(),
        !before.running@.contains(id),
        ended(before, id, after),
    ensures
        after.running@ == before.running@,
        after.text@ == before.text@,
        after.downloads@ == before.downloads@,
        after.progress == before.progress,
{
    lemma_without_absent(before.running@, id);
    if before.running@.len() == 0 {
        assert(after.downloads@ =~= before.downloads@);
    }
}

/// Marks the start of one operation on the bar of the window, when it has
/// one. Without a bar the id is 0 and nothing changes.
pub fn begin(bar: &mut Option<StatusBar>, title: &str) -> (id: u64)
    requires
        *old(bar) matches Some(b) ==> b.next_id < u64::MAX,
    ensures
        *old(bar) is None ==> id == 0 && *final(bar) is None,
        *old(bar) matches Some(b) ==> (*final(bar) matches Some(f) && began(b, title@, id, f)
            && (b.well_formed() ==> f.well_formed())),
{
    match bar {
        Some(b) => b.begin(title),
        None => 0,
    }
}

/// The operation `id` ended, on the bar of the window when it has one.
/// Without a bar nothing happens.
pub fn end(bar: &mut Option<StatusBar>, id: u64)
    requires
        *old(bar) matches Some(b) ==> b.well_formed(),
    ensures
        *old(bar) is None ==> *final(bar) is None,
        *old(bar) matches Some(b) ==> (*final(bar) matches Some(f) && ended(b, id, f)),
{
    match bar {
        Some(b) => b.end(id),
        None => {},
    }
}

/// An event of the operation `id`, on the bar of the window when it has
/// one. Without a bar nothing happens.
pub fn event(bar: &mut Option<StatusBar>, id: u64, event: Event)
    requires
        *old(bar) matches Some(b) ==> b.well_formed(),
    ensures
        *old(bar) is None ==> *final(bar) is None,
        *old(bar) matches Some(b) ==> (*final(bar) matches Some(f) && evented(b, id, event, f)),
{
    match bar {
        Some(b) => b.event(id, event),
        None => {},
    }
}

} // verus!
