//! Cloud sync runs by itself. It installs what the cloud holds first, then
//! uploads what this machine changed, and only a real conflict asks the
//! user. Here are its decisions: when a sync starts, what its outcome says
//! in the status line, and when the user hears of a failure.

use vstd::prelude::*;
use crate::text::same_text;
use crate::time::{ago_at, elapsed, time_ago};
use crate::toast::{Kind, Toast, info, success};

verus! {

/// Another machine can save between the read of the head and the upload.
pub const ATTEMPTS: usize = 3;

/// How the sync goes, for the status line.
#[derive(Debug)]
pub enum Status {
    Idle,
    Syncing,
    Installing,
    /// Seconds since the Unix epoch.
    Synced(i64),
    Offline,
    Waiting,
    Failed(String),
}

/// A status as the contracts see it.
pub enum StatusView {
    Idle,
    Syncing,
    Installing,
    Synced(i64),
    Offline,
    Waiting,
    Failed(Seq<char>),
}

impl View for Status {
    type V = StatusView;

    open spec fn view(&self) -> StatusView {
        match self {
            Status::Idle => StatusView::Idle,
            Status::Syncing => StatusView::Syncing,
            Status::Installing => StatusView::Installing,
            Status::Synced(at) => StatusView::Synced(*at),
            Status::Offline => StatusView::Offline,
            Status::Waiting => StatusView::Waiting,
            Status::Failed(reason) => StatusView::Failed(reason@),
        }
    }
}

/// The status line of `status` at the time `now`.
pub open spec fn status_text(status: StatusView, now: i64) -> Seq<char> {
    match status {
        StatusView::Idle => Seq::empty(),
        StatusView::Syncing => "Syncing"@,
        StatusView::Installing => "Installing the setup from the cloud"@,
        StatusView::Synced(at) => "Synced "@ + time_ago(elapsed(now, at)),
        StatusView::Offline => "Offline, will retry"@,
        StatusView::Waiting => "Waiting for your choice between this machine and the cloud"@,
        StatusView::Failed(reason) => "Not synced: "@ + reason + ". Will retry"@,
    }
}

impl Status {
    /// A copy of the status.
    pub fn duplicate(&self) -> (s: Status)
        ensures
            s@ == self@,
    {
        match self {
            Status::Idle => Status::Idle,
            Status::Syncing => Status::Syncing,
            Status::Installing => Status::Installing,
            Status::Synced(at) => Status::Synced(*at),
            Status::Offline => Status::Offline,
            Status::Waiting => Status::Waiting,
            Status::Failed(reason) => Status::Failed(reason.clone()),
        }
    }

    /// The two statuses say the same.
    pub fn same(&self, other: &Status) -> (r: bool)
        ensures
            r == (self@ == other@),
    {
        match (self, other) {
            (Status::Idle, Status::Idle) => true,
            (Status::Syncing, Status::Syncing) => true,
            (Status::Installing, Status::Installing) => true,
            (Status::Synced(a), Status::Synced(b)) => *a == *b,
            (Status::Offline, Status::Offline) => true,
            (Status::Waiting, Status::Waiting) => true,
            (Status::Failed(a), Status::Failed(b)) => same_text(a.as_str(), b.as_str()),
            _ => false,
        }
    }

    /// The status line at the time `now`.
    pub fn text_at(&self, now: i64) -> (text: String)
        ensures
            text@ == status_text(self@, now),
    {
        match self {
            Status::Idle => String::new(),
            Status::Syncing => String::from_str("Syncing"),
            Status::Installing => String::from_str("Installing the setup from the cloud"),
            Status::Synced(at) => {
                let mut text = String::from_str("Synced ");
                let words = ago_at(now, *at);
                text.append(words.as_str());
                text
            },
            Status::Offline => String::from_str("Offline, will retry"),
            Status::Waiting => String::from_str(
                "Waiting for your choice between this machine and the cloud",
            ),
            Status::Failed(reason) => {
                let mut text = String::from_str("Not synced: ");
                text.append(reason.as_str());
                text.append(". Will retry");
                text
            },
        }
    }

    /// The status line now.
    pub fn text(&self) -> (text: String)
        ensures
            exists|now: i64| text@ == status_text(self@, now),
    {
        let now = crate::time::now_seconds();
        self.text_at(now)
    }
}

/// How a sync ended, before the status line says it.
#[derive(Debug)]
pub enum Outcome {
    /// Both sides agree now.
    Done,
    /// Both sides changed the same thing, the user has to pick.
    Conflict,
    /// Other machines saved in between every attempt.
    Again,
    /// The network did not answer.
    Offline,
    /// Any other failure, with its error chain.
    Failed(String),
}

/// The status that `outcome` leaves at the time `now`.
pub open spec fn status_after(outcome: Outcome, now: i64) -> StatusView {
    match outcome {
        Outcome::Done => StatusView::Synced(now),
        Outcome::Conflict => StatusView::Waiting,
        Outcome::Again => StatusView::Failed("other machines keep saving changes"@),
        Outcome::Offline => StatusView::Offline,
        Outcome::Failed(chain) => StatusView::Failed(chain@),
    }
}

/// One more attempt follows when the last one met a save of another machine
/// and fewer than `ATTEMPTS` ran.
pub fn again(attempts: usize, met_other_save: bool) -> (r: bool)
    ensures
        r == (met_other_save && attempts < ATTEMPTS),
{
    met_other_save && attempts < ATTEMPTS
}

/// What the status line and the user hear of a finished sync.
#[derive(Debug)]
pub struct Settled {
    pub status: Status,
    /// The failure goes to the user. A failure like the one before goes to
    /// the log only: the same failure once a minute is one failure.
    pub report: bool,
}

/// The sync state of the session.
#[derive(Debug)]
pub struct Sync {
    pub status: Status,
    /// A sync is queued or runs.
    pub queued: bool,
    /// The conflict dialog is open, a second one must not stack on it.
    pub asking: bool,
}

/// Whether a scheduled sync starts, and what it leaves.
pub open spec fn starts(signed_in: bool, game_running: bool, asking: bool, busy: bool, queued: bool) -> bool {
    signed_in && !game_running && !asking && !busy && !queued
}

impl Sync {
    /// Nothing synced yet.
    pub fn new() -> (s: Sync)
        ensures
            s.status@ == StatusView::Idle,
            !s.queued,
            !s.asking,
    {
        Sync { status: Status::Idle, queued: false, asking: false }
    }

    /// The status now.
    pub fn status(&self) -> (s: Status)
        ensures
            s@ == self.status@,
    {
        self.status.duplicate()
    }

    /// A sync is asked for. Without an account the status is idle and
    /// nothing runs. While the game runs, the conflict dialog is open, a
    /// change of the profile runs or a sync is queued, nothing starts
    /// either. True when a sync starts, it is queued then.
    pub fn schedule(&mut self, signed_in: bool, game_running: bool, busy: bool) -> (start: bool)
        ensures
            start == starts(signed_in, game_running, old(self).asking, busy, old(self).queued),
            !signed_in ==> final(self).status@ == StatusView::Idle,
            signed_in ==> final(self).status@ == old(self).status@,
            final(self).queued == (old(self).queued || start),
            final(self).asking == old(self).asking,
    {
        if !signed_in {
            self.status = Status::Idle;
            return false;
        }
        if game_running || self.asking || busy || self.queued {
            return false;
        }
        self.queued = true;
        true
    }

    /// A sync begins: the status says so. The status before comes back, to
    /// tell a repeated failure.
    pub fn begin(&mut self) -> (before: Status)
        ensures
            before@ == old(self).status@,
            final(self).status@ == StatusView::Syncing,
            final(self).queued == old(self).queued,
            final(self).asking == old(self).asking,
    {
        let before = self.status.duplicate();
        self.status = Status::Syncing;
        before
    }

    /// The install step of a sync runs.
    pub fn installing(&mut self)
        ensures
            final(self).status@ == StatusView::Installing,
            final(self).queued == old(self).queued,
            final(self).asking == old(self).asking,
    {
        self.status = Status::Installing;
    }

    /// A sync ended at `now` with `outcome`; `before` was the status when it
    /// began. Done syncs are dated, a conflict waits for the user, and a
    /// failure is reported only when it differs from the status before.
    pub fn settle(&mut self, before: &Status, outcome: Outcome, now: i64) -> (report: bool)
        ensures
            final(self).status@ == status_after(outcome, now),
            report == (match outcome {
                Outcome::Offline | Outcome::Failed(_) => status_after(outcome, now) != before@,
                _ => false,
            }),
            final(self).queued == old(self).queued,
            final(self).asking == old(self).asking,
    {
        let (status, failed) = match outcome {
            Outcome::Done => (Status::Synced(now), false),
            Outcome::Conflict => (Status::Waiting, false),
            Outcome::Again => (Status::Failed(String::from_str("other machines keep saving changes")), false),
            Outcome::Offline => (Status::Offline, true),
            Outcome::Failed(chain) => (Status::Failed(chain), true),
        };
        let repeated = status.same(before);
        self.status = status;
        failed && !repeated
    }

    /// The queued sync finished, the next one may start.
    pub fn finished(&mut self)
        ensures
            !final(self).queued,
            final(self).status@ == old(self).status@,
            final(self).asking == old(self).asking,
    {
        self.queued = false;
    }

    /// A failed background sync shows a toast only while the status says
    /// it failed; offline it waits quietly for the next try.
    pub fn failure_shows(&self) -> (r: bool)
        ensures
            r == (self.status@ is Failed),
    {
        match self.status {
            Status::Failed(_) => true,
            _ => false,
        }
    }

    /// The conflict dialog is to open. It opens when no other is open: true
    /// then, and the dialog counts as open.
    pub fn open_dialog(&mut self) -> (opens: bool)
        ensures
            opens == !old(self).asking,
            final(self).asking,
            final(self).status@ == old(self).status@,
            final(self).queued == old(self).queued,
    {
        if self.asking {
            return false;
        }
        self.asking = true;
        true
    }

    /// The conflict dialog closed, settled or not.
    pub fn close_dialog(&mut self)
        ensures
            !final(self).asking,
            final(self).status@ == old(self).status@,
            final(self).queued == old(self).queued,
    {
        self.asking = false;
    }
}

/// What the launcher does after the sync before a start.
#[derive(Debug, PartialEq, Eq, Structural)]
pub enum Launch {
    /// The game starts.
    Ready,
    /// The conflict dialog decides first.
    Conflict,
}

/// The launcher calls this with the game marked as running already. A sync
/// that cannot finish never blocks the game, it starts on the local setup.
/// `conflict` is the outcome of the sync when it ran without an error.
pub fn before_launch(signed_in: bool, conflict: Option<bool>) -> (l: Launch)
    ensures
        l == if signed_in && conflict == Some(true) { Launch::Conflict } else { Launch::Ready },
{
    if !signed_in {
        return Launch::Ready;
    }
    match conflict {
        Some(true) => Launch::Conflict,
        _ => Launch::Ready,
    }
}

/// Revisions of releases up to 0.1.8 carry no machine name.
pub fn machine_label(machine: &str) -> (label: &str)
    ensures
        label@ == if machine@.len() == 0 { "an unnamed machine"@ } else { machine@ },
{
    if machine.is_empty() {
        "an unnamed machine"
    } else {
        machine
    }
}


/// What the plan of the core says for one sync attempt.
#[derive(Clone, Copy, Debug, PartialEq, Eq, Structural)]
pub enum Plan {
    /// Both sides are the same.
    Settled,
    /// Both sides changed the same thing.
    Conflict,
    /// The sides merge: the cloud side is installed, this side uploaded, or
    /// both.
    Merge { install: bool, upload: bool },
}

/// The setup both sides agree on after an attempt, to keep as the baseline.
#[derive(Clone, Copy, Debug, PartialEq, Eq, Structural)]
pub enum Agreed {
    /// The setup of the cloud head, when there is one.
    Head,
    /// The merged setup.
    Merged,
}

/// The steps of one attempt, in order: install the merged setup and keep
/// the head as the baseline, upload, then keep what both sides agree on.
#[derive(Clone, Copy, Debug, PartialEq, Eq, Structural)]
pub struct Steps {
    pub install: bool,
    /// The head becomes the baseline right after the install, so a failed
    /// upload comes back as a plain local change.
    pub head_baseline: bool,
    pub upload: bool,
    /// The user picks a side, the attempt ends.
    pub conflict: bool,
    pub agreed: Option<Agreed>,
}

/// The first check of an attempt, before anything is read: a background
/// attempt does not run while the game runs.
pub fn attempt_gate(background: bool, game_running: bool) -> (r: Result<(), &'static str>)
    ensures
        r is Err <==> background && game_running,
        r matches Err(e) ==> e@ == "the game is running"@,
{
    if background && game_running {
        Err("the game is running")
    } else {
        Ok(())
    }
}

/// The steps of an attempt. A background attempt does not run while the
/// game runs, and a conflict needs a cloud setup.
pub fn steps(background: bool, game_running: bool, plan: Plan, has_head: bool) -> (r: Result<Steps, &'static str>)
    ensures
        background && game_running ==> (r matches Err(e) && e@ == "the game is running"@),
        !(background && game_running) ==> match plan {
            Plan::Settled => r == Ok::<Steps, &'static str>(Steps {
                install: false,
                head_baseline: false,
                upload: false,
                conflict: false,
                agreed: if has_head { Some(Agreed::Head) } else { None },
            }),
            Plan::Conflict => if has_head {
                r == Ok::<Steps, &'static str>(Steps {
                    install: false,
                    head_baseline: false,
                    upload: false,
                    conflict: true,
                    agreed: None,
                })
            } else {
                r matches Err(e) && e@ == "a conflict needs a cloud setup"@
            },
            Plan::Merge { install, upload } => r == Ok::<Steps, &'static str>(Steps {
                install,
                head_baseline: install && has_head,
                upload,
                conflict: false,
                agreed: Some(Agreed::Merged),
            }),
        },
{
    if let Err(e) = attempt_gate(background, game_running) {
        return Err(e);
    }
    match plan {
        Plan::Settled => Ok(Steps {
            install: false,
            head_baseline: false,
            upload: false,
            conflict: false,
            agreed: if has_head { Some(Agreed::Head) } else { None },
        }),
        Plan::Conflict => if has_head {
            Ok(Steps { install: false, head_baseline: false, upload: false, conflict: true, agreed: None })
        } else {
            Err("a conflict needs a cloud setup")
        },
        Plan::Merge { install, upload } => Ok(Steps {
            install,
            head_baseline: install && has_head,
            upload,
            conflict: false,
            agreed: Some(Agreed::Merged),
        }),
    }
}

/// The agreed setup is kept as the baseline only when it differs from the
/// one kept.
pub fn keeps_baseline(agreed: bool, same_as_kept: bool) -> (r: bool)
    ensures
        r == (agreed && !same_as_kept),
{
    agreed && !same_as_kept
}

/// Every step that writes checks that the account did not change under it.
pub fn ensure_account(current: Option<&str>, token: &str) -> (r: Result<(), &'static str>)
    ensures
        match current {
            Some(t) => t@ == token@,
            None => false,
        } <==> r is Ok,
        r matches Err(e) ==> e@ == "the signed-in account changed"@,
{
    match current {
        Some(t) => if same_text(t, token) {
            Ok(())
        } else {
            Err("the signed-in account changed")
        },
        None => Err("the signed-in account changed"),
    }
}

/// Why settling a conflict stops: the local side or the cloud changed
/// under the dialog, or another machine saved first. The next sync asks
/// again.
pub fn resolve_check(captured_same: bool, head_same: bool) -> (r: Result<(), &'static str>)
    ensures
        !captured_same ==> (r matches Err(e) && e@
            == "local mods or settings changed meanwhile, sync checks again"@),
        captured_same && !head_same ==> (r matches Err(e) && e@
            == "the cloud setup changed meanwhile, sync checks again"@),
        captured_same && head_same ==> r is Ok,
{
    if !captured_same {
        return Err("local mods or settings changed meanwhile, sync checks again");
    }
    if !head_same {
        return Err("the cloud setup changed meanwhile, sync checks again");
    }
    Ok(())
}

/// The toast after a conflict was settled: which side won.
pub fn settled_toast(keep_local: bool) -> (t: Toast)
    ensures
        t.kind == Kind::Success,
        t.text@ == if keep_local {
            "This machine is now the cloud setup."@
        } else {
            "The cloud setup is installed."@
        },
{
    if keep_local {
        success(String::from_str("This machine is now the cloud setup."))
    } else {
        success(String::from_str("The cloud setup is installed."))
    }
}

/// The pick of the dialog waits while a change of the profile runs.
pub fn busy_toast() -> (t: Toast)
    ensures
        t.kind == Kind::Info,
        t.text@ == "wait for the running operation to finish"@,
{
    info(String::from_str("wait for the running operation to finish"))
}

/// The same failure once a minute is one failure: a failure leaves the
/// same status whenever it comes, so a sync that fails like the one before
/// finds that status as its `before` and `settle` does not report it.
pub proof fn law_a_repeated_failure_is_quiet(outcome: Outcome, first: i64, second: i64)
    requires
        outcome is Offline || outcome is Failed,
    ensures
        status_after(outcome, second) == status_after(outcome, first),
{
}

/// Only one sync is queued at a time: while one is queued, a second is not
/// started, whatever else holds.
pub proof fn law_one_sync_at_a_time(signed_in: bool, game_running: bool, asking: bool, busy: bool)
    ensures
        !starts(signed_in, game_running, asking, busy, true),
{
}

/// Nothing syncs while the game runs or the conflict dialog is open.
pub proof fn law_no_sync_under_the_game(signed_in: bool, asking: bool, busy: bool, queued: bool)
    ensures
        !starts(signed_in, true, asking, busy, queued),
        !starts(signed_in, false, true, busy, queued),
{
}

/// The line of a revision in the history at the time `now`: its number,
/// how long ago it was saved, and by which machine.
pub open spec fn history_when_text(revision: i64, created: i64, machine: Seq<char>, now: i64) -> Seq<char> {
    "Revision "@ + crate::text::signed_decimal(revision as int) + ", "@ + time_ago(elapsed(now, created))
        + ", "@ + if machine.len() == 0 { "an unnamed machine"@ } else { machine }
}

/// The line of a revision in the history.
pub fn history_when(revision: i64, created: i64, machine: &str, now: i64) -> (r: String)
    ensures
        r@ == history_when_text(revision, created, machine@, now),
{
    let mut r = String::from_str("Revision ");
    crate::text::push_signed(&mut r, revision);
    r.append(", ");
    let ago = ago_at(now, created);
    r.append(ago.as_str());
    r.append(", ");
    r.append(machine_label(machine));
    r
}

/// What a revision of the history holds: a restore names the revision it
/// came from, a side kept from a conflict says it was never installed by
/// itself, any other shows its summary.
pub fn history_detail(restored_from: Option<i64>, applied: bool, summary: &str) -> (r: String)
    ensures
        r@ == match restored_from {
            Some(from) => "Restored revision "@ + crate::text::signed_decimal(from as int) + ": "@
                + summary@,
            None => if applied {
                summary@
            } else {
                "Kept from a conflict, never installed by itself: "@ + summary@
            },
        },
{
    match restored_from {
        Some(from) => {
            let mut r = String::from_str("Restored revision ");
            crate::text::push_signed(&mut r, from);
            r.append(": ");
            r.append(summary);
            r
        },
        None => if applied {
            String::from_str(summary)
        } else {
            let mut r = String::from_str("Kept from a conflict, never installed by itself: ");
            r.append(summary);
            r
        },
    }
}

/// The detail of the conflict dialog: where and when the cloud setup was
/// saved, and what using it here changes.
pub fn conflict_detail(machine: &str, when: &str, summary: &str) -> (r: String)
    ensures
        r@ == "The cloud setup was saved from "@ + (if machine@.len() == 0 {
            "an unnamed machine"@
        } else {
            machine@
        }) + " on "@ + when@ + ". Using it here means: "@ + summary@
            + ". The setup you do not pick stays in the history."@,
{
    let mut text = String::from_str("The cloud setup was saved from ");
    text.append(machine_label(machine));
    text.append(" on ");
    text.append(when);
    text.append(". Using it here means: ");
    text.append(summary);
    text.append(". The setup you do not pick stays in the history.");
    text
}

/// The toast after an install from the cloud: what it changed here.
pub fn installed_toast(summary: &str) -> (t: Toast)
    ensures
        t.kind == Kind::Success,
        t.text@ == "Installed from the cloud: "@ + summary@,
{
    let mut text = String::from_str("Installed from the cloud: ");
    text.append(summary);
    success(text)
}

/// The revision an upload builds on: the head of the cloud, 0 when the
/// cloud holds no setup yet.
pub fn upload_base(head: Option<i64>) -> (r: i64)
    ensures
        r == match head {
            Some(revision) => revision,
            None => 0,
        },
{
    match head {
        Some(revision) => revision,
        None => 0,
    }
}

} // verus!
