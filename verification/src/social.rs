//! The part of the friends feature that has no view: the uploads of the
//! profile, the in game reports, and the count of friend requests. All of
//! it does nothing while nobody is signed in.

use vstd::prelude::*;
use crate::nav_item::Badge;
use crate::page::Page;
use crate::text::same_text;

verus! {

/// The app says it is still in game this often, in seconds. The server
/// reads two missed reports as not in game.
pub const REPORT_SECONDS: u32 = 60;
/// Friend requests are asked for this often while the app runs, in seconds.
pub const REQUESTS_SECONDS: u32 = 300;

/// What the app keeps of the friends feature.
#[derive(Debug)]
pub struct Social {
    /// The JSON of the last profile the server took, so an equal one is not
    /// sent again.
    pub last_upload: Option<String>,
    /// Every game start and exit moves it on, which ends the report loop of
    /// the run before.
    pub game_run: u64,
}

/// The run number after `run`, wrapping like an atomic counter.
pub open spec fn next_run(run: u64) -> u64 {
    if run == u64::MAX { 0 } else { (run + 1) as u64 }
}

impl Social {
    /// Nothing uploaded, no game run.
    pub fn new() -> (s: Social)
        ensures
            s.last_upload is None,
            s.game_run == 0,
    {
        Social { last_upload: None, game_run: 0 }
    }

    /// The profile as JSON is sent only when it differs from the last
    /// upload. True when it is to be sent.
    pub fn needs_upload(&self, json: &str) -> (r: bool)
        ensures
            r == match self.last_upload {
                Some(last) => last@ != json@,
                None => true,
            },
    {
        match &self.last_upload {
            Some(last) => !same_text(last.as_str(), json),
            None => true,
        }
    }

    /// The server took `json`.
    pub fn uploaded(&mut self, json: String)
        ensures
            final(self).last_upload matches Some(l) && l@ == json@,
            final(self).game_run == old(self).game_run,
    {
        self.last_upload = Some(json);
    }

    /// After a sign out the next account starts clean: its first upload must
    /// not be skipped because the account before sent the same mods. The
    /// badge of friend requests goes away.
    pub fn signed_out(&mut self) -> (badge: (Page, Badge))
        ensures
            final(self).last_upload is None,
            final(self).game_run == old(self).game_run,
            badge == (Page::Friends, Badge::Count(0)),
    {
        self.last_upload = None;
        show_requests(0)
    }

    /// The game started: a new run whose reports go on until the next start
    /// or exit. The number of the run comes back.
    pub fn game_started(&mut self) -> (run: u64)
        ensures
            run == next_run(old(self).game_run),
            final(self).game_run == run,
            final(self).last_upload == old(self).last_upload,
    {
        self.game_run = if self.game_run == u64::MAX { 0 } else { self.game_run + 1 };
        self.game_run
    }

    /// The game exited, the report loop of its run ends.
    pub fn game_exited(&mut self)
        ensures
            final(self).game_run == next_run(old(self).game_run),
            final(self).last_upload == old(self).last_upload,
    {
        self.game_run = if self.game_run == u64::MAX { 0 } else { self.game_run + 1 };
    }

    /// The report loop of `run` goes on.
    pub fn reporting(&self, run: u64) -> (r: bool)
        ensures
            r == (self.game_run == run),
    {
        self.game_run == run
    }
}

/// The count of friend requests that wait for me, on the sidebar entry.
pub fn show_requests(waiting: usize) -> (badge: (Page, Badge))
    ensures
        badge == (Page::Friends, Badge::Count(waiting)),
{
    (Page::Friends, Badge::Count(waiting))
}

/// What a round of the request watch shows: signed out clears the badge, a
/// failed look leaves it as it is.
pub fn requests_seen(signed_in: bool, incoming: Option<usize>) -> (waiting: Option<usize>)
    ensures
        waiting == if signed_in { incoming } else { Some(0usize) },
{
    if signed_in {
        incoming
    } else {
        Some(0)
    }
}

/// Every game start and exit moves the run on, which ends the report loop
/// of the run before.
pub proof fn law_a_new_run_ends_the_old(run: u64)
    ensures
        next_run(run) != run,
{
}

} // verus!
