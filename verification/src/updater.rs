//! The state of the update of the app itself: the check at start and on
//! demand, the download with its progress, and what the status bar and the
//! settings page say of it.

use vstd::prelude::*;
use crate::text::{decimal, decimal_string};
use crate::toast::{Kind, Toast, error, info, success};

verus! {

/// Where the update of the app is.
#[derive(Clone, Copy, Debug, PartialEq, Eq, Structural)]
pub enum Phase {
    Idle,
    Checking,
    Available,
    Installing,
}

/// What the update check and the install know.
#[derive(Debug)]
pub struct UpdateState {
    pub phase: Phase,
    pub version: Option<String>,
    /// Whole percent of the download, 0 until the first chunk lands.
    pub progress: u8,
    pub error: Option<String>,
    /// The manifest of the found version is held for the install.
    pub info: bool,
}

/// The texts of an optional text.
pub open spec fn opt_view(o: Option<String>) -> Option<Seq<char>> {
    match o {
        Some(s) => Some(s@),
        None => None,
    }
}

/// What a check for a new version found.
#[derive(Debug)]
pub enum Checked {
    /// A newer version waits.
    Found(String),
    /// This is the newest version.
    Newest,
    /// The check failed, with its error chain.
    Failed(String),
}

/// How an install ended.
#[derive(Debug)]
pub enum Installed {
    /// Installed, and the relaunch worked.
    Relaunched,
    /// Installed, but the relaunch failed, with its error chain.
    RelaunchFailed(String),
    /// The download or the swap failed, with its error chain.
    Failed(String),
}

impl UpdateState {
    /// Nothing checked yet.
    pub fn new() -> (s: UpdateState)
        ensures
            s.phase == Phase::Idle,
            s.version is None,
            s.progress == 0,
            s.error is None,
            !s.info,
    {
        UpdateState { phase: Phase::Idle, version: None, progress: 0, error: None, info: false }
    }

    /// A newer version is known, or being installed.
    pub fn has_update(&self) -> (r: bool)
        ensures
            r == (self.phase == Phase::Available || self.phase == Phase::Installing),
    {
        match self.phase {
            Phase::Available | Phase::Installing => true,
            _ => false,
        }
    }

    /// A check or an install runs.
    pub fn busy(&self) -> (r: bool)
        ensures
            r == (self.phase == Phase::Checking || self.phase == Phase::Installing),
    {
        match self.phase {
            Phase::Checking | Phase::Installing => true,
            _ => false,
        }
    }

    /// A tap on the update button installs when a new version waits and
    /// nothing else runs.
    pub fn tap_installs(&self) -> (r: bool)
        ensures
            r == (self.phase == Phase::Available),
    {
        self.has_update() && !self.busy()
    }

    /// The button pulses once an update waits; a pulse that runs already
    /// is not started again.
    pub fn starts_pulse(&self, pulsing: bool) -> (r: bool)
        ensures
            r == (self.phase == Phase::Available && !pulsing),
    {
        self.phase == Phase::Available && !pulsing
    }

    /// A check is asked for. It starts unless a check or an install runs:
    /// true then, and the error before is gone.
    pub fn begin_check(&mut self) -> (started: bool)
        ensures
            started == !(old(self).phase == Phase::Checking || old(self).phase == Phase::Installing),
            started ==> final(self).phase == Phase::Checking && final(self).error is None
                && opt_view(final(self).version) == opt_view(old(self).version) && final(self).info
                == old(self).info && final(self).progress == old(self).progress,
            !started ==> final(self).phase == old(self).phase && opt_view(final(self).error)
                == opt_view(old(self).error) && opt_view(final(self).version) == opt_view(old(self).version) && final(self).info == old(self).info && final(self).progress == old(self).progress,
    {
        if self.busy() {
            return false;
        }
        self.phase = Phase::Checking;
        self.error = None;
        true
    }

    /// A check ended.
    pub fn check_done(&mut self, checked: Checked)
        ensures
            match checked {
                Checked::Found(v) => final(self).phase == Phase::Available && opt_view(final(self).version) == Some(v@) && final(self).info,
                Checked::Newest => final(self).phase == Phase::Idle && final(self).version is None
                    && !final(self).info,
                Checked::Failed(e) => final(self).phase == Phase::Idle && opt_view(final(self).error)
                    == Some(e@) && opt_view(final(self).version) == opt_view(old(self).version)
                    && final(self).info == old(self).info,
            },
            final(self).progress == old(self).progress,
    {
        match checked {
            Checked::Found(version) => {
                self.version = Some(version);
                self.info = true;
                self.phase = Phase::Available;
            },
            Checked::Newest => {
                self.version = None;
                self.info = false;
                self.phase = Phase::Idle;
            },
            Checked::Failed(chain) => {
                self.error = Some(chain);
                self.phase = Phase::Idle;
            },
        }
    }

    /// The install is asked for. It starts when a found version is held:
    /// true then, the held manifest goes to the install.
    pub fn begin_install(&mut self) -> (started: bool)
        ensures
            started == old(self).info,
            started ==> final(self).phase == Phase::Installing && final(self).progress == 0
                && final(self).error is None && !final(self).info,
            !started ==> final(self).phase == old(self).phase && final(self).progress == old(self).progress
                && !final(self).info && opt_view(final(self).error) == opt_view(old(self).error),
            opt_view(final(self).version) == opt_view(old(self).version),
    {
        if !self.info {
            return false;
        }
        self.info = false;
        self.phase = Phase::Installing;
        self.progress = 0;
        self.error = None;
        true
    }

    /// A new percent of the download.
    pub fn set_progress(&mut self, percent: u8)
        ensures
            final(self).progress == percent,
            final(self).phase == old(self).phase,
            final(self).info == old(self).info,
    {
        self.progress = percent;
    }

    /// The install ended. After a relaunch nothing is left to do, the state
    /// stays as it is. A failed
    /// relaunch leaves the error and an idle phase; a failed install also
    /// forgets the version. The error comes back for the toast.
    pub fn install_done(&mut self, installed: Installed) -> (shown: Option<String>)
        ensures
            match installed {
                Installed::Relaunched => shown is None && *final(self) == *old(self),
                Installed::RelaunchFailed(e) => opt_view(shown) == Some(e@) && final(self).phase
                    == Phase::Idle && opt_view(final(self).error) == Some(e@) && opt_view(final(self).version) == opt_view(old(self).version),
                Installed::Failed(e) => opt_view(shown) == Some(e@) && final(self).phase
                    == Phase::Idle && opt_view(final(self).error) == Some(e@) && final(self).version is None,
            },
            final(self).progress == old(self).progress,
            final(self).info == old(self).info,
    {
        match installed {
            Installed::Relaunched => None,
            Installed::RelaunchFailed(chain) => {
                self.error = Some(chain.clone());
                self.phase = Phase::Idle;
                Some(chain)
            },
            Installed::Failed(chain) => {
                self.error = Some(chain.clone());
                self.phase = Phase::Idle;
                self.version = None;
                Some(chain)
            },
        }
    }
}

/// The whole percent of `done` of `total` bytes, at most 100. None without
/// a size, then the server may answer with a page instead of the file.
pub open spec fn percent_of(done: u64, total: Option<u64>) -> Option<u8> {
    match total {
        Some(t) => if t > 0 {
            let scaled: nat = if done * 100 > u64::MAX { u64::MAX as nat } else { (done * 100) as nat };
            let p = scaled / (t as nat);
            Some(if p > 100 { 100u8 } else { p as u8 })
        } else {
            None
        },
        None => None,
    }
}

/// The percent of a download, with the multiplication saturating like the
/// downloader does it.
pub fn percent(done: u64, total: Option<u64>) -> (p: Option<u8>)
    ensures
        p == percent_of(done, total),
{
    match total {
        Some(t) if t > 0 => {
            let wide: u128 = done as u128 * 100;
            let scaled: u64 = if wide > u64::MAX as u128 { u64::MAX } else { wide as u64 };
            let p = scaled / t;
            Some(if p > 100 { 100 } else { p as u8 })
        },
        _ => None,
    }
}

/// The downloader reports every chunk; the bar changes only when the whole
/// percent does. `last` is the percent shown.
pub fn progress_step(last: &mut u8, done: u64, total: Option<u64>) -> (shown: Option<u8>)
    ensures
        shown == match percent_of(done, total) {
            Some(p) => if p != *old(last) {
                Some(p)
            } else {
                None
            },
            None => None,
        },
        *final(last) == match shown {
            Some(p) => p,
            None => *old(last),
        },
{
    match percent(done, total) {
        Some(p) => {
            if p != *last {
                *last = p;
                Some(p)
            } else {
                None
            }
        },
        None => None,
    }
}

/// The label of the update button, hidden when `None`.
pub open spec fn button_label(phase: Phase, version: Option<Seq<char>>, progress: u8) -> Option<Seq<char>> {
    match phase {
        Phase::Available => Some("Update Blackforge to "@ + match version {
            Some(v) => v,
            None => Seq::empty(),
        }),
        Phase::Installing => Some("Installing "@ + decimal(progress as nat) + "%"@),
        _ => None,
    }
}

/// The label of the update button in the status bar. It shows only when a
/// new version waits or installs.
pub fn button_text(state: &UpdateState) -> (label: Option<String>)
    ensures
        opt_view(label) == button_label(state.phase, opt_view(state.version), state.progress),
{
    match state.phase {
        Phase::Available => {
            let mut text = String::from_str("Update Blackforge to ");
            if let Some(v) = &state.version {
                text.append(v.as_str());
            }
            Some(text)
        },
        Phase::Installing => {
            let mut text = String::from_str("Installing ");
            let p = decimal_string(state.progress as u64);
            text.append(p.as_str());
            text.append("%");
            Some(text)
        },
        _ => None,
    }
}

/// The toast after a check the user asked for: the failure, the version
/// that is ready, or that this is the newest.
pub fn check_for_update(state: &UpdateState) -> (t: Toast)
    ensures
        match opt_view(state.error) {
            Some(e) => t.kind == Kind::Error && t.text@ == "The update check failed: "@ + e,
            None => if state.phase == Phase::Available || state.phase == Phase::Installing {
                t.kind == Kind::Info && t.text@ == "Version "@ + match opt_view(state.version) {
                    Some(v) => v,
                    None => Seq::empty(),
                } + " is ready, the button at the bottom installs it"@
            } else {
                t.kind == Kind::Success && t.text@ == "This is the newest version"@
            },
        },
{
    if let Some(e) = &state.error {
        let mut text = String::from_str("The update check failed: ");
        text.append(e.as_str());
        error(text)
    } else if state.has_update() {
        let mut text = String::from_str("Version ");
        if let Some(v) = &state.version {
            text.append(v.as_str());
        }
        text.append(" is ready, the button at the bottom installs it");
        info(text)
    } else {
        success(String::from_str("This is the newest version"))
    }
}

} // verus!
