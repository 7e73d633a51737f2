//! Starts the game with the mods of the profile. A start runs through
//! steps, shown on the run button: a sync with the cloud when signed in,
//! the start itself, and the game running until it exits.

use vstd::prelude::*;
use crate::cloud::Launch;
use crate::hint::{Fix, hinted};
use crate::social::{Social, next_run};
use crate::toast::{Kind, Toast, failure, success};
use crate::text::{chars_of, is_space, is_space_char, split_words, views, words};

verus! {

/// Steam is looked for this often on a Mac, in seconds.
pub const STEAM_SECONDS: u32 = 3;

/// Where a start of the game is, shown on the run button.
#[derive(Clone, Copy, Debug, PartialEq, Eq, Structural)]
pub enum Run {
    Idle,
    Syncing,
    Starting,
    Running,
}

impl Run {
    /// The number a run is kept as.
    pub open spec fn code(self) -> u8 {
        match self {
            Run::Idle => 0,
            Run::Syncing => 1,
            Run::Starting => 2,
            Run::Running => 3,
        }
    }

    /// The number this run is kept as.
    pub fn to_u8(self) -> (n: u8)
        ensures
            n == self.code(),
    {
        match self {
            Run::Idle => 0,
            Run::Syncing => 1,
            Run::Starting => 2,
            Run::Running => 3,
        }
    }

    /// The run a number stands for, idle for an unknown one.
    pub fn from_u8(value: u8) -> (r: Run)
        ensures
            r == match value {
                1 => Run::Syncing,
                2 => Run::Starting,
                3 => Run::Running,
                _ => Run::Idle,
            },
            value <= 3 ==> r.code() == value,
    {
        match value {
            1 => Run::Syncing,
            2 => Run::Starting,
            3 => Run::Running,
            _ => Run::Idle,
        }
    }
}

/// What the app does next for a start.
#[derive(Clone, Copy, Debug, PartialEq, Eq, Structural)]
pub enum Step {
    /// Nothing: a start runs already, or this one ended.
    Nothing,
    /// Sync with the cloud before the start.
    Sync,
    /// Open the conflict dialog, the user settles the sync first.
    AskConflict,
    /// Start the game, looking for it in the launch folder when one was
    /// picked by hand.
    Launch,
    /// Wait for the game to exit.
    Wait,
    /// Steam does not know the game, ask for its folder.
    AskFolder,
    /// Show the failure.
    Fail,
}

/// The run state of the session.
#[derive(Debug)]
pub struct Launcher {
    pub run: Run,
    /// The game needs the Steam app and it does not run.
    pub steam_missing: bool,
    /// The game folder the start under way looks in, picked by hand; `None`
    /// lets Steam find the game.
    pub folder: Option<String>,
}

/// How a start of the game went.
#[derive(Debug)]
pub enum Started {
    /// The game runs, `label` names it: its display name and the target.
    Running { label: String },
    /// Steam does not know the game, the user has to point at the folder.
    NotFound { game: String },
    /// The start failed, with the error chain and the way out the core
    /// knows.
    Failed { chain: String, fix: Option<Fix> },
}

/// How a started game is named in the toast: its display name and the
/// target of the profile.
pub fn game_label(display_name: &str, target: &str) -> (r: String)
    ensures
        r@ == display_name@ + " "@ + target@,
{
    let mut text = String::from_str(display_name);
    text.append(" ");
    text.append(target);
    text
}

impl Launcher {
    /// Nothing runs, Steam is not known to be missing.
    pub fn new() -> (l: Launcher)
        ensures
            l.run == Run::Idle,
            !l.steam_missing,
            l.folder is None,
    {
        Launcher { run: Run::Idle, steam_missing: false, folder: None }
    }

    /// Where the start is.
    pub fn run(&self) -> (r: Run)
        ensures
            r == self.run,
    {
        self.run
    }

    /// A start is under way or the game runs.
    pub fn running(&self) -> (r: bool)
        ensures
            r == (self.run != Run::Idle),
    {
        self.run != Run::Idle
    }

    /// The game needs the Steam app and it does not run.
    pub fn steam_missing(&self) -> (r: bool)
        ensures
            r == self.steam_missing,
    {
        self.steam_missing
    }

    /// The run button was pressed. The button is off while a start runs, so
    /// a second start is refused. A signed in start syncs first, and Steam
    /// finds the game.
    pub fn run_game(&mut self, signed_in: bool) -> (step: Step)
        ensures
            old(self).run != Run::Idle ==> step == Step::Nothing && final(self).run == old(self).run
                && final(self).folder == old(self).folder,
            old(self).run == Run::Idle && signed_in ==> step == Step::Sync && final(self).run
                == Run::Syncing,
            old(self).run == Run::Idle && !signed_in ==> step == Step::Launch && final(self).run
                == Run::Starting,
            old(self).run == Run::Idle ==> final(self).folder is None,
            final(self).steam_missing == old(self).steam_missing,
    {
        self.start(signed_in, None)
    }

    /// A start with a game folder picked by hand. It goes like any start,
    /// and the launch looks for the game in `folder`, which wins over the
    /// Steam lookup. A start under way refuses it and keeps its own folder.
    pub fn run_game_from(&mut self, signed_in: bool, folder: String) -> (step: Step)
        ensures
            old(self).run != Run::Idle ==> step == Step::Nothing && final(self).run == old(self).run
                && final(self).folder == old(self).folder,
            old(self).run == Run::Idle && signed_in ==> step == Step::Sync && final(self).run
                == Run::Syncing,
            old(self).run == Run::Idle && !signed_in ==> step == Step::Launch && final(self).run
                == Run::Starting,
            old(self).run == Run::Idle ==> final(self).folder == Some(folder),
            final(self).steam_missing == old(self).steam_missing,
    {
        self.start(signed_in, Some(folder))
    }

    /// A start that looks for the game in `folder`, or through Steam.
    fn start(&mut self, signed_in: bool, folder: Option<String>) -> (step: Step)
        ensures
            old(self).run != Run::Idle ==> step == Step::Nothing && final(self).run == old(self).run
                && final(self).folder == old(self).folder,
            old(self).run == Run::Idle && signed_in ==> step == Step::Sync && final(self).run
                == Run::Syncing,
            old(self).run == Run::Idle && !signed_in ==> step == Step::Launch && final(self).run
                == Run::Starting,
            old(self).run == Run::Idle ==> final(self).folder == folder,
            final(self).steam_missing == old(self).steam_missing,
    {
        if self.run != Run::Idle {
            return Step::Nothing;
        }
        self.folder = folder;
        if signed_in {
            self.run = Run::Syncing;
            Step::Sync
        } else {
            self.run = Run::Starting;
            Step::Launch
        }
    }

    /// The folder the launch looks for the game in: the one picked by hand
    /// for this start, `None` for the Steam lookup.
    pub fn launch_folder(&self) -> (r: Option<&str>)
        ensures
            match self.folder {
                Some(f) => r matches Some(g) && g@ == f@,
                None => r is None,
            },
    {
        match &self.folder {
            Some(f) => Some(f.as_str()),
            None => None,
        }
    }

    /// The sync before a start ended: `None` when it failed.
    pub fn synced(&mut self, launch: Option<Launch>) -> (step: Step)
        ensures
            match launch {
                Some(Launch::Ready) => step == Step::Launch && final(self).run == Run::Starting,
                Some(Launch::Conflict) => step == Step::AskConflict && final(self).run == old(self).run,
                None => step == Step::Fail && final(self).run == Run::Idle,
            },
            final(self).folder == old(self).folder,
            final(self).steam_missing == old(self).steam_missing,
    {
        match launch {
            Some(Launch::Ready) => {
                self.run = Run::Starting;
                Step::Launch
            },
            Some(Launch::Conflict) => Step::AskConflict,
            None => {
                self.run = Run::Idle;
                Step::Fail
            },
        }
    }

    /// The conflict before a start was settled or not. Settled, the game
    /// starts; otherwise the start ends.
    pub fn settled(&mut self, settled: bool) -> (step: Step)
        ensures
            settled ==> step == Step::Launch && final(self).run == Run::Starting,
            !settled ==> step == Step::Nothing && final(self).run == Run::Idle,
            final(self).folder == old(self).folder,
            final(self).steam_missing == old(self).steam_missing,
    {
        if settled {
            self.run = Run::Starting;
            Step::Launch
        } else {
            self.run = Run::Idle;
            Step::Nothing
        }
    }

    /// The start of the game ended. A game that runs is announced by a toast
    /// and begins a new run of the in game reports, a failed start shows its
    /// error, and every way out that starts no game sets the run back to
    /// idle. The launch has used the folder of the start.
    pub fn launched(&mut self, social: &mut Social, started: Started) -> (r: (Step, Option<Toast>))
        ensures
            match started {
                Started::Running { label } => r.0 == Step::Wait && final(self).run == Run::Running
                    && (r.1 matches Some(t) && t.kind == Kind::Success && t.text@ == "Started "@
                    + label@) && final(social).game_run == next_run(old(social).game_run),
                Started::NotFound { .. } => r.0 == Step::AskFolder && final(self).run == Run::Idle
                    && r.1 is None && final(social).game_run == old(social).game_run,
                Started::Failed { chain, fix } => r.0 == Step::Fail && final(self).run == Run::Idle
                    && (r.1 matches Some(t) && t.kind == Kind::Error && t.text@ == hinted(chain@, fix))
                    && final(social).game_run == old(social).game_run,
            },
            final(social).last_upload == old(social).last_upload,
            final(self).folder is None,
            final(self).steam_missing == old(self).steam_missing,
    {
        self.folder = None;
        match started {
            Started::Running { label } => {
                self.run = Run::Running;
                let mut text = String::from_str("Started ");
                text.append(label.as_str());
                social.game_started();
                (Step::Wait, Some(success(text)))
            },
            Started::NotFound { .. } => {
                self.run = Run::Idle;
                (Step::AskFolder, None)
            },
            Started::Failed { chain, fix } => {
                self.run = Run::Idle;
                (Step::Fail, Some(failure(chain.as_str(), fix)))
            },
        }
    }

    /// The game exited, a new start can come, and the in game reports of its
    /// run end.
    pub fn exited(&mut self, social: &mut Social)
        ensures
            final(self).run == Run::Idle,
            final(self).folder == old(self).folder,
            final(self).steam_missing == old(self).steam_missing,
            final(social).game_run == next_run(old(social).game_run),
            final(social).last_upload == old(social).last_upload,
    {
        self.run = Run::Idle;
        social.game_exited();
    }

    /// A look for Steam found it `missing` or not. True when that changed,
    /// the run button and the Doctor badge follow then.
    pub fn steam_seen(&mut self, missing: bool) -> (changed: bool)
        ensures
            final(self).steam_missing == missing,
            changed == (old(self).steam_missing != missing),
            final(self).run == old(self).run,
            final(self).folder == old(self).folder,
    {
        let changed = self.steam_missing != missing;
        self.steam_missing = missing;
        changed
    }
}

/// Whether the game waits for Steam now: the profile target needs it and
/// it does not run. A failed look, of the profile or of Steam, counts as
/// not missing, and the log says why.
pub fn steam_missing_now(needed: Option<bool>, running: Option<bool>) -> (missing: bool)
    ensures
        missing == (needed == Some(true) && running == Some(false)),
{
    match needed {
        Some(true) => match running {
            Some(r) => !r,
            None => false,
        },
        _ => false,
    }
}

/// The game arguments of the launch settings, split at whitespace.
pub fn game_args(settings: &str) -> (args: Vec<String>)
    ensures
        views(args@) == words(settings@),
{
    split_words(settings)
}

/// The question when Steam does not know the game.
pub fn folder_question(game: &str) -> (q: String)
    ensures
        q@ == game@ + " was not found through Steam. Pick the game folder by hand?"@,
{
    let mut q = String::from_str(game);
    q.append(" was not found through Steam. Pick the game folder by hand?");
    q
}


/// What happens to the game arguments an older app kept in a file of its
/// own.
#[derive(Debug)]
pub enum OldArgs {
    /// There is no such file.
    Nothing,
    /// The file holds only whitespace, it goes away.
    Drop,
    /// The arguments move into the launch file of the profile, so cloud sync
    /// carries them, and the old file goes away after.
    Move(String),
}

/// Whether `s` holds only whitespace.
pub fn is_blank(s: &str) -> (r: bool)
    ensures
        r == forall|i: int| 0 <= i < s@.len() ==> is_space(#[trigger] s@[i]),
{
    let cs = chars_of(s);
    let mut i: usize = 0;
    while i < cs.len()
        invariant
            i <= cs.len(),
            cs@ == s@,
            forall|j: int| 0 <= j < i ==> is_space(#[trigger] cs@[j]),
        decreases cs.len() - i,
    {
        if !is_space_char(cs[i]) {
            return false;
        }
        i = i + 1;
    }
    true
}

/// What happens to the game arguments of an app before they moved into
/// the profile.
pub fn old_game_args(stored: Option<String>) -> (r: OldArgs)
    ensures
        match stored {
            None => r is Nothing,
            Some(args) => if forall|i: int| 0 <= i < args@.len() ==> is_space(#[trigger] args@[i]) {
                r is Drop
            } else {
                r matches OldArgs::Move(a) && a@ == args@
            },
        },
{
    match stored {
        None => OldArgs::Nothing,
        Some(args) => if is_blank(args.as_str()) {
            OldArgs::Drop
        } else {
            OldArgs::Move(args)
        },
    }
}

} // verus!
