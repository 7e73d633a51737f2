//! The game behind a start through Steam. On Windows the app starts
//! `steam.exe -applaunch`, which hands the game to the running Steam and exits
//! at once. So the app waits on the game itself: until it shows up, then
//! until it exits. Here is that wait as steps, one look at a time.

use vstd::prelude::*;

verus! {

/// Steam can ask about the start arguments first, or update itself: the
/// game may take this many seconds to show up.
pub const APPEAR_SECONDS: u32 = 120;
/// The process list is read this often, in seconds.
pub const LOOK_SECONDS: u32 = 2;

/// What the wait does after a look.
#[derive(Clone, Copy, Debug, PartialEq, Eq, Structural)]
pub enum Next {
    /// Look again at once.
    Look,
    /// Sleep `LOOK_SECONDS`, then look again.
    Sleep,
    /// The wait is over: true when the game showed up and exited, false
    /// when it never showed up.
    Done(bool),
}

/// The wait for the game.
#[derive(Debug)]
pub struct GameWait {
    /// The game showed up.
    pub seen: bool,
    /// Seconds waited for it to show up.
    pub waited: u32,
}

impl GameWait {
    /// Nothing seen, nothing waited.
    pub fn new() -> (w: GameWait)
        ensures
            !w.seen,
            w.waited == 0,
    {
        GameWait { seen: false, waited: 0 }
    }

    /// What the wait knows holds: the seconds grow in steps of a look, and
    /// stay within the time the game has to show up.
    pub open spec fn well_formed(&self) -> bool {
        self.waited <= APPEAR_SECONDS && self.waited % LOOK_SECONDS == 0
    }

    /// A look found the game `running` or not.
    pub fn looked(&mut self, running: bool) -> (next: Next)
        requires
            old(self).well_formed(),
        ensures
            final(self).well_formed(),
            !old(self).seen && running ==> next == Next::Look && final(self).seen && final(self).waited
                == old(self).waited,
            !old(self).seen && !running && old(self).waited >= APPEAR_SECONDS ==> next == Next::Done(false) && final(self).seen == old(self).seen && final(self).waited == old(self).waited,
            !old(self).seen && !running && old(self).waited < APPEAR_SECONDS ==> next == Next::Sleep
                && !final(self).seen && final(self).waited == old(self).waited + LOOK_SECONDS,
            old(self).seen && running ==> next == Next::Sleep && final(self).seen && final(self).waited
                == old(self).waited,
            old(self).seen && !running ==> next == Next::Done(true) && final(self).seen && final(self).waited == old(self).waited,
    {
        if !self.seen {
            if running {
                self.seen = true;
                return Next::Look;
            }
            if self.waited >= APPEAR_SECONDS {
                return Next::Done(false);
            }
            self.waited = self.waited + LOOK_SECONDS;
            Next::Sleep
        } else if running {
            Next::Sleep
        } else {
            Next::Done(true)
        }
    }
}

} // verus!
