//! The cloud sync card above the Mods list. Sync runs by itself, so the card
//! only says how it goes.

use vstd::prelude::*;
use crate::cloud::{Status, status_text};

verus! {

/// The card is on screen only on the Mods page.
#[derive(Debug)]
pub struct SyncPanel {
    pub open: bool,
}

impl SyncPanel {
    /// The sync status changed. The card shows it again when it is open;
    /// nothing happens while another page is open. True when it redraws.
    pub fn refresh(&self) -> (redraw: bool)
        ensures
            redraw == self.open,
    {
        self.open
    }

    /// A setup from the cloud was installed: an open page reads its mods
    /// again. True when it does.
    pub fn applied(&self) -> (reload: bool)
        ensures
            reload == self.open,
    {
        self.open
    }
}

/// The line under the title of the card at the time `now`: the sync status
/// when signed in, the reason to sign in otherwise.
pub fn panel_text(signed_in: bool, status: &Status, now: i64) -> (text: String)
    ensures
        signed_in ==> text@ == status_text(status@, now),
        !signed_in ==> text@ == "Sign in to keep your mods and settings the same on every machine."@,
{
    if signed_in {
        status.text_at(now)
    } else {
        String::from_str("Sign in to keep your mods and settings the same on every machine.")
    }
}

} // verus!
