//! While a change of the profile runs, every button that starts one is off,
//! and the pressed one says what it does next to a turning ring. Buttons are
//! known here by the ids the window gives them.

use vstd::prelude::*;

verus! {

/// The button that was pressed, with the text it had.
#[derive(Debug)]
pub struct Pressed {
    pub button: u64,
    pub text: String,
}

/// The buttons that start a change of the profile.
#[derive(Debug)]
pub struct Buttons {
    pub watched: Vec<u64>,
    pub pressed: Option<Pressed>,
}

impl Buttons {
    /// No button known.
    pub fn new() -> (b: Buttons)
        ensures
            b.watched@.len() == 0,
            b.pressed is None,
    {
        Buttons { watched: Vec::new(), pressed: None }
    }

    /// `button` starts a change of the profile, so it is off while one runs.
    /// It comes back whether it is on now.
    pub fn track(&mut self, button: u64, busy: bool) -> (enabled: bool)
        ensures
            final(self).watched@ == old(self).watched@.push(button),
            enabled == !busy,
    {
        self.watched.push(button);
        !busy
    }

    /// `button` was pressed and its change is about to start, it shows its
    /// working text until the change ends. Nothing happens while a change
    /// runs. True when the button now shows it works.
    pub fn press(&mut self, button: u64, text: String, busy: bool) -> (working: bool)
        ensures
            working == !busy,
            !busy ==> (final(self).pressed matches Some(p) && p.button == button && p.text@ == text@),
            final(self).watched@ == old(self).watched@,
    {
        if busy {
            return false;
        }
        self.pressed = Some(Pressed { button, text });
        true
    }

    /// A change started or ended. Every watched button is on exactly when
    /// no change runs; at the end the pressed button gets its text back.
    pub fn changed(&mut self, busy: bool) -> (r: (bool, Option<Pressed>))
        ensures
            r.0 == !busy,
            busy ==> r.1 is None && final(self).pressed == old(self).pressed,
            !busy ==> final(self).pressed is None && r.1 == old(self).pressed,
            final(self).watched@ == old(self).watched@,
    {
        if busy {
            return (false, None);
        }
        let pressed = self.pressed.take();
        (true, pressed)
    }
}

} // verus!
