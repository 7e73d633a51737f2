//! The pills of one mod in a row: its version, a note when the mod is a
//! dependency, pinned or disabled, and a red one when the server lists it as
//! broken on this game version.

use vstd::prelude::*;

verus! {

/// What a row says about a mod next to its version.
#[derive(Debug)]
pub enum Note {
    /// Asked for by the user, on its newest version, enabled.
    Plain,
    /// Pulled in by another mod.
    Dependency,
    /// Held at the version its server needs.
    Pinned(String),
    /// On the required list, every profile has it.
    Required,
    Disabled,
}

/// The entry of a mod in the manifest, as far as a note reads it.
#[derive(Debug)]
pub struct ModEntry {
    /// On the required list.
    pub required: bool,
    pub enabled: bool,
    /// The server whose version it is held at.
    pub server: Option<String>,
}

/// A note as the contracts see it: its kind and the server of a pin.
pub open spec fn note_view(note: Note) -> (int, Seq<char>) {
    match note {
        Note::Plain => (0, Seq::empty()),
        Note::Dependency => (1, Seq::empty()),
        Note::Pinned(server) => (2, server@),
        Note::Required => (3, Seq::empty()),
        Note::Disabled => (4, Seq::empty()),
    }
}

/// The note of a locked mod with the manifest entry `entry`, as
/// `note_view` numbers it.
pub open spec fn note_of(entry: Option<&ModEntry>) -> (int, Seq<char>) {
    match entry {
        None => (1int, Seq::<char>::empty()),
        Some(e) => if e.required {
            (3int, Seq::<char>::empty())
        } else if !e.enabled {
            (4int, Seq::<char>::empty())
        } else {
            match e.server {
                Some(s) => (2int, s@),
                None => (0int, Seq::<char>::empty()),
            }
        },
    }
}

impl Note {
    /// The note of a locked mod, from its entry in the manifest. A mod the
    /// manifest does not name is there for another mod.
    pub fn of(entry: Option<&ModEntry>) -> (n: Note)
        ensures
            note_view(n) == note_of(entry),
    {
        match entry {
            None => Note::Dependency,
            Some(e) => {
                if e.required {
                    Note::Required
                } else if !e.enabled {
                    Note::Disabled
                } else {
                    match &e.server {
                        Some(server) => Note::Pinned(server.clone()),
                        None => Note::Plain,
                    }
                }
            },
        }
    }

    /// The icon and the text of the note pill, none for a plain mod.
    pub fn icon_and_text(&self) -> (r: Option<(&'static str, String)>)
        ensures
            match *self {
                Note::Plain => r is None,
                Note::Dependency => r matches Some((i, t)) && i@ == "pill_dependency.svg"@ && t@
                    == "dependency"@,
                Note::Pinned(server) => r matches Some((i, t)) && i@ == "pill_pinned.svg"@ && t@
                    == "pinned for "@ + server@,
                Note::Required => r matches Some((i, t)) && i@ == "pill_pinned.svg"@ && t@
                    == "required"@,
                Note::Disabled => r matches Some((i, t)) && i@ == "pill_disabled.svg"@ && t@
                    == "disabled"@,
            },
    {
        match self {
            Note::Plain => None,
            Note::Dependency => Some(("pill_dependency.svg", String::from_str("dependency"))),
            Note::Pinned(server) => {
                let mut text = String::from_str("pinned for ");
                text.append(server.as_str());
                Some(("pill_pinned.svg", text))
            },
            Note::Required => Some(("pill_pinned.svg", String::from_str("required"))),
            Note::Disabled => Some(("pill_disabled.svg", String::from_str("disabled"))),
        }
    }

    /// How the details of a mod say it is installed, after its version.
    pub fn how_installed(&self) -> (r: String)
        ensures
            r@ == match *self {
                Note::Plain => Seq::<char>::empty(),
                Note::Dependency => ", as a dependency"@,
                Note::Pinned(server) => ", pinned for "@ + server@,
                Note::Required => ", required"@,
                Note::Disabled => ", disabled"@,
            },
    {
        match self {
            Note::Plain => String::new(),
            Note::Dependency => String::from_str(", as a dependency"),
            Note::Pinned(server) => {
                let mut text = String::from_str(", pinned for ");
                text.append(server.as_str());
                text
            },
            Note::Required => String::from_str(", required"),
            Note::Disabled => String::from_str(", disabled"),
        }
    }
}

} // verus!
