//! The checks of everything a run depends on: the dot on the sidebar when
//! one fails, the button a failed check gets, and the text of its detail.

use vstd::prelude::*;
use crate::hint::{Fix, hinted, with_hint};
use crate::nav_item::Badge;
use crate::text::{decimal, push_decimal};

verus! {

/// How a check came out.
#[derive(Clone, Copy, Debug, PartialEq, Eq, Structural)]
pub enum Health {
    Fine,
    /// Worth a look, but nothing fails.
    Warning,
    Problem,
}

/// One check of the setup.
#[derive(Debug)]
pub struct Check {
    pub status: Health,
    /// What was found.
    pub detail: String,
    /// The way out the core knows.
    pub fix: Option<Fix>,
}

/// Some check of `checks` found a problem.
pub open spec fn any_problem(checks: Seq<Check>) -> bool {
    exists|i: int| 0 <= i < checks.len() && #[trigger] checks[i].status == Health::Problem
}

/// The sidebar entry shows a dot when a check found a problem.
pub fn badge_of(checks: &Vec<Check>) -> (b: Badge)
    ensures
        b == if any_problem(checks@) { Badge::Alert } else { Badge::Nothing },
{
    let mut i: usize = 0;
    while i < checks.len()
        invariant
            i <= checks.len(),
            forall|j: int| 0 <= j < i ==> #[trigger] checks@[j].status != Health::Problem,
        decreases checks.len() - i,
    {
        if checks[i].status == Health::Problem {
            return Badge::Alert;
        }
        i = i + 1;
    }
    Badge::Nothing
}

/// The label of the button for a fix the window does itself.
pub open spec fn fix_text(fix: Fix) -> Option<Seq<char>> {
    match fix {
        Fix::GiveGameFolder => Some("Pick game folder"@),
        Fix::Sync => Some("Install missing files"@),
        Fix::StartSteam => Some("Open Steam"@),
        _ => None,
    }
}

/// The button a failed check gets, when the window can do the fix itself.
pub fn fix_label(fix: Fix) -> (r: Option<&'static str>)
    ensures
        match (r, fix_text(fix)) {
            (Some(a), Some(b)) => a@ == b,
            (None, None) => true,
            _ => false,
        },
{
    match fix {
        Fix::GiveGameFolder => Some("Pick game folder"),
        Fix::Sync => Some("Install missing files"),
        Fix::StartSteam => Some("Open Steam"),
        Fix::CreateProfile | Fix::PickProfile => None,
    }
}

/// The detail with the way out, unless a button on the row does it.
pub fn detail_text(check: &Check) -> (r: String)
    ensures
        r@ == match check.fix {
            Some(f) => if fix_text(f) is Some {
                check.detail@
            } else {
                hinted(check.detail@, Some(f))
            },
            None => check.detail@,
        },
{
    let fix = match check.fix {
        Some(f) => if fix_label(f).is_some() {
            None
        } else {
            Some(f)
        },
        None => None,
    };
    with_hint(check.detail.as_str(), fix)
}

/// The fix button of a row: only a check that is not fine, and only a fix
/// the window does itself.
pub fn row_fix(check: &Check) -> (r: Option<&'static str>)
    ensures
        match r {
            Some(l) => check.status != Health::Fine && (check.fix matches Some(f) && fix_text(f)
                == Some(l@)),
            None => check.status == Health::Fine || match check.fix {
                Some(f) => fix_text(f) is None,
                None => true,
            },
        },
{
    if check.status == Health::Fine {
        return None;
    }
    match check.fix {
        Some(f) => fix_label(f),
        None => None,
    }
}

/// How many checks found a problem.
pub open spec fn problems_of(checks: Seq<Check>) -> nat
    decreases checks.len(),
{
    if checks.len() == 0 {
        0
    } else {
        problems_of(checks.drop_last()) + if checks.last().status == Health::Problem {
            1nat
        } else {
            0nat
        }
    }
}

/// The line under the title after the checks ran.
pub open spec fn problems_text(problems: nat) -> Seq<char> {
    if problems == 0 {
        "No problems found"@
    } else if problems == 1 {
        "1 check found a problem"@
    } else {
        decimal(problems) + " checks found a problem"@
    }
}

/// The line under the title after the checks ran: how many found a problem.
pub fn problems_line(checks: &Vec<Check>) -> (r: String)
    ensures
        r@ == problems_text(problems_of(checks@)),
{
    let mut problems: usize = 0;
    let mut i: usize = 0;
    while i < checks.len()
        invariant
            i <= checks.len(),
            problems <= i,
            problems == problems_of(checks@.take(i as int)),
        decreases checks.len() - i,
    {
        assert(checks@.take(i + 1).drop_last() == checks@.take(i as int));
        if checks[i].status == Health::Problem {
            problems = problems + 1;
        }
        i = i + 1;
    }
    assert(checks@.take(checks.len() as int) == checks@);
    if problems == 0 {
        String::from_str("No problems found")
    } else if problems == 1 {
        String::from_str("1 check found a problem")
    } else {
        let mut text = String::new();
        push_decimal(&mut text, problems as u64);
        text.append(" checks found a problem");
        text
    }
}

/// What the fix button of a check does.
#[derive(Clone, Copy, Debug, PartialEq, Eq, Structural)]
pub enum FixAction {
    /// Ask for the game folder; the core remembers it.
    PickGameFolder,
    /// Install the missing files.
    InstallMissing,
    /// Start Steam, the checks run again after a few seconds.
    OpenSteam,
}

/// What the fix button of a check does; the profile fixes have none here.
pub fn fix_action(fix: Fix) -> (a: Option<FixAction>)
    ensures
        a == match fix {
            Fix::GiveGameFolder => Some(FixAction::PickGameFolder),
            Fix::Sync => Some(FixAction::InstallMissing),
            Fix::StartSteam => Some(FixAction::OpenSteam),
            _ => None::<FixAction>,
        },
        a is Some <==> fix_text(fix) is Some,
{
    match fix {
        Fix::GiveGameFolder => Some(FixAction::PickGameFolder),
        Fix::Sync => Some(FixAction::InstallMissing),
        Fix::StartSteam => Some(FixAction::OpenSteam),
        Fix::CreateProfile | Fix::PickProfile => None,
    }
}

/// The toast after the missing files were installed.
pub fn files_installed(count: usize) -> (r: String)
    ensures
        r@ == decimal(count as nat) + " files installed"@,
{
    let mut text = String::new();
    push_decimal(&mut text, count as u64);
    text.append(" files installed");
    text
}

/// The toast after a game folder was picked and the core found the game.
pub fn game_folder_text(dir: &str) -> (r: String)
    ensures
        r@ == "The game is in "@ + dir@,
{
    let mut text = String::from_str("The game is in ");
    text.append(dir);
    text
}

} // verus!
