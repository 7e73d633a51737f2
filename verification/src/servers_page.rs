//! What the Servers page says of a server: the note of a mod the profile
//! lacks for it, and the toast after its mods were installed.

use vstd::prelude::*;
use crate::names::{title, title_of};
use crate::text::{decimal, join, push_decimal, same_text};
use crate::time::{ago_at, elapsed, time_ago};
use crate::toast::{Kind, Toast, info};

verus! {

/// What the profile lacks of a mod of the server.
#[derive(Debug)]
pub struct Lack {
    pub missing: bool,
    pub other_version: bool,
    pub disabled: bool,
}

/// The note of a mod the profile lacks for the server, `None` when it has
/// it. A missing mod is missing first, then of the wrong version, then
/// disabled.
pub fn lacks(lack: &Lack) -> (r: Option<&'static str>)
    ensures
        match r {
            Some(n) => (lack.missing && n@ == "missing"@) || (!lack.missing && lack.other_version
                && n@ == "wrong version"@) || (!lack.missing && !lack.other_version && lack.disabled
                && n@ == "disabled"@),
            None => !lack.missing && !lack.other_version && !lack.disabled,
        },
{
    if lack.missing {
        Some("missing")
    } else if lack.other_version {
        Some("wrong version")
    } else if lack.disabled {
        Some("disabled")
    } else {
        None
    }
}

/// The parts of the install toast for what it did, before the files.
pub open spec fn install_parts(missing: nat, other_version: nat, disabled: nat) -> Seq<Seq<char>> {
    let a = if missing > 0 { seq![decimal(missing) + " mods added"@] } else { Seq::empty() };
    let b = if other_version > 0 {
        seq![decimal(other_version) + " moved to the server version"@]
    } else {
        Seq::empty()
    };
    let c = if disabled > 0 { seq![decimal(disabled) + " enabled"@] } else { Seq::empty() };
    a + b + c
}

/// What the install for a server did, for the toast.
pub open spec fn install_text(missing: nat, other_version: nat, disabled: nat, installed: nat) -> Seq<char> {
    let parts = install_parts(missing, other_version, disabled);
    if parts.len() == 0 {
        "you had everything already"@
    } else {
        join(parts.push(decimal(installed) + " files installed"@), ", "@)
    }
}

/// What the install for a server did: the mods it added, moved and enabled,
/// and the files it installed.
pub fn install_summary(missing: u64, other_version: u64, disabled: u64, installed: u64) -> (text: String)
    ensures
        text@ == install_text(missing as nat, other_version as nat, disabled as nat, installed as nat),
{
    let ghost parts = install_parts(missing as nat, other_version as nat, disabled as nat);
    if missing == 0 && other_version == 0 && disabled == 0 {
        assert(parts.len() == 0);
        return String::from_str("you had everything already");
    }
    let mut text = String::new();
    let mut any = false;
    let ghost mut done: Seq<Seq<char>> = Seq::empty();
    if missing > 0 {
        push_decimal(&mut text, missing);
        text.append(" mods added");
        proof {
            done = done.push(decimal(missing as nat) + " mods added"@);
        }
        any = true;
        assert(text@ == join(done, ", "@));
    }
    if other_version > 0 {
        if any {
            text.append(", ");
        }
        any = true;
        push_decimal(&mut text, other_version);
        text.append(" moved to the server version");
        proof {
            crate::text::lemma_join_push(done, ", "@, decimal(other_version as nat) + " moved to the server version"@);
            done = done.push(decimal(other_version as nat) + " moved to the server version"@);
        }
        assert(text@ == join(done, ", "@));
    }
    if disabled > 0 {
        if any {
            text.append(", ");
        }
        push_decimal(&mut text, disabled);
        text.append(" enabled");
        proof {
            crate::text::lemma_join_push(done, ", "@, decimal(disabled as nat) + " enabled"@);
            done = done.push(decimal(disabled as nat) + " enabled"@);
        }
        assert(text@ == join(done, ", "@));
    }
    assert(done == parts);
    text.append(", ");
    push_decimal(&mut text, installed);
    text.append(" files installed");
    proof {
        crate::text::lemma_join_push(done, ", "@, decimal(installed as nat) + " files installed"@);
    }
    text
}

/// The install button of a server the profile is not ready for.
pub fn install_label(count: usize) -> (r: String)
    ensures
        r@ == if count == 1 { "Install 1 mod"@ } else { "Install "@ + decimal(count as nat) + " mods"@ },
{
    if count == 1 {
        return String::from_str("Install 1 mod");
    }
    let mut r = String::from_str("Install ");
    push_decimal(&mut r, count as u64);
    r.append(" mods");
    r
}

/// The line under the name of a server at the time `now`: its owner, how
/// many mods it requires, and when it was updated.
pub fn owner_line(owner: &str, mods: usize, updated: i64, now: i64) -> (r: String)
    ensures
        r@ == "By "@ + owner@ + ", "@ + decimal(mods as nat) + " mods, updated "@ + time_ago(
            elapsed(now, updated),
        ),
{
    let mut text = String::from_str("By ");
    text.append(owner);
    text.append(", ");
    push_decimal(&mut text, mods as u64);
    text.append(" mods, updated ");
    let ago = ago_at(now, updated);
    text.append(ago.as_str());
    text
}

/// The pill of a mod of a server: its readable name and version.
pub fn chip_text(id: &str, version: &str) -> (r: String)
    ensures
        r@ == title_of(id@) + " "@ + version@,
{
    let mut text = title(id);
    text.append(" ");
    text.append(version);
    text
}

/// The last pill when not all mods fit.
pub fn more_text(left: usize) -> (r: String)
    ensures
        r@ == "+"@ + decimal(left as nat) + " more"@,
{
    let mut text = String::from_str("+");
    push_decimal(&mut text, left as u64);
    text.append(" more");
    text
}

/// A row is mine when the server is registered under my username. Signed
/// out, or when the lookup failed, no row is.
pub fn is_mine(me: Option<&str>, owner: &str) -> (r: bool)
    ensures
        r == (me matches Some(m) && m@ == owner@),
{
    match me {
        Some(m) => same_text(m, owner),
        None => false,
    }
}

/// Registering a server needs an account: the toast that says so when
/// there is none.
pub fn register_refusal(signed_in: bool) -> (t: Option<Toast>)
    ensures
        signed_in ==> t is None,
        !signed_in ==> (t matches Some(t) && t.kind == Kind::Info && t.text@
            == "sign in on the Friends page to register a server"@),
{
    if signed_in {
        None
    } else {
        Some(info(String::from_str("sign in on the Friends page to register a server")))
    }
}

/// The question before a server leaves the list.
pub fn delete_question(name: &str) -> (r: String)
    ensures
        r@ == "Remove "@ + name@ + " from the list? The mods of nobody change."@,
{
    let mut text = String::from_str("Remove ");
    text.append(name);
    text.append(" from the list? The mods of nobody change.");
    text
}

/// The toast after a server left the list.
pub fn removed_text(name: &str) -> (r: String)
    ensures
        r@ == name@ + " is removed"@,
{
    let mut text = String::from_str(name);
    text.append(" is removed");
    text
}

/// The title of the install of the mods of a server, for the status bar.
pub fn install_title(name: &str) -> (r: String)
    ensures
        r@ == "installing the mods of "@ + name@,
{
    let mut text = String::from_str("installing the mods of ");
    text.append(name);
    text
}

/// The toast after the install for a server: its name, then what it did.
pub fn installed_text(name: &str, missing: u64, other_version: u64, disabled: u64, installed: u64) -> (r: String)
    ensures
        r@ == name@ + ": "@ + install_text(missing as nat, other_version as nat, disabled as nat, installed as nat),
{
    let mut text = String::from_str(name);
    text.append(": ");
    let summary = install_summary(missing, other_version, disabled, installed);
    text.append(summary.as_str());
    text
}

} // verus!
