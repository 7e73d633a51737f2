//! Ways out of the app for the active profile: an r2modman code, an export
//! file, and a plain folder for a rented or Docker server.

use vstd::prelude::*;
use crate::mods_page::{sync_summary, sync_text};
use crate::text::{decimal, push_decimal};

verus! {

/// The name of the export file of a profile.
pub fn export_name(profile: &str) -> (r: String)
    ensures
        r@ == profile@ + ".r2z"@,
{
    let mut text = String::from_str(profile);
    text.append(".r2z");
    text
}

/// The toast after a file was written.
pub fn wrote_text(path: &str) -> (r: String)
    ensures
        r@ == "wrote "@ + path@,
{
    let mut text = String::from_str("wrote ");
    text.append(path);
    text
}

/// The toast after a deploy: where, what the install did, and what became
/// of the config files at the target.
pub fn deployed_text(
    folder: &str,
    installed: u64,
    removed: u64,
    unchanged: u64,
    written: usize,
    kept: usize,
) -> (r: String)
    ensures
        r@ == "deployed to "@ + folder@ + ", "@ + sync_text(installed as nat, removed as nat, unchanged as nat)
            + ", "@ + decimal(written as nat) + " configs written, "@ + decimal(kept as nat) + " kept"@,
{
    let mut text = String::from_str("deployed to ");
    text.append(folder);
    text.append(", ");
    let summary = sync_summary(installed, removed, unchanged);
    text.append(summary.as_str());
    text.append(", ");
    push_decimal(&mut text, written as u64);
    text.append(" configs written, ");
    push_decimal(&mut text, kept as u64);
    text.append(" kept");
    text
}

} // verus!
