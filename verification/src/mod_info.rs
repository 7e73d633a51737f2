//! The details of one Thunderstore package, as the details dialog shows
//! them: the facts line, what it needs, its versions, and how the profile
//! has it.

use vstd::prelude::*;
use crate::mod_pills::{ModEntry, Note, note_of, note_view};
use crate::server_modal::Locked;
use crate::names::{author, author_of, title, title_of};
use crate::pill::{compact, compact_text};
use crate::text::{same_text, decimal, join, lemma_join_push, push_decimal, views};
use crate::time::{ago_at, elapsed, parse, rfc3339_seconds, time_ago};

verus! {

/// Dependencies past this are counted, not named.
pub const SHOWN_NEEDS: usize = 6;
/// Versions past this are left out, the page has the full list.
pub const SHOWN_VERSIONS: usize = 10;

/// A package another one needs, at a version.
#[derive(Debug)]
pub struct Dependency {
    pub id: String,
    pub version: String,
}

/// A package of the list, as far as the details read it.
#[derive(Debug)]
pub struct PackageInfo {
    pub id: String,
    /// The version of the newest release, with what it needs.
    pub newest: Option<(String, Vec<Dependency>)>,
    /// Every release version, newest first.
    pub versions: Vec<String>,
    /// When the newest release came out, as RFC 3339 text.
    pub updated: String,
    pub downloads: u64,
    pub rating: u64,
    pub categories: Vec<String>,
    pub description: String,
    pub package_url: String,
    pub deprecated: bool,
}

/// The mod as the profile has it.
#[derive(Debug)]
pub struct Installed {
    pub version: String,
    pub note: Note,
}

impl Installed {
    /// The line of the details: the installed version and how.
    pub fn line(&self) -> (r: String)
        ensures
            r@ == "Installed "@ + self.version@ + match self.note {
                Note::Plain => Seq::<char>::empty(),
                Note::Dependency => ", as a dependency"@,
                Note::Pinned(server) => ", pinned for "@ + server@,
                Note::Required => ", required"@,
                Note::Disabled => ", disabled"@,
            },
    {
        let mut text = String::from_str("Installed ");
        text.append(self.version.as_str());
        let how = self.note.how_installed();
        text.append(how.as_str());
        text
    }
}

/// The version my lock holds of `id`: the first package of that id.
pub open spec fn locked_version(lock: Seq<Locked>, id: Seq<char>) -> Option<Seq<char>>
    decreases lock.len(),
{
    if lock.len() == 0 {
        None
    } else if lock[0].id@ == id {
        Some(lock[0].version@)
    } else {
        locked_version(lock.drop_first(), id)
    }
}

/// How the profile has the mod `id`: the version of its lock and the note
/// of its manifest entry `entry`; `None` when the lock does not hold it.
pub fn installed_of(id: &str, lock: &Vec<Locked>, entry: Option<&ModEntry>) -> (r: Option<Installed>)
    ensures
        match locked_version(lock@, id@) {
            None => r is None,
            Some(v) => r matches Some(i) && i.version@ == v && note_view(i.note) == note_of(entry),
        },
{
    let mut i: usize = 0;
    assert(lock@.skip(0) == lock@);
    while i < lock.len()
        invariant
            i <= lock.len(),
            locked_version(lock@, id@) == locked_version(lock@.skip(i as int), id@),
        decreases lock.len() - i,
    {
        assert(lock@.skip(i as int)[0] == lock@[i as int]);
        if same_text(lock[i].id.as_str(), id) {
            return Some(Installed { version: lock[i].version.clone(), note: Note::of(entry) });
        }
        assert(lock@.skip(i as int).drop_first() == lock@.skip(i + 1));
        i = i + 1;
    }
    None
}

/// The dependency as a reader knows it, like
/// `BepInExPack Valheim 5.4.2350, by denikson`.
pub open spec fn readable(id: Seq<char>, version: Seq<char>) -> Seq<char> {
    title_of(id) + " "@ + version + ", "@ + author_of(id)
}

/// The dependency as a reader knows it.
pub fn readable_dependency(dependency: &Dependency) -> (r: String)
    ensures
        r@ == readable(dependency.id@, dependency.version@),
{
    let mut text = title(dependency.id.as_str());
    text.append(" ");
    text.append(dependency.version.as_str());
    text.append(", ");
    let a = author(dependency.id.as_str());
    text.append(a.as_str());
    text
}

/// The readable lines of what a release needs.
pub open spec fn need_lines(deps: Seq<Dependency>) -> Seq<Seq<char>> {
    deps.map_values(|d: Dependency| readable(d.id@, d.version@))
}

/// The needs section: the first `SHOWN_NEEDS` lines, how many more there
/// are, or `Nothing`.
pub open spec fn needs_text(deps: Seq<Dependency>) -> Seq<char> {
    let lines = need_lines(deps);
    if lines.len() == 0 {
        "Nothing"@
    } else if lines.len() > SHOWN_NEEDS {
        join(
            lines.take(SHOWN_NEEDS as int).push("and "@ + decimal((lines.len() - SHOWN_NEEDS) as nat) + " more"@),
            seq!['\n'],
        )
    } else {
        join(lines, seq!['\n'])
    }
}

/// The facts line of a package at the time `now`.
pub open spec fn facts_text(p: PackageInfo, now: i64) -> Seq<char> {
    "Newest "@ + match p.newest {
        Some((v, _)) => v@,
        None => Seq::empty(),
    } + ", updated "@ + match rfc3339_seconds(p.updated@) {
        Some(at) => time_ago(elapsed(now, at)),
        None => p.updated@,
    } + ", "@ + compact_text(p.downloads as nat) + " downloads, rating "@ + decimal(p.rating as nat)
}

/// Why the details warn of a broken mod: since which game version, and the
/// version of this game.
pub open spec fn broken_text(broken: Option<(Seq<char>, Seq<char>)>) -> Seq<char> {
    match broken {
        Some((since, game)) => "Broken on game version "@ + since + " and later, this game is on "@
            + game,
        None => Seq::empty(),
    }
}

/// What the details dialog shows of a package.
#[derive(Debug)]
pub struct ModDetails {
    pub id: String,
    pub newest: String,
    pub facts: String,
    /// When the newest release came out, for the tooltip of the facts, and
    /// the text of the list when it does not read as a time.
    pub updated_at: Option<i64>,
    pub updated_text: String,
    pub categories: String,
    pub description: String,
    pub needs: String,
    pub versions: Vec<String>,
    pub page_url: String,
    pub deprecated: bool,
    /// Empty when the server does not list it as broken on this game version.
    pub broken: String,
    pub installed: Option<Installed>,
}

/// Joins `list` with `sep` between each two.
pub fn join_texts(list: &Vec<String>, sep: &str) -> (r: String)
    ensures
        r@ == join(views(list@), sep@),
{
    let mut r = String::new();
    let mut i: usize = 0;
    while i < list.len()
        invariant
            i <= list.len(),
            r@ == join(views(list@).take(i as int), sep@),
        decreases list.len() - i,
    {
        proof {
            lemma_join_push(views(list@).take(i as int), sep@, list@[i as int]@);
            assert(views(list@).take(i + 1) == views(list@).take(i as int).push(list@[i as int]@));
        }
        if i > 0 {
            r.append(sep);
        }
        r.append(list[i].as_str());
        i = i + 1;
    }
    assert(views(list@).take(list.len() as int) == views(list@));
    r
}

fn needs_of(deps: &Vec<Dependency>) -> (r: String)
    ensures
        r@ == needs_text(deps@),
{
    let mut lines: Vec<String> = Vec::new();
    let mut i: usize = 0;
    while i < deps.len()
        invariant
            i <= deps.len(),
            views(lines@) == need_lines(deps@).take(i as int),
        decreases deps.len() - i,
    {
        let line = readable_dependency(&deps[i]);
        let ghost before = lines@;
        lines.push(line);
        assert(lines@ == before.push(line));
        assert(views(lines@) =~= views(before).push(line@));
        assert(need_lines(deps@).take(i + 1) =~= need_lines(deps@).take(i as int).push(line@));
        i = i + 1;
    }
    assert(need_lines(deps@).take(deps.len() as int) =~= need_lines(deps@));
    if lines.len() == 0 {
        return String::from_str("Nothing");
    }
    if lines.len() > SHOWN_NEEDS {
        let more = lines.len() - SHOWN_NEEDS;
        lines.truncate(SHOWN_NEEDS);
        let mut last = String::from_str("and ");
        push_decimal(&mut last, more as u64);
        last.append(" more");
        lines.push(last);
        assert(views(lines@) =~= need_lines(deps@).take(SHOWN_NEEDS as int).push(
            "and "@ + decimal(more as nat) + " more"@,
        ));
    }
    proof {
        reveal_strlit("\n");
        assert("\n"@ =~= seq!['\n']);
    }
    let r = join_texts(&lines, "\n");
    assert(r@ == join(views(lines@), seq!['\n']));
    r
}

impl ModDetails {
    /// The details of `package` at the time `now`: `broken` names since
    /// which game version the server lists it as broken and the version of
    /// this game, `installed` how the profile has it.
    pub fn of_at(
        package: &PackageInfo,
        broken: Option<(String, String)>,
        installed: Option<Installed>,
        now: i64,
    ) -> (d: ModDetails)
        ensures
            d.id@ == package.id@,
            d.newest@ == match package.newest {
                Some((v, _)) => v@,
                None => Seq::empty(),
            },
            d.facts@ == facts_text(*package, now),
            d.updated_at == rfc3339_seconds(package.updated@),
            d.updated_text@ == package.updated@,
            d.categories@ == join(views(package.categories@), ", "@),
            d.description@ == package.description@,
            d.needs@ == match package.newest {
                Some((_, deps)) => needs_text(deps@),
                None => "Nothing"@,
            },
            views(d.versions@) == views(package.versions@).take(
                if package.versions@.len() < SHOWN_VERSIONS {
                    package.versions@.len() as int
                } else {
                    SHOWN_VERSIONS as int
                },
            ),
            d.page_url@ == package.package_url@,
            d.deprecated == package.deprecated,
            d.broken@ == broken_text(
                match broken {
                    Some((s, g)) => Some((s@, g@)),
                    None => None,
                },
            ),
            d.installed == installed,
    {
        let newest = match &package.newest {
            Some((v, _)) => v.clone(),
            None => String::new(),
        };
        let needs = match &package.newest {
            Some((_, deps)) => needs_of(deps),
            None => String::from_str("Nothing"),
        };
        let mut versions: Vec<String> = Vec::new();
        let count = if package.versions.len() < SHOWN_VERSIONS {
            package.versions.len()
        } else {
            SHOWN_VERSIONS
        };
        let mut i: usize = 0;
        while i < count
            invariant
                i <= count <= package.versions.len(),
                views(versions@) == views(package.versions@).take(i as int),
            decreases count - i,
        {
            let v = package.versions[i].clone();
            let ghost before = versions@;
            versions.push(v);
            assert(versions@ == before.push(v));
            assert(views(versions@) =~= views(before).push(v@));
            assert(views(package.versions@).take(i + 1) =~= views(package.versions@).take(i as int).push(v@));
            i = i + 1;
        }
        let broken_line = match broken {
            Some((since, game)) => {
                let mut text = String::from_str("Broken on game version ");
                text.append(since.as_str());
                text.append(" and later, this game is on ");
                text.append(game.as_str());
                text
            },
            None => String::new(),
        };
        let updated = parse(package.updated.as_str());
        let mut facts = String::from_str("Newest ");
        facts.append(newest.as_str());
        facts.append(", updated ");
        match updated {
            Some(at) => {
                let words = ago_at(now, at);
                facts.append(words.as_str());
            },
            None => facts.append(package.updated.as_str()),
        }
        facts.append(", ");
        let downloads = compact(package.downloads);
        facts.append(downloads.as_str());
        facts.append(" downloads, rating ");
        push_decimal(&mut facts, package.rating);
        ModDetails {
            id: package.id.clone(),
            newest,
            facts,
            updated_at: updated,
            updated_text: package.updated.clone(),
            categories: join_texts(&package.categories, ", "),
            description: package.description.clone(),
            needs,
            versions,
            page_url: package.package_url.clone(),
            deprecated: package.deprecated,
            broken: broken_line,
            installed,
        }
    }

    /// The details of `package` now.
    pub fn of(package: &PackageInfo, broken: Option<(String, String)>, installed: Option<Installed>) -> (d: ModDetails)
        ensures
            exists|now: i64| d.facts@ == facts_text(*package, now),
            d.id@ == package.id@,
            d.newest@ == match package.newest {
                Some((v, _)) => v@,
                None => Seq::empty(),
            },
            d.updated_at == rfc3339_seconds(package.updated@),
            d.updated_text@ == package.updated@,
            d.categories@ == join(views(package.categories@), ", "@),
            d.description@ == package.description@,
            d.needs@ == match package.newest {
                Some((_, deps)) => needs_text(deps@),
                None => "Nothing"@,
            },
            views(d.versions@) == views(package.versions@).take(
                if package.versions@.len() < SHOWN_VERSIONS {
                    package.versions@.len() as int
                } else {
                    SHOWN_VERSIONS as int
                },
            ),
            d.page_url@ == package.package_url@,
            d.deprecated == package.deprecated,
            d.broken@ == broken_text(
                match broken {
                    Some((s, g)) => Some((s@, g@)),
                    None => None,
                },
            ),
            d.installed == installed,
    {
        let now = crate::time::now_seconds();
        Self::of_at(package, broken, installed, now)
    }
}

} // verus!
