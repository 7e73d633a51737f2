//! What the command line prints, as text: tables of left aligned columns
//! and the summaries of a lock change and an install.

use vstd::prelude::*;
use crate::text::{chars_of, decimal, is_space, is_space_char, join, lemma_join_push, push_char, push_decimal, string_of, views};
use crate::mods_page::{Changed, LockChange, Missing, sync_summary, sync_text};

verus! {

/// The widest cell of column `c` over `rows`, in characters.
pub open spec fn width_of(rows: Seq<Seq<Seq<char>>>, c: int) -> nat
    decreases rows.len(),
{
    if rows.len() == 0 {
        0
    } else {
        let rest = width_of(rows.drop_last(), c);
        let here: nat = if 0 <= c < rows.last().len() {
            rows.last()[c].len()
        } else {
            0
        };
        if here > rest {
            here
        } else {
            rest
        }
    }
}

/// `cell` filled with spaces on the right up to `width` characters.
pub open spec fn padded(cell: Seq<char>, width: nat) -> Seq<char> {
    if cell.len() < width {
        cell + Seq::new((width - cell.len()) as nat, |_i: int| ' ')
    } else {
        cell
    }
}

/// The cells of `row` as printed: every one but the last padded to the
/// width of its column.
pub open spec fn row_cells(rows: Seq<Seq<Seq<char>>>, row: Seq<Seq<char>>) -> Seq<Seq<char>> {
    Seq::new(
        row.len(),
        |c: int|
            if c + 1 == row.len() {
                row[c]
            } else {
                padded(row[c], width_of(rows, c))
            },
    )
}

/// `s` without the whitespace at its end.
pub open spec fn trimmed_end(s: Seq<char>) -> Seq<char>
    decreases s.len(),
{
    if s.len() > 0 && is_space(s.last()) {
        trimmed_end(s.drop_last())
    } else {
        s
    }
}

/// The printed line of `row`: its cells two spaces apart, with no
/// whitespace at the end.
pub open spec fn table_line(rows: Seq<Seq<Seq<char>>>, row: Seq<Seq<char>>) -> Seq<char> {
    trimmed_end(join(row_cells(rows, row), seq![' ', ' ']))
}

/// The widest cell of column `c`.
fn column_width(rows: &Vec<Vec<String>>, c: usize) -> (w: usize)
    ensures
        w == width_of(rows.deep_view(), c as int),
{
    let mut w: usize = 0;
    let mut r: usize = 0;
    while r < rows.len()
        invariant
            r <= rows.len(),
            w == width_of(rows.deep_view().take(r as int), c as int),
        decreases rows.len() - r,
    {
        assert(rows.deep_view().take(r + 1).drop_last() == rows.deep_view().take(r as int));
        if c < rows[r].len() {
            let n = chars_of(rows[r][c].as_str()).len();
            if n > w {
                w = n;
            }
        }
        r = r + 1;
    }
    assert(rows.deep_view().take(rows.len() as int) == rows.deep_view());
    w
}

/// `s` without the whitespace at its end.
pub fn trim_end(s: &Vec<char>) -> (r: Vec<char>)
    ensures
        r@ == trimmed_end(s@),
{
    let mut k = s.len();
    assert(s@.take(k as int) == s@);
    while k > 0 && is_space_char(s[k - 1])
        invariant
            k <= s.len(),
            trimmed_end(s@) == trimmed_end(s@.take(k as int)),
        decreases k,
    {
        assert(s@.take(k as int).drop_last() == s@.take(k - 1));
        k = k - 1;
    }
    assert(s@.take(k as int).len() == 0 || !is_space(s@.take(k as int).last()));
    let mut r: Vec<char> = Vec::new();
    let mut i: usize = 0;
    while i < k
        invariant
            i <= k <= s.len(),
            r@ == s@.take(i as int),
        decreases k - i,
    {
        r.push(s[i]);
        assert(s@.take(i + 1) == s@.take(i as int).push(s@[i as int]));
        i = i + 1;
    }
    r
}

/// The lines that print `rows` as left aligned columns.
pub fn table_lines(rows: &Vec<Vec<String>>) -> (lines: Vec<String>)
    ensures
        lines@.len() == rows@.len(),
        forall|r: int|
            0 <= r < rows@.len() ==> #[trigger] lines@[r]@ == table_line(
                rows.deep_view(),
                rows.deep_view()[r],
            ),
{
    let mut lines: Vec<String> = Vec::new();
    let mut r: usize = 0;
    while r < rows.len()
        invariant
            r <= rows.len(),
            lines@.len() == r,
            forall|q: int|
                0 <= q < r ==> #[trigger] lines@[q]@ == table_line(
                    rows.deep_view(),
                    rows.deep_view()[q],
                ),
        decreases rows.len() - r,
    {
        let row = &rows[r];
        let ghost cells = row_cells(rows.deep_view(), rows.deep_view()[r as int]);
        let mut out: Vec<char> = Vec::new();
        let mut c: usize = 0;
        while c < row.len()
            invariant
                r < rows.len(),
                row == &rows@[r as int],
                c <= row.len(),
                cells == row_cells(rows.deep_view(), rows.deep_view()[r as int]),
                out@ == join(cells.take(c as int), seq![' ', ' ']),
            decreases row.len() - c,
        {
            let cell = chars_of(row[c].as_str());
            let ghost before = out@;
            let ghost want = cells[c as int];
            proof {
                lemma_join_push(cells.take(c as int), seq![' ', ' '], want);
                assert(cells.take(c + 1) == cells.take(c as int).push(want));
            }
            if c > 0 {
                out.push(' ');
                out.push(' ');
            }
            let mut k: usize = 0;
            while k < cell.len()
                invariant
                    k <= cell.len(),
                    out@ == (if c > 0 { before + seq![' ', ' '] } else { before }) + cell@.take(k as int),
                decreases cell.len() - k,
            {
                out.push(cell[k]);
                assert(cell@.take(k + 1) == cell@.take(k as int).push(cell@[k as int]));
                k = k + 1;
            }
            assert(cell@.take(cell.len() as int) == cell@);
            if c + 1 < row.len() {
                let width = column_width(rows, c);
                let ghost filled = out@;
                let mut n = cell.len();
                while n < width
                    invariant
                        cell.len() <= n <= width || (n == cell.len() && width < n),
                        out@ == filled + Seq::new((n - cell.len()) as nat, |_i: int| ' '),
                    decreases width - n,
                {
                    out.push(' ');
                    assert(Seq::new((n + 1 - cell.len()) as nat, |_i: int| ' ') == Seq::new(
                        (n - cell.len()) as nat,
                        |_i: int| ' ',
                    ).push(' '));
                    n = n + 1;
                }
                assert(want == padded(cell@, width as nat));
                if width <= cell.len() {
                    assert(Seq::new((n - cell.len()) as nat, |_i: int| ' ') == Seq::<char>::empty());
                }
            } else {
                assert(want == cell@);
            }
            c = c + 1;
        }
        assert(cells.take(row.len() as int) == cells);
        let line = trim_end(&out);
        lines.push(string_of(&line));
        r = r + 1;
    }
    lines
}


/// The lines that print a change of the lock: every added, changed and
/// removed mod, a warning for every dependency that is gone, and a line when
/// nothing changed.
pub open spec fn lock_change_text_lines(change: LockChange) -> Seq<Seq<char>> {
    change.added@.map_values(|p: String| "  + "@ + p@) + change.changed@.map_values(
        |c: Changed| "  ~ "@ + c.id@ + " "@ + c.from@ + " -> "@ + c.to@,
    ) + change.removed@.map_values(|p: String| "  - "@ + p@) + change.missing@.map_values(
        |m: Missing|
            "  warning: "@ + m.required_by@ + " needs "@ + m.wanted@
                + ", which is no longer on Thunderstore"@,
    ) + if change.empty() {
        seq!["  the lock did not change"@]
    } else {
        Seq::empty()
    }
}

/// The lines that print a change of the lock.
pub fn lock_change_lines(change: &LockChange) -> (lines: Vec<String>)
    ensures
        views(lines@) == lock_change_text_lines(*change),
{
    let mut lines: Vec<String> = Vec::new();
    let mut i: usize = 0;
    while i < change.added.len()
        invariant
            i <= change.added.len(),
            views(lines@) == change.added@.take(i as int).map_values(|p: String| "  + "@ + p@),
        decreases change.added.len() - i,
    {
        let mut line = String::from_str("  + ");
        line.append(change.added[i].as_str());
        let ghost before = lines@;
        lines.push(line);
        assert(views(lines@) =~= views(before).push(line@));
        assert(change.added@.take(i + 1).map_values(|p: String| "  + "@ + p@) =~= change.added@.take(i as int).map_values(|p: String| "  + "@ + p@).push(line@));
        i = i + 1;
    }
    assert(change.added@.take(change.added.len() as int) == change.added@);
    let ghost a = views(lines@);
    let mut i: usize = 0;
    while i < change.changed.len()
        invariant
            i <= change.changed.len(),
            views(lines@) == a + change.changed@.take(i as int).map_values(
                |c: Changed| "  ~ "@ + c.id@ + " "@ + c.from@ + " -> "@ + c.to@,
            ),
        decreases change.changed.len() - i,
    {
        let c = &change.changed[i];
        let mut line = String::from_str("  ~ ");
        line.append(c.id.as_str());
        line.append(" ");
        line.append(c.from.as_str());
        line.append(" -> ");
        line.append(c.to.as_str());
        let ghost before = lines@;
        lines.push(line);
        assert(views(lines@) =~= views(before).push(line@));
        assert(change.changed@.take(i + 1).map_values(|c: Changed| "  ~ "@ + c.id@ + " "@ + c.from@ + " -> "@ + c.to@) =~= change.changed@.take(i as int).map_values(|c: Changed| "  ~ "@ + c.id@ + " "@ + c.from@ + " -> "@ + c.to@).push(line@));
        i = i + 1;
    }
    assert(change.changed@.take(change.changed.len() as int) == change.changed@);
    let ghost b = views(lines@);
    let mut i: usize = 0;
    while i < change.removed.len()
        invariant
            i <= change.removed.len(),
            views(lines@) == b + change.removed@.take(i as int).map_values(|p: String| "  - "@ + p@),
        decreases change.removed.len() - i,
    {
        let mut line = String::from_str("  - ");
        line.append(change.removed[i].as_str());
        let ghost before = lines@;
        lines.push(line);
        assert(views(lines@) =~= views(before).push(line@));
        assert(change.removed@.take(i + 1).map_values(|p: String| "  - "@ + p@) =~= change.removed@.take(i as int).map_values(|p: String| "  - "@ + p@).push(line@));
        i = i + 1;
    }
    assert(change.removed@.take(change.removed.len() as int) == change.removed@);
    let ghost c0 = views(lines@);
    let mut i: usize = 0;
    while i < change.missing.len()
        invariant
            i <= change.missing.len(),
            views(lines@) == c0 + change.missing@.take(i as int).map_values(
                |m: Missing|
                    "  warning: "@ + m.required_by@ + " needs "@ + m.wanted@
                        + ", which is no longer on Thunderstore"@,
            ),
        decreases change.missing.len() - i,
    {
        let m = &change.missing[i];
        let mut line = String::from_str("  warning: ");
        line.append(m.required_by.as_str());
        line.append(" needs ");
        line.append(m.wanted.as_str());
        line.append(", which is no longer on Thunderstore");
        let ghost before = lines@;
        lines.push(line);
        assert(views(lines@) =~= views(before).push(line@));
        assert(change.missing@.take(i + 1).map_values(|m: Missing| "  warning: "@ + m.required_by@ + " needs "@ + m.wanted@ + ", which is no longer on Thunderstore"@) =~= change.missing@.take(i as int).map_values(|m: Missing| "  warning: "@ + m.required_by@ + " needs "@ + m.wanted@ + ", which is no longer on Thunderstore"@).push(line@));
        i = i + 1;
    }
    assert(change.missing@.take(change.missing.len() as int) == change.missing@);
    if change.is_empty() {
        let line = String::from_str("  the lock did not change");
        let ghost before = lines@;
        lines.push(line);
        assert(views(lines@) =~= views(before).push(line@));
    }
    assert(views(lines@) =~= lock_change_text_lines(*change));
    lines
}

/// The line that prints an install: what it installed, removed and left.
pub fn sync_report_line(installed: u64, removed: u64, unchanged: u64) -> (line: String)
    ensures
        line@ == sync_text(installed as nat, removed as nat, unchanged as nat),
{
    sync_summary(installed, removed, unchanged)
}

/// No printed line of a table ends in whitespace.
pub proof fn law_lines_end_clean(s: Seq<char>)
    ensures
        trimmed_end(s).len() == 0 || !is_space(trimmed_end(s).last()),
        trimmed_end(s).len() <= s.len(),
    decreases s.len(),
{
    if s.len() > 0 && is_space(s.last()) {
        law_lines_end_clean(s.drop_last());
    }
}

} // verus!
