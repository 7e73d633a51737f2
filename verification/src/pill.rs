//! The short texts of the chips on a row of mods: download counts made
//! compact, so a row is scanned and not read.

use vstd::prelude::*;
use crate::text::{decimal, decimal_string};

verus! {

/// `count` in `unit`s with the `suffix`, one decimal below a hundred units,
/// `None` below one unit.
pub open spec fn short_text(count: nat, unit: nat, suffix: Seq<char>) -> Option<Seq<char>> {
    if count < unit {
        None
    } else {
        let whole = count / unit;
        if whole >= 100 {
            Some(decimal(whole) + suffix)
        } else {
            Some(decimal(whole) + seq!['.'] + decimal(count % unit / (unit / 10)) + suffix)
        }
    }
}

/// The compact form of a count: millions as `M`, thousands as `K`, and a
/// smaller count in full.
pub open spec fn compact_text(count: nat) -> Seq<char> {
    match short_text(count, 1_000_000, seq!['M']) {
        Some(text) => text,
        None => match short_text(count, 1_000, seq!['K']) {
            Some(text) => text,
            None => decimal(count),
        },
    }
}

/// 10517074 reads as 10.5M and 923029 as 923K. A row is scanned, not read,
/// and the exact count is on the details of the package.
pub fn compact(count: u64) -> (text: String)
    ensures
        text@ == compact_text(count as nat),
{
    proof {
        reveal_strlit("M");
        reveal_strlit("K");
    }
    match short(count, 1_000_000, "M") {
        Some(text) => text,
        None => match short(count, 1_000, "K") {
            Some(text) => text,
            None => decimal_string(count),
        },
    }
}

fn short(count: u64, unit: u64, suffix: &str) -> (text: Option<String>)
    requires
        unit >= 10,
    ensures
        text matches Some(t) ==> short_text(count as nat, unit as nat, suffix@) == Some(t@),
        text is None ==> short_text(count as nat, unit as nat, suffix@) is None,
{
    if count < unit {
        return None;
    }
    let whole = count / unit;
    // Three digits already fill the pill, a decimal adds nothing there.
    let mut text = decimal_string(whole);
    if whole >= 100 {
        text.append(suffix);
        return Some(text);
    }
    let tenth = count % unit / (unit / 10);
    proof {
        reveal_strlit(".");
    }
    text.append(".");
    let tenth_text = decimal_string(tenth);
    text.append(tenth_text.as_str());
    text.append(suffix);
    Some(text)
}

/// A count below a thousand is shown in full.
pub proof fn law_small_counts_in_full(count: nat)
    requires
        count < 1000,
    ensures
        compact_text(count) == decimal(count),
{
}

/// From a hundred units on, a count has no decimal: three digits already
/// fill the pill.
pub proof fn law_no_decimal_from_a_hundred(count: nat, unit: nat, suffix: Seq<char>)
    requires
        unit >= 10,
        count / unit >= 100,
    ensures
        short_text(count, unit, suffix) == Some(decimal(count / unit) + suffix),
{
    assert(count >= unit) by (nonlinear_arith)
        requires
            count / unit >= 100,
            unit >= 10,
    ;
}

/// Cutting a count to tenths of `10 * c` and then to whole units agrees
/// with cutting it to whole units at once, and the tenth digit is the rest.
proof fn lemma_tenths(count: nat, c: nat)
    requires
        c == 100 || c == 100_000,
    ensures
        count / (10 * c) == count / c / 10,
        count % (10 * c) / c == count / c % 10,
{
    let t = count / c;
    let r0 = count % c;
    vstd::arithmetic::div_mod::lemma_fundamental_div_mod(count as int, c as int);
    let a = t / 10;
    let b = t % 10;
    vstd::arithmetic::div_mod::lemma_fundamental_div_mod(t as int, 10);
    let rest = c * b + r0;
    assert(count == (10 * c) * a + rest && 0 <= rest < 10 * c) by (nonlinear_arith)
        requires
            count == c * t + r0,
            t == 10 * a + b,
            rest == c * b + r0,
            0 <= r0 < c,
            0 <= b < 10,
            c > 0,
    ;
    vstd::arithmetic::div_mod::lemma_fundamental_div_mod_converse(
        count as int,
        (10 * c) as int,
        a as int,
        rest as int,
    );
    vstd::arithmetic::div_mod::lemma_fundamental_div_mod_converse(
        rest as int,
        c as int,
        b as int,
        r0 as int,
    );
}

/// A count from a thousand on is cut, never rounded, to tenths of its unit:
/// thousands (`K`) below a million, millions (`M`) from there. Below a
/// hundred units the text is the whole units, a point and the tenth digit;
/// from a hundred units on it is the whole units alone. So 25300 reads as
/// 25.3K, 42000000 as 42.0M and 923029 as 923K.
pub proof fn law_compact_shows_tenths_of_the_unit(count: nat)
    requires
        count >= 1000,
    ensures
        count < 1_000_000 && count / 100 < 1000 ==> compact_text(count) == decimal(count / 100 / 10)
            + seq!['.'] + decimal(count / 100 % 10) + seq!['K'],
        count < 1_000_000 && count / 100 >= 1000 ==> compact_text(count) == decimal(count / 1000)
            + seq!['K'],
        count >= 1_000_000 && count / 100_000 < 1000 ==> compact_text(count) == decimal(
            count / 100_000 / 10,
        ) + seq!['.'] + decimal(count / 100_000 % 10) + seq!['M'],
        count >= 1_000_000 && count / 100_000 >= 1000 ==> compact_text(count) == decimal(
            count / 1_000_000,
        ) + seq!['M'],
{
    lemma_tenths(count, 100);
    lemma_tenths(count, 100_000);
}

} // verus!
