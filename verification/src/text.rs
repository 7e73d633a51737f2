//! Text building blocks shared by the modules: decimal numbers, whitespace
//! as `char::is_whitespace` knows it, and conversions between `&str`,
//! `String` and character sequences.

use vstd::prelude::*;

verus! {

/// The character of one decimal digit.
pub open spec fn digit_char(d: nat) -> char
    recommends
        d < 10,
{
    (48 + d) as char
}

/// The decimal form of `n`, as `to_string` writes it.
pub open spec fn decimal(n: nat) -> Seq<char>
    decreases n,
{
    if n < 10 {
        seq![digit_char(n)]
    } else {
        decimal(n / 10).push(digit_char(n % 10))
    }
}

/// The number that a string of decimal digits stands for.
pub open spec fn digits_value(s: Seq<char>) -> nat
    decreases s.len(),
{
    if s.len() == 0 {
        0
    } else {
        digits_value(s.drop_last()) * 10 + ((s.last() as nat) - 48) as nat
    }
}

/// The decimal form of a number is made of the digits `0` to `9`, starts
/// with no `0` unless the number is zero, and reads back as the number.
pub proof fn law_decimal_reads_back(n: nat)
    ensures
        decimal(n).len() >= 1,
        forall|i: int| 0 <= i < decimal(n).len() ==> '0' <= #[trigger] decimal(n)[i] <= '9',
        n > 0 ==> decimal(n)[0] != '0',
        digits_value(decimal(n)) == n,
    decreases n,
{
    if n >= 10 {
        law_decimal_reads_back(n / 10);
        let d = decimal(n / 10);
        assert(decimal(n).drop_last() == d);
        assert forall|i: int| 0 <= i < decimal(n).len() implies '0' <= #[trigger] decimal(n)[i] <= '9' by {
            if i < d.len() {
                assert(decimal(n)[i] == d[i]);
            }
        }
        assert(decimal(n)[0] == d[0]);
        assert(decimal(n).last() == digit_char(n % 10));
        assert((digit_char(n % 10) as nat) == 48 + n % 10);
        assert(digits_value(decimal(n)) == (n / 10) * 10 + n % 10);
        assert(n == (n / 10) * 10 + n % 10);
    } else {
        assert((digit_char(n) as nat) == 48 + n);
        assert(decimal(n).drop_last() =~= Seq::<char>::empty());
        assert(digits_value(Seq::<char>::empty()) == 0);
        assert(digits_value(decimal(n)) == n);
    }
}

/// Appends one character to `s` with `String::push`, which is assumed to
/// add exactly `c` at the end.
#[verifier::external_body]
pub(crate) fn push_char(s: &mut String, c: char)
    ensures
        final(s)@ == old(s)@.push(c),
{
    s.push(c);
}

/// The characters of `s`, in order.
pub fn chars_of(s: &str) -> (v: Vec<char>)
    ensures
        v@ == s@,
{
    let mut v: Vec<char> = Vec::new();
    for c in it: s.chars()
        invariant
            it.seq() == s@,
            v@ == it.seq().take(it.index() as int),
    {
        v.push(c);
    }
    v
}

/// A `String` holding exactly `cs`.
pub fn string_of(cs: &Vec<char>) -> (s: String)
    ensures
        s@ == cs@,
{
    let mut s = String::new();
    let mut i: usize = 0;
    while i < cs.len()
        invariant
            i <= cs.len(),
            s@ == cs@.take(i as int),
        decreases cs.len() - i,
    {
        push_char(&mut s, cs[i]);
        assert(cs@.take(i + 1) == cs@.take(i as int).push(cs@[i as int]));
        i = i + 1;
    }
    assert(cs@.take(cs.len() as int) == cs@);
    s
}

fn digit(d: u64) -> (c: char)
    requires
        d < 10,
    ensures
        c == digit_char(d as nat),
{
    let b: u8 = 48 + d as u8;
    b as char
}

/// `n` in decimal digits.
pub fn decimal_string(n: u64) -> (s: String)
    ensures
        s@ == decimal(n as nat),
{
    let mut m: u64 = n / 10;
    let mut digits: Vec<char> = Vec::new();
    digits.push(digit(n % 10));
    while m > 0
        invariant
            decimal(n as nat) == (if m > 0 { decimal(m as nat) } else { Seq::<char>::empty() })
                + digits@,
        decreases m,
    {
        let d = digit(m % 10);
        digits.insert(0, d);
        assert(decimal(m as nat) == (if m / 10 > 0 { decimal((m / 10) as nat) } else { Seq::<char>::empty() }) + seq![d]);
        m = m / 10;
    }
    string_of(&digits)
}


/// Whitespace as `char::is_whitespace` knows it: the characters with the
/// Unicode property `White_Space`.
pub open spec fn is_space(c: char) -> bool {
    let u = c as u32;
    ||| 0x09 <= u <= 0x0d
    ||| u == 0x20
    ||| u == 0x85
    ||| u == 0xa0
    ||| u == 0x1680
    ||| 0x2000 <= u <= 0x200a
    ||| u == 0x2028
    ||| u == 0x2029
    ||| u == 0x202f
    ||| u == 0x205f
    ||| u == 0x3000
}

/// Whether `c` is whitespace.
pub fn is_space_char(c: char) -> (r: bool)
    ensures
        r == is_space(c),
{
    let u = c as u32;
    (0x09 <= u && u <= 0x0d) || u == 0x20 || u == 0x85 || u == 0xa0 || u == 0x1680 || (0x2000
        <= u && u <= 0x200a) || u == 0x2028 || u == 0x2029 || u == 0x202f || u == 0x205f || u
        == 0x3000
}

/// The words of `s`, the maximal runs of characters that are no whitespace,
/// as `split_whitespace` gives them.
pub open spec fn words(s: Seq<char>) -> Seq<Seq<char>>
    decreases s.len(),
{
    if s.len() == 0 {
        Seq::empty()
    } else {
        let rest = s.drop_last();
        let w = words(rest);
        if is_space(s.last()) {
            w
        } else if rest.len() > 0 && !is_space(rest.last()) {
            w.update(w.len() - 1, w.last().push(s.last()))
        } else {
            w.push(seq![s.last()])
        }
    }
}

/// The parts of `list` with `sep` between each two, as `join` writes them.
pub open spec fn join(list: Seq<Seq<char>>, sep: Seq<char>) -> Seq<char>
    decreases list.len(),
{
    if list.len() == 0 {
        Seq::empty()
    } else if list.len() == 1 {
        list[0]
    } else {
        join(list.drop_last(), sep) + sep + list.last()
    }
}

/// Every word has a character, and the last one ends where `s` ends when
/// `s` ends in no whitespace.
pub proof fn lemma_words(s: Seq<char>)
    ensures
        forall|i: int| 0 <= i < words(s).len() ==> #[trigger] words(s)[i].len() > 0,
        s.len() > 0 && !is_space(s.last()) ==> words(s).len() > 0,
    decreases s.len(),
{
    if s.len() > 0 {
        let rest = s.drop_last();
        lemma_words(rest);
        let w = words(rest);
        if !is_space(s.last()) {
            if rest.len() > 0 && !is_space(rest.last()) {
                let u = w.update(w.len() - 1, w.last().push(s.last()));
                assert forall|i: int| 0 <= i < u.len() implies #[trigger] u[i].len() > 0 by {
                    if i < w.len() - 1 {
                        assert(u[i] == w[i]);
                    }
                }
            } else {
                let u = w.push(seq![s.last()]);
                assert forall|i: int| 0 <= i < u.len() implies #[trigger] u[i].len() > 0 by {
                    if i < w.len() {
                        assert(u[i] == w[i]);
                    }
                }
            }
        }
    }
}

proof fn lemma_join_nonempty(list: Seq<Seq<char>>, sep: Seq<char>)
    requires
        list.len() > 0,
        forall|i: int| 0 <= i < list.len() ==> #[trigger] list[i].len() > 0,
    ensures
        join(list, sep).len() > 0,
    decreases list.len(),
{
    if list.len() > 1 {
        assert(list.last().len() > 0);
    }
}

proof fn lemma_join_extend_last(list: Seq<Seq<char>>, sep: Seq<char>, c: char)
    requires
        list.len() > 0,
    ensures
        join(list.update(list.len() - 1, list.last().push(c)), sep) == join(list, sep).push(c),
{
    let u = list.update(list.len() - 1, list.last().push(c));
    if list.len() > 1 {
        assert(u.drop_last() == list.drop_last());
    }
}

pub proof fn lemma_join_push(list: Seq<Seq<char>>, sep: Seq<char>, w: Seq<char>)
    ensures
        join(list.push(w), sep) == if list.len() == 0 {
            w
        } else {
            join(list, sep) + sep + w
        },
{
    assert(list.push(w).drop_last() == list);
}

/// No word holds whitespace.
pub proof fn lemma_words_have_no_space(s: Seq<char>)
    ensures
        forall|i: int, j: int|
            0 <= i < words(s).len() && 0 <= j < words(s)[i].len() ==> !is_space(
                #[trigger] words(s)[i][j],
            ),
    decreases s.len(),
{
    if s.len() > 0 {
        let rest = s.drop_last();
        lemma_words_have_no_space(rest);
        lemma_words(rest);
        let w = words(rest);
        let c = s.last();
        if !is_space(c) {
            if rest.len() > 0 && !is_space(rest.last()) {
                let u = w.update(w.len() - 1, w.last().push(c));
                assert forall|i: int, j: int| 0 <= i < u.len() && 0 <= j < u[i].len() implies !is_space(
                    #[trigger] u[i][j],
                ) by {
                    if i < w.len() - 1 {
                        assert(u[i] == w[i]);
                    } else if j < w.last().len() {
                        assert(u[i][j] == w[i][j]);
                    }
                }
            } else {
                let u = w.push(seq![c]);
                assert forall|i: int, j: int| 0 <= i < u.len() && 0 <= j < u[i].len() implies !is_space(
                    #[trigger] u[i][j],
                ) by {
                    if i < w.len() {
                        assert(u[i] == w[i]);
                    }
                }
            }
        }
    }
}

/// Parts that hold no whitespace, joined by spaces, hold whitespace only as
/// single spaces with a part on each side.
pub proof fn lemma_join_spaces(list: Seq<Seq<char>>)
    requires
        forall|i: int| 0 <= i < list.len() ==> #[trigger] list[i].len() > 0,
        forall|i: int, j: int| 0 <= i < list.len() && 0 <= j < list[i].len() ==> !is_space(#[trigger] list[i][j]),
    ensures
        forall|k: int|
            0 <= k < join(list, seq![' ']).len() && is_space(#[trigger] join(list, seq![' '])[k]) ==> {
                let t = join(list, seq![' ']);
                &&& t[k] == ' '
                &&& 0 < k < t.len() - 1
                &&& !is_space(t[k - 1])
                &&& !is_space(t[k + 1])
            },
    decreases list.len(),
{
    let t = join(list, seq![' ']);
    if list.len() == 1 {
        assert forall|k: int| 0 <= k < t.len() implies !is_space(#[trigger] t[k]) by {
            assert(t[k] == list[0][k]);
        }
    } else if list.len() > 1 {
        let p = list.drop_last();
        assert forall|i: int| 0 <= i < p.len() implies #[trigger] p[i].len() > 0 by {
            assert(p[i] == list[i]);
        }
        assert forall|i: int, j: int| 0 <= i < p.len() && 0 <= j < p[i].len() implies !is_space(
            #[trigger] p[i][j],
        ) by {
            assert(p[i] == list[i]);
        }
        lemma_join_spaces(p);
        lemma_join_nonempty(p, seq![' ']);
        let jp = join(p, seq![' ']);
        let last = list.last();
        assert(t == jp + seq![' '] + last);
        assert(!is_space(jp[jp.len() - 1]));
        assert(last.len() > 0 && !is_space(last[0]));
        assert forall|k: int| 0 <= k < t.len() && is_space(#[trigger] t[k]) implies {
            &&& t[k] == ' '
            &&& 0 < k < t.len() - 1
            &&& !is_space(t[k - 1])
            &&& !is_space(t[k + 1])
        } by {
            if k < jp.len() {
                assert(t[k] == jp[k]);
                assert(t[k - 1] == jp[k - 1]);
                assert(t[k + 1] == jp[k + 1]);
            } else if k == jp.len() {
                assert(t[k - 1] == jp[jp.len() - 1]);
                assert(t[k + 1] == last[0]);
            } else {
                assert(t[k] == last[k - jp.len() - 1]);
                assert(!is_space(last[k - jp.len() - 1]));
            }
        }
    }
}

/// `s` with every run of whitespace made one space, and none at either end.
pub open spec fn squeezed(s: Seq<char>) -> Seq<char> {
    join(words(s), seq![' '])
}

/// The words of `s` joined by single spaces, like
/// `s.split_whitespace().collect::<Vec<_>>().join(" ")`.
pub fn squeeze(s: &str) -> (r: String)
    ensures
        r@ == squeezed(s@),
{
    let cs = chars_of(s);
    let mut out: Vec<char> = Vec::new();
    let mut i: usize = 0;
    while i < cs.len()
        invariant
            i <= cs.len(),
            cs@ == s@,
            out@ == squeezed(cs@.take(i as int)),
            out@.len() == 0 <==> words(cs@.take(i as int)).len() == 0,
        decreases cs.len() - i,
    {
        let c = cs[i];
        let ghost before = cs@.take(i as int);
        let ghost after = cs@.take(i + 1);
        assert(after.drop_last() == before);
        assert(after.last() == c);
        proof {
            lemma_words(before);
            lemma_words(after);
        }
        if is_space_char(c) {
        } else if i > 0 && !is_space_char(cs[i - 1]) {
            assert(before.last() == cs@[i - 1]);
            proof {
                lemma_join_extend_last(words(before), seq![' '], c);
            }
            out.push(c);
        } else {
            proof {
                lemma_join_push(words(before), seq![' '], seq![c]);
            }
            if out.len() > 0 {
                out.push(' ');
            }
            out.push(c);
            assert(out@ == squeezed(after));
            proof {
                lemma_join_nonempty(words(after), seq![' ']);
            }
        }
        i = i + 1;
    }
    assert(cs@.take(cs.len() as int) == cs@);
    string_of(&out)
}


/// Where the next `c` is at or after `i`, the end of `s` when there is none.
pub open spec fn next_of(s: Seq<char>, i: int, c: char) -> int
    decreases s.len() - i,
{
    if i < 0 || i >= s.len() {
        s.len() as int
    } else if s[i] == c {
        i
    } else {
        next_of(s, i + 1, c)
    }
}

pub proof fn lemma_next_of(s: Seq<char>, i: int, c: char)
    requires
        0 <= i <= s.len(),
    ensures
        i <= next_of(s, i, c) <= s.len(),
        next_of(s, i, c) < s.len() ==> s[next_of(s, i, c)] == c,
        forall|j: int| i <= j < next_of(s, i, c) ==> s[j] != c,
    decreases s.len() - i,
{
    if i < s.len() && s[i] != c {
        lemma_next_of(s, i + 1, c);
    }
}

/// The next `c` at or after `from`, or the end.
pub fn find_char(cs: &Vec<char>, from: usize, c: char) -> (r: usize)
    requires
        from <= cs.len(),
    ensures
        r == next_of(cs@, from as int, c),
{
    let mut i = from;
    while i < cs.len()
        invariant
            from <= i <= cs.len(),
            next_of(cs@, from as int, c) == next_of(cs@, i as int, c),
        decreases cs.len() - i,
    {
        if cs[i] == c {
            return i;
        }
        i = i + 1;
    }
    i
}

/// The characters of `cs` from `a` to `b`.
pub fn slice_of(cs: &Vec<char>, a: usize, b: usize) -> (r: Vec<char>)
    requires
        a <= b <= cs.len(),
    ensures
        r@ == cs@.subrange(a as int, b as int),
{
    let mut r: Vec<char> = Vec::new();
    let mut k = a;
    while k < b
        invariant
            a <= k <= b <= cs.len(),
            r@ == cs@.subrange(a as int, k as int),
        decreases b - k,
    {
        r.push(cs[k]);
        assert(cs@.subrange(a as int, k + 1) == cs@.subrange(a as int, k as int).push(cs@[k as int]));
        k = k + 1;
    }
    r
}


/// What `str::to_lowercase` makes of `s`: every character by its Unicode
/// lower case mapping.
pub uninterp spec fn lowercase_of(s: Seq<char>) -> Seq<char>;

/// `s` in lower case with `str::to_lowercase`, which is assumed to give
/// `lowercase_of` the text.
#[verifier::external_body]
pub(crate) fn lowercase(s: &str) -> (r: String)
    ensures
        r@ == lowercase_of(s@),
{
    s.to_lowercase()
}

/// Whether `a` and `b` hold the same characters.
pub fn same_text(a: &str, b: &str) -> (r: bool)
    ensures
        r == (a@ == b@),
{
    let x = chars_of(a);
    let y = chars_of(b);
    if x.len() != y.len() {
        return false;
    }
    let mut i: usize = 0;
    while i < x.len()
        invariant
            i <= x.len() == y.len(),
            x@ == a@,
            y@ == b@,
            forall|j: int| 0 <= j < i ==> x@[j] == y@[j],
        decreases x.len() - i,
    {
        if !(x[i] == y[i]) {
            assert(x@[i as int] != y@[i as int]);
            return false;
        }
        i = i + 1;
    }
    assert(x@ =~= y@);
    true
}


/// The texts of `list`.
pub open spec fn views(list: Seq<String>) -> Seq<Seq<char>> {
    list.map_values(|s: String| s@)
}

/// The words of `s`, like `s.split_whitespace()`.
pub fn split_words(s: &str) -> (r: Vec<String>)
    ensures
        views(r@) == words(s@),
{
    let cs = chars_of(s);
    let mut out: Vec<String> = Vec::new();
    let mut word: Vec<char> = Vec::new();
    let mut i: usize = 0;
    while i < cs.len()
        invariant
            i <= cs.len(),
            cs@ == s@,
            (if word@.len() > 0 { views(out@).push(word@) } else { views(out@) }) == words(cs@.take(i as int)),
            word@.len() > 0 ==> i > 0 && !is_space(cs@[i - 1]),
            i > 0 && !is_space(cs@[i - 1]) ==> word@.len() > 0,
        decreases cs.len() - i,
    {
        let c = cs[i];
        let ghost before = cs@.take(i as int);
        let ghost after = cs@.take(i + 1);
        assert(after.drop_last() == before);
        assert(after.last() == c);
        proof {
            lemma_words(before);
        }
        if is_space_char(c) {
            if word.len() > 0 {
                let w = string_of(&word);
                let ghost old_out = out@;
                out.push(w);
                word = Vec::new();
                assert(out@ == old_out.push(w));
                assert(views(out@) =~= views(old_out).push(w@));
            }
            assert(words(after) == words(before));
        } else {
            let ghost ws = words(before);
            if word.len() > 0 {
                assert(before.last() == cs@[i - 1]);
                let ghost old_word = word@;
                word.push(c);
                assert(ws == views(out@).push(old_word));
                assert(words(after) == ws.update(ws.len() - 1, ws.last().push(c)));
                assert(views(out@).push(word@) =~= ws.update(ws.len() - 1, ws.last().push(c)));
            } else {
                word.push(c);
                assert(word@ == seq![c]);
                if i > 0 {
                    assert(before.last() == cs@[i - 1]);
                }
                assert(words(after) == ws.push(seq![c]));
            }
        }
        i = i + 1;
    }
    assert(cs@.take(cs.len() as int) == cs@);
    if word.len() > 0 {
        let w = string_of(&word);
        out.push(w);
        assert(views(out@) == views(out@.drop_last()).push(w@));
    }
    out
}


/// Appends `n` in decimal digits to `s`.
pub fn push_decimal(s: &mut String, n: u64)
    ensures
        final(s)@ == old(s)@ + decimal(n as nat),
{
    let d = decimal_string(n);
    s.append(d.as_str());
}

/// `c` in lower case when it is an ASCII letter.
pub open spec fn ascii_lower(c: char) -> char {
    if 'A' <= c <= 'Z' {
        ((c as u32) + 32) as char
    } else {
        c
    }
}

/// The two texts are equal when ASCII letters are compared without case,
/// like `eq_ignore_ascii_case`.
pub open spec fn equal_ignoring_case(a: Seq<char>, b: Seq<char>) -> bool {
    a.len() == b.len() && forall|i: int| 0 <= i < a.len() ==> ascii_lower(#[trigger] a[i]) == ascii_lower(b[i])
}

fn lower(c: char) -> (r: char)
    ensures
        r == ascii_lower(c),
{
    if 'A' <= c && c <= 'Z' {
        let u = c as u32 + 32;
        assert(0x61 <= u <= 0x7a);
        let b: u8 = u as u8;
        b as char
    } else {
        c
    }
}

/// Whether `a` and `b` are equal with ASCII letters compared without case.
pub fn eq_ignore_case(a: &str, b: &str) -> (r: bool)
    ensures
        r == equal_ignoring_case(a@, b@),
{
    let x = chars_of(a);
    let y = chars_of(b);
    if x.len() != y.len() {
        return false;
    }
    let mut i: usize = 0;
    while i < x.len()
        invariant
            i <= x.len() == y.len(),
            x@ == a@,
            y@ == b@,
            forall|j: int| 0 <= j < i ==> ascii_lower(#[trigger] x@[j]) == ascii_lower(y@[j]),
        decreases x.len() - i,
    {
        if !(lower(x[i]) == lower(y[i])) {
            return false;
        }
        i = i + 1;
    }
    true
}

/// The decimal form of a signed number, with a minus before a negative one.
pub open spec fn signed_decimal(n: int) -> Seq<char> {
    if n < 0 {
        seq!['-'] + decimal((-n) as nat)
    } else {
        decimal(n as nat)
    }
}

/// Appends `n` in decimal digits, with a minus when it is negative.
pub fn push_signed(s: &mut String, n: i64)
    ensures
        final(s)@ == old(s)@ + signed_decimal(n as int),
{
    if n < 0 {
        push_char(s, '-');
        let m: u64 = (-(n as i128)) as u64;
        let ghost before = s@;
        push_decimal(s, m);
        assert(s@ == before + decimal((-n) as nat));
    } else {
        push_decimal(s, n as u64);
    }
}

} // verus!
