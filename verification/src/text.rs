//! Text building blocks: decimal rendering of integers, word splitting and
//! the small string operations the chat handlers are written with.
use vstd::prelude::*;
use vstd::string::*;

verus! {

/// The character for a decimal digit `d` (`0 <= d < 10`).
pub open spec fn digit_char(d: nat) -> char {
    (48 + d) as char
}

/// Decimal rendering of a natural number, most significant digit first and
/// without leading zeros, as `Display` prints it.
pub open spec fn dec(n: nat) -> Seq<char>
    decreases n,
{
    if n < 10 {
        seq![digit_char(n)]
    } else {
        dec(n / 10).push(digit_char(n % 10))
    }
}

/// Decimal rendering of an integer: a leading `-` for negative values.
pub open spec fn sdec(i: int) -> Seq<char> {
    if i < 0 {
        seq!['-'] + dec((-i) as nat)
    } else {
        dec(i as nat)
    }
}

/// Numeric value of a string of decimal digits.
pub open spec fn digits_value(s: Seq<char>) -> nat
    decreases s.len(),
{
    if s.len() == 0 {
        0
    } else {
        (digits_value(s.drop_last()) * 10 + ((s.last() as int) - 48)) as nat
    }
}

/// Every character of `s` is one of `0`..`9`.
pub open spec fn all_digits(s: Seq<char>) -> bool {
    forall|i: int| 0 <= i < s.len() ==> '0' <= #[trigger] s[i] <= '9'
}

/// Calls std's `String::push`, which its documentation describes as
/// appending the character to the end of the string; the contract claims
/// exactly that of the string's characters.
#[verifier::external_body]
pub(crate) fn push_char(s: &mut String, c: char)
    ensures
        final(s)@ == old(s)@.push(c),
{
    s.push(c);
}

fn digit(d: u64) -> (c: char)
    requires
        d < 10,
    ensures
        c == digit_char(d as nat),
{
    let b: u8 = 48u8 + (d as u8);
    b as char
}

/// Appends the decimal rendering of `n` to `s`.
pub fn push_decimal(s: &mut String, n: u64)
    ensures
        final(s)@ == old(s)@ + dec(n as nat),
    decreases n,
{
    if n >= 10 {
        push_decimal(s, n / 10);
    }
    let c = digit(n % 10);
    push_char(s, c);
    assert(final(s)@ =~= old(s)@ + dec(n as nat));
}

/// Appends the decimal rendering of `i`, with a `-` when negative.
pub fn push_signed_decimal(s: &mut String, i: i64)
    ensures
        final(s)@ == old(s)@ + sdec(i as int),
{
    if i < 0 {
        push_char(s, '-');
        let magnitude: u64 = if i == i64::MIN {
            9223372036854775808u64
        } else {
            (-i) as u64
        };
        push_decimal(s, magnitude);
        assert(final(s)@ =~= old(s)@ + sdec(i as int));
    } else {
        push_decimal(s, i as u64);
    }
}

/// Decimal rendering of `n`, as `n.to_string()` gives it.
pub fn decimal(n: u64) -> (s: String)
    ensures
        s@ == dec(n as nat),
{
    let mut s = String::new();
    push_decimal(&mut s, n);
    assert(s@ =~= dec(n as nat));
    s
}

/// Decimal rendering of `i`, as `i.to_string()` gives it.
pub fn signed_decimal(i: i64) -> (s: String)
    ensures
        s@ == sdec(i as int),
{
    let mut s = String::new();
    push_signed_decimal(&mut s, i);
    assert(s@ =~= sdec(i as int));
    s
}

/// The decimal rendering is never empty, holds only digits, and reads back as
/// the number it was made from.
pub proof fn lemma_dec_round_trip(n: nat)
    ensures
        dec(n).len() > 0,
        all_digits(dec(n)),
        digits_value(dec(n)) == n,
    decreases n,
{
    assert(digit_char(n % 10) as int == 48 + n % 10);
    if n >= 10 {
        lemma_dec_round_trip(n / 10);
        let s = dec(n);
        assert(s.drop_last() =~= dec(n / 10));
        assert forall|i: int| 0 <= i < s.len() implies '0' <= #[trigger] s[i] <= '9' by {
            if i < s.len() - 1 {
                assert(s[i] == dec(n / 10)[i]);
            }
        }
        assert(s.last() == digit_char(n % 10));
        assert(digits_value(s) == digits_value(dec(n / 10)) * 10 + (n % 10));
    } else {
        assert(dec(n).drop_last() =~= Seq::<char>::empty());
        assert(digits_value(dec(n).drop_last()) == 0);
    }
}

/// Unicode `White_Space`, the set `char::is_whitespace` and
/// `str::split_whitespace` go by.
pub open spec fn is_ws(c: char) -> bool {
    ('\u{9}' <= c <= '\u{d}') || c == ' ' || c == '\u{85}' || c == '\u{a0}' || c == '\u{1680}'
        || ('\u{2000}' <= c <= '\u{200a}') || c == '\u{2028}' || c == '\u{2029}' || c
        == '\u{202f}' || c == '\u{205f}' || c == '\u{3000}'
}

/// `s` without its leading whitespace, as `str::trim_start` leaves it.
pub open spec fn trim_start(s: Seq<char>) -> Seq<char>
    decreases s.len(),
{
    if s.len() > 0 && is_ws(s[0]) {
        trim_start(s.drop_first())
    } else {
        s
    }
}

/// The characters of `s` up to its first whitespace.
pub open spec fn take_word(s: Seq<char>) -> Seq<char>
    decreases s.len(),
{
    if s.len() == 0 || is_ws(s[0]) {
        Seq::empty()
    } else {
        seq![s[0]] + take_word(s.drop_first())
    }
}

/// The first whitespace-separated word of `s`, or nothing when `s` is blank:
/// `s.split_whitespace().next().unwrap_or("")`.
pub open spec fn first_word(s: Seq<char>) -> Seq<char> {
    take_word(trim_start(s))
}

/// Whether `c` is one of the whitespace characters words are split at.
pub fn is_whitespace(c: char) -> (b: bool)
    ensures
        b == is_ws(c),
{
    ('\u{9}' <= c && c <= '\u{d}') || c == ' ' || c == '\u{85}' || c == '\u{a0}' || c
        == '\u{1680}' || ('\u{2000}' <= c && c <= '\u{200a}') || c == '\u{2028}' || c
        == '\u{2029}' || c == '\u{202f}' || c == '\u{205f}' || c == '\u{3000}'
}

/// The characters of `s`, in order.
pub fn chars_of(s: &str) -> (v: Vec<char>)
    ensures
        v@ == s@,
{
    let n = s.unicode_len();
    let mut v: Vec<char> = Vec::new();
    let mut i: usize = 0;
    while i < n
        invariant
            n == s@.len(),
            i <= n,
            v@ == s@.subrange(0, i as int),
        decreases n - i,
    {
        let c = s.get_char(i);
        v.push(c);
        i = i + 1;
        assert(v@ =~= s@.subrange(0, i as int));
    }
    assert(v@ =~= s@);
    v
}

/// A `String` holding `v[from..to]`.
pub fn string_of_range(v: &Vec<char>, from: usize, to: usize) -> (s: String)
    requires
        from <= to <= v.len(),
    ensures
        s@ == v@.subrange(from as int, to as int),
{
    let mut s = String::new();
    let mut i = from;
    while i < to
        invariant
            from <= i <= to <= v.len(),
            s@ == v@.subrange(from as int, i as int),
        decreases to - i,
    {
        push_char(&mut s, v[i]);
        i = i + 1;
        assert(s@ =~= v@.subrange(from as int, i as int));
    }
    s
}

/// Index of the first non-whitespace character of `v` at or after `from`.
fn skip_ws(v: &Vec<char>, from: usize) -> (k: usize)
    requires
        from <= v.len(),
    ensures
        from <= k <= v.len(),
        trim_start(v@.subrange(from as int, v.len() as int)) == v@.subrange(
            k as int,
            v.len() as int,
        ),
    decreases v.len() - from,
{
    let ghost rest = v@.subrange(from as int, v.len() as int);
    if from < v.len() && is_whitespace(v[from]) {
        assert(rest.drop_first() =~= v@.subrange(from + 1, v.len() as int));
        skip_ws(v, from + 1)
    } else {
        from
    }
}

/// Index just past the run of non-whitespace characters of `v` starting at `from`.
fn word_end(v: &Vec<char>, from: usize) -> (k: usize)
    requires
        from <= v.len(),
    ensures
        from <= k <= v.len(),
        take_word(v@.subrange(from as int, v.len() as int)) == v@.subrange(
            from as int,
            k as int,
        ),
    decreases v.len() - from,
{
    let ghost rest = v@.subrange(from as int, v.len() as int);
    if from < v.len() && !is_whitespace(v[from]) {
        assert(rest.drop_first() =~= v@.subrange(from + 1, v.len() as int));
        let k = word_end(v, from + 1);
        assert(seq![v@[from as int]] + v@.subrange(from + 1, k as int) =~= v@.subrange(
            from as int,
            k as int,
        ));
        k
    } else {
        assert(v@.subrange(from as int, from as int) =~= Seq::<char>::empty());
        from
    }
}

/// The first whitespace-separated word of `s`.
pub fn first_word_of(s: &str) -> (w: String)
    ensures
        w@ == first_word(s@),
{
    let v = chars_of(s);
    assert(v@.subrange(0, v.len() as int) =~= v@);
    let a = skip_ws(&v, 0);
    let b = word_end(&v, a);
    string_of_range(&v, a, b)
}

/// `s` with its leading whitespace removed.
pub fn trim_start_of(v: &Vec<char>, from: usize) -> (t: String)
    requires
        from <= v.len(),
    ensures
        t@ == trim_start(v@.subrange(from as int, v.len() as int)),
{
    let a = skip_ws(v, from);
    string_of_range(v, a, v.len())
}

} // verus!

verus! {

/// The contents of a list of strings.
pub open spec fn views(v: Seq<String>) -> Seq<Seq<char>> {
    v.map_values(|s: String| s@)
}

/// `s` with every occurrence of `x` taken out, the rest in order.
pub open spec fn without(s: Seq<Seq<char>>, x: Seq<char>) -> Seq<Seq<char>>
    decreases s.len(),
{
    if s.len() == 0 {
        s
    } else if s.last() == x {
        without(s.drop_last(), x)
    } else {
        without(s.drop_last(), x).push(s.last())
    }
}

pub proof fn lemma_without_absent(s: Seq<Seq<char>>, x: Seq<char>)
    ensures
        !without(s, x).contains(x),
        forall|y: Seq<char>| y != x ==> (#[trigger] without(s, x).contains(y) <==> s.contains(y)),
    decreases s.len(),
{
    if s.len() > 0 {
        lemma_without_absent(s.drop_last(), x);
        assert forall|y: Seq<char>| y != x implies (#[trigger] without(s, x).contains(y)
            <==> s.contains(y)) by {
            if s.contains(y) {
                let i = choose|i: int| 0 <= i < s.len() && s[i] == y;
                if i < s.len() - 1 {
                    assert(s.drop_last()[i] == y);
                }
            }
            if without(s.drop_last(), x).contains(y) {
                let j = choose|j: int|
                    0 <= j < without(s.drop_last(), x).len() && without(s.drop_last(), x)[j] == y;
                if s.drop_last().contains(y) {
                    let k = choose|k: int| 0 <= k < s.drop_last().len() && s.drop_last()[k] == y;
                    assert(s[k] == y);
                }
            }
            if s.last() != x {
                let w = without(s.drop_last(), x);
                if w.push(s.last()).contains(y) {
                    let j = choose|j: int| 0 <= j < w.push(s.last()).len() && w.push(s.last())[j] == y;
                    if j < w.len() {
                        assert(w[j] == y);
                    }
                }
                if w.contains(y) {
                    let j = choose|j: int| 0 <= j < w.len() && w[j] == y;
                    assert(w.push(s.last())[j] == y);
                }
                if y == s.last() {
                    assert(w.push(s.last())[w.len() as int] == y);
                }
            }
        }
    }
}

/// A copy of `v` without the strings equal to `x`.
pub fn remove_all(v: &Vec<String>, x: &String) -> (r: Vec<String>)
    ensures
        views(r@) == without(views(v@), x@),
{
    let mut r: Vec<String> = Vec::new();
    let mut i: usize = 0;
    while i < v.len()
        invariant
            i <= v.len(),
            views(r@) == without(views(v@.subrange(0, i as int)), x@),
        decreases v.len() - i,
    {
        let ghost prev = v@.subrange(0, i as int);
        let ghost next = v@.subrange(0, i + 1);
        assert(views(next).drop_last() =~= views(prev));
        assert(views(next).last() == v@[i as int]@);
        if v[i] != *x {
            r.push(v[i].clone());
            assert(views(r@) =~= without(views(prev), x@).push(v@[i as int]@));
        }
        i = i + 1;
    }
    assert(v@.subrange(0, v.len() as int) =~= v@);
    r
}

} // verus!

verus! {

/// `s` holds the chat separator `" : "` starting at `i`.
pub open spec fn sep_at(s: Seq<char>, i: int) -> bool {
    0 <= i && i + 3 <= s.len() && s[i] == ' ' && s[i + 1] == ':' && s[i + 2] == ' '
}

/// Where the first separator at or after `from` starts, if there is one.
pub open spec fn next_sep(s: Seq<char>, from: int) -> Option<int>
    decreases s.len() - from,
{
    if from < 0 || from + 3 > s.len() {
        None
    } else if sep_at(s, from) {
        Some(from)
    } else {
        next_sep(s, from + 1)
    }
}

/// `next_sep` finds the leftmost separator: the one it returns is there and
/// none starts between `from` and it; when it finds none, there is none.
pub proof fn lemma_next_sep_leftmost(s: Seq<char>, from: int)
    requires
        0 <= from,
    ensures
        next_sep(s, from) matches Some(i) ==> from <= i && sep_at(s, i) && forall|j: int|
            from <= j < i ==> !#[trigger] sep_at(s, j),
        next_sep(s, from) is None ==> forall|j: int| from <= j ==> !#[trigger] sep_at(s, j),
    decreases s.len() - from,
{
    if from + 3 <= s.len() && !sep_at(s, from) {
        lemma_next_sep_leftmost(s, from + 1);
        assert forall|j: int| from <= j && j < from + 1 implies !#[trigger] sep_at(s, j) by {}
    }
}

/// Who said a chat line `"name : text"`: what stands before its first
/// separator, if it has one.
pub open spec fn speaker(s: Seq<char>) -> Option<Seq<char>> {
    match next_sep(s, 0) {
        Some(i) => Some(s.subrange(0, i)),
        None => None,
    }
}

/// The second separator-delimited piece of a chat line: what stands between
/// its first separator and the next one, or the end.
pub open spec fn said(s: Seq<char>) -> Option<Seq<char>> {
    match next_sep(s, 0) {
        Some(i) => Some(
            match next_sep(s, i + 3) {
                Some(j) => s.subrange(i + 3, j),
                None => s.subrange(i + 3, s.len() as int),
            },
        ),
        None => None,
    }
}

/// The first separator of `v` at or after `from`.
fn find_sep(v: &Vec<char>, from: usize) -> (r: Option<usize>)
    requires
        from <= v.len(),
    ensures
        match r {
            Some(i) => next_sep(v@, from as int) == Some(i as int) && from <= i && i + 3 <= v.len(),
            None => next_sep(v@, from as int) is None,
        },
{
    let mut i = from;
    while v.len() >= 3 && i <= v.len() - 3
        invariant
            from <= i <= v.len(),
            next_sep(v@, from as int) == next_sep(v@, i as int),
        decreases v.len() - i,
    {
        if v[i] == ' ' && v[i + 1] == ':' && v[i + 2] == ' ' {
            return Some(i);
        }
        i = i + 1;
    }
    None
}

/// The speaker and what was said of a chat line, as `speaker` and `said` give them.
pub fn split_chat_line(s: &str) -> (r: Option<(String, String)>)
    ensures
        match r {
            Some((who, what)) => speaker(s@) == Some(who@) && said(s@) == Some(what@),
            None => speaker(s@) is None && said(s@) is None,
        },
{
    let v = chars_of(s);
    match find_sep(&v, 0) {
        None => None,
        Some(i) => {
            let who = string_of_range(&v, 0, i);
            let end = match find_sep(&v, i + 3) {
                Some(j) => j,
                None => v.len(),
            };
            let what = string_of_range(&v, i + 3, end);
            Some((who, what))
        },
    }
}

} // verus!
