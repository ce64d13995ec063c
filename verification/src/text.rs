//! Text as sequences of characters: whitespace and trimming, searching and
//! splitting on a pattern, the first line, truncation and decimal numerals.
//!
//! Every operation has a mathematical model over `Seq<char>`; the executable
//! functions work on `&str` and are proved to compute exactly that model.

use vstd::prelude::*;

verus! {

/// Whether `c` carries the Unicode property `White_Space`.
pub open spec fn whitespace(c: char) -> bool {
    let n = c as u32;
    ||| 0x09 <= n <= 0x0D
    ||| n == 0x20
    ||| n == 0x85
    ||| n == 0xA0
    ||| n == 0x1680
    ||| 0x2000 <= n <= 0x200A
    ||| n == 0x2028
    ||| n == 0x2029
    ||| n == 0x202F
    ||| n == 0x205F
    ||| n == 0x3000
}

/// `s` without its leading whitespace.
pub open spec fn trim_start(s: Seq<char>) -> Seq<char>
    decreases s.len(),
{
    if s.len() > 0 && whitespace(s[0]) {
        trim_start(s.drop_first())
    } else {
        s
    }
}

/// `s` without its trailing whitespace.
pub open spec fn trim_end(s: Seq<char>) -> Seq<char>
    decreases s.len(),
{
    if s.len() > 0 && whitespace(s.last()) {
        trim_end(s.drop_last())
    } else {
        s
    }
}

/// `s` without its leading and trailing whitespace.
pub open spec fn trim(s: Seq<char>) -> Seq<char> {
    trim_end(trim_start(s))
}

/// Whether every character of `s` is whitespace.
pub open spec fn blank(s: Seq<char>) -> bool {
    forall|i: int| 0 <= i < s.len() ==> whitespace(#[trigger] s[i])
}

/// `trim_start` cuts at the first character that is not whitespace.
pub proof fn lemma_trim_start(s: Seq<char>)
    ensures
        trim_start(s).len() <= s.len(),
        trim_start(s) == s.skip(s.len() - trim_start(s).len()),
        blank(s.take(s.len() - trim_start(s).len())),
        trim_start(s).len() > 0 ==> !whitespace(trim_start(s)[0]),
    decreases s.len(),
{
    if s.len() > 0 && whitespace(s[0]) {
        let rest = s.drop_first();
        lemma_trim_start(rest);
        let k = rest.len() - trim_start(rest).len();
        assert(rest.skip(k) =~= s.skip(k + 1));
        assert forall|i: int| 0 <= i < k + 1 implies whitespace(#[trigger] s.take(k + 1)[i]) by {
            if i > 0 {
                assert(s.take(k + 1)[i] == rest.take(k)[i - 1]);
            }
        }
    } else {
        assert(s.skip(0) =~= s);
    }
}

/// `trim_end` cuts behind the last character that is not whitespace.
pub proof fn lemma_trim_end(s: Seq<char>)
    ensures
        trim_end(s).len() <= s.len(),
        trim_end(s) == s.take(trim_end(s).len() as int),
        blank(s.skip(trim_end(s).len() as int)),
        trim_end(s).len() > 0 ==> !whitespace(trim_end(s).last()),
    decreases s.len(),
{
    if s.len() > 0 && whitespace(s.last()) {
        let rest = s.drop_last();
        lemma_trim_end(rest);
        let k = trim_end(rest).len() as int;
        assert(rest.take(k) =~= s.take(k));
        assert forall|i: int| 0 <= i < s.len() - k implies whitespace(#[trigger] s.skip(k)[i]) by {
            if i < s.len() - k - 1 {
                assert(s.skip(k)[i] == rest.skip(k)[i]);
            }
        }
    } else {
        assert(s.take(s.len() as int) =~= s);
    }
}

/// The bounds of `trim(s)` within `s`: blank before and behind, and, where
/// anything is left, a character that is not whitespace at either end.
pub proof fn lemma_trim_bounds(s: Seq<char>) -> (r: (int, int))
    ensures
        0 <= r.0 <= r.1 <= s.len(),
        trim(s) == s.subrange(r.0, r.1),
        blank(s.take(r.0)),
        blank(s.skip(r.1)),
        r.0 < r.1 ==> !whitespace(s[r.0]) && !whitespace(s[r.1 - 1]),
{
    lemma_trim_start(s);
    let t = trim_start(s);
    lemma_trim_end(t);
    let a = s.len() - t.len();
    let b = a + trim_end(t).len();
    assert(t.take(trim_end(t).len() as int) =~= s.subrange(a, b));
    assert(t.skip(trim_end(t).len() as int) =~= s.skip(b));
    (a, b)
}

/// Bounds with blanks before and behind them, and with a character that is
/// not whitespace at either end, are the bounds of `trim(s)`.
pub proof fn lemma_trim_is(s: Seq<char>, a: int, b: int)
    requires
        0 <= a <= b <= s.len(),
        blank(s.take(a)),
        blank(s.skip(b)),
        a < b ==> !whitespace(s[a]) && !whitespace(s[b - 1]),
    ensures
        trim(s) == s.subrange(a, b),
{
    let (x, y) = lemma_trim_bounds(s);
    if a < b {
        if x < a {
            assert(s.take(a)[x] == s[x]);
            if x < y {
            } else {
                assert(s.skip(y)[a - y] == s[a]);
            }
        }
        if a < x {
            assert(s.take(x)[a] == s[a]);
        }
        if y < b {
            assert(s.skip(y)[b - 1 - y] == s[b - 1]);
        }
        if b < y {
            assert(s.skip(b)[y - 1 - b] == s[y - 1]);
        }
    } else {
        if x < y {
            if x < a {
                assert(s.take(a)[x] == s[x]);
            } else {
                assert(s.skip(b)[x - b] == s[x]);
            }
        }
        assert(s.subrange(a, b) =~= s.subrange(x, y));
    }
}

/// Trimming leaves a trimmed text as it is, and a trimmed text that is not
/// empty has no whitespace at either end.
pub proof fn lemma_trim_idempotent(s: Seq<char>)
    ensures
        trim(trim(s)) == trim(s),
        trim(s).len() > 0 ==> !whitespace(trim(s)[0]) && !whitespace(trim(s).last()),
{
    lemma_trim_start(s);
    lemma_trim_end(trim_start(s));
}

/// A text trims to nothing exactly when it is blank.
pub proof fn lemma_blank_trims_empty(s: Seq<char>)
    ensures
        blank(s) <==> trim(s).len() == 0,
{
    let (a, b) = lemma_trim_bounds(s);
    if blank(s) {
        if a < b {
            assert(whitespace(s[a]));
        }
    } else {
        let i = choose|i: int| 0 <= i < s.len() && !whitespace(#[trigger] s[i]);
        if a == b {
            if i < a {
                assert(s.take(a)[i] == s[i]);
            } else {
                assert(s.skip(b)[i - b] == s[i]);
            }
        }
    }
}

/// Whether `pat` stands in `s` at index `i`.
pub open spec fn occurs_at(s: Seq<char>, pat: Seq<char>, i: int) -> bool {
    0 <= i && i + pat.len() <= s.len() && s.subrange(i, i + pat.len()) == pat
}

/// The least index at or after `from` at which `pat` stands in `s`.
pub open spec fn first_occurrence_from(s: Seq<char>, pat: Seq<char>, from: int) -> Option<int>
    decreases s.len() - from,
{
    if from < 0 || from + pat.len() > s.len() {
        None
    } else if occurs_at(s, pat, from) {
        Some(from)
    } else if from == s.len() {
        None
    } else {
        first_occurrence_from(s, pat, from + 1)
    }
}

/// The least index at which `pat` stands in `s`.
pub open spec fn first_occurrence(s: Seq<char>, pat: Seq<char>) -> Option<int> {
    first_occurrence_from(s, pat, 0)
}

/// `first_occurrence_from` gives an occurrence with none before it, or there is none.
pub proof fn lemma_first_occurrence_from(s: Seq<char>, pat: Seq<char>, from: int)
    requires
        0 <= from,
    ensures
        match first_occurrence_from(s, pat, from) {
            Some(i) => from <= i && occurs_at(s, pat, i) && forall|j: int|
                from <= j < i ==> !occurs_at(s, pat, j),
            None => forall|j: int| from <= j ==> !occurs_at(s, pat, j),
        },
    decreases s.len() - from,
{
    if from + pat.len() > s.len() {
    } else if occurs_at(s, pat, from) {
    } else if from == s.len() {
    } else {
        lemma_first_occurrence_from(s, pat, from + 1);
    }
}

/// An occurrence with none between `from` and it is the first one from `from`.
pub proof fn lemma_first_occurrence_is(s: Seq<char>, pat: Seq<char>, from: int, i: int)
    requires
        0 <= from <= i,
        occurs_at(s, pat, i),
        forall|j: int| from <= j < i ==> !occurs_at(s, pat, j),
    ensures
        first_occurrence_from(s, pat, from) == Some(i),
{
    lemma_first_occurrence_from(s, pat, from);
}

/// Where no occurrence starts at or after `from`, there is no first one.
pub proof fn lemma_first_occurrence_none(s: Seq<char>, pat: Seq<char>, from: int)
    requires
        0 <= from,
        forall|j: int| from <= j ==> !occurs_at(s, pat, j),
    ensures
        first_occurrence_from(s, pat, from) is None,
{
    lemma_first_occurrence_from(s, pat, from);
}

/// Searching the rest of `s` behind `from` is searching `s` from `from`.
pub proof fn lemma_first_occurrence_skip(s: Seq<char>, pat: Seq<char>, from: int)
    requires
        0 <= from <= s.len(),
    ensures
        first_occurrence(s.skip(from), pat) == match first_occurrence_from(s, pat, from) {
            Some(i) => Some(i - from),
            None => None,
        },
{
    let rest = s.skip(from);
    lemma_first_occurrence_from(s, pat, from);
    assert forall|j: int| 0 <= j implies occurs_at(rest, pat, j) == occurs_at(s, pat, from + j) by {
        if j + pat.len() <= rest.len() {
            assert(rest.subrange(j, j + pat.len()) =~= s.subrange(from + j, from + j + pat.len()));
        }
    }
    match first_occurrence_from(s, pat, from) {
        Some(i) => {
            assert forall|j: int| 0 <= j < i - from implies !occurs_at(rest, pat, j) by {
                assert(!occurs_at(s, pat, from + j));
            }
            lemma_first_occurrence_is(rest, pat, 0, i - from);
        },
        None => {
            assert forall|j: int| 0 <= j implies !occurs_at(rest, pat, j) by {
                assert(!occurs_at(s, pat, from + j));
            }
            lemma_first_occurrence_none(rest, pat, 0);
        },
    }
}

/// The pieces of `s` between the occurrences of `pat`, found from left to
/// right, each search starting behind the occurrence before it.
pub open spec fn split(s: Seq<char>, pat: Seq<char>) -> Seq<Seq<char>>
    recommends
        pat.len() > 0,
    decreases s.len(),
    when pat.len() > 0
{
    match first_occurrence(s, pat) {
        None => seq![s],
        Some(i) => {
            proof {
                lemma_first_occurrence_from(s, pat, 0);
            }
            seq![s.take(i)] + split(s.skip(i + pat.len()), pat)
        },
    }
}

/// A text always splits into at least one piece, and into at least two
/// where the pattern occurs in it.
pub proof fn lemma_split_len(s: Seq<char>, pat: Seq<char>)
    requires
        pat.len() > 0,
    ensures
        split(s, pat).len() >= 1,
        (exists|i: int| occurs_at(s, pat, i)) ==> split(s, pat).len() >= 2,
        first_occurrence(s, pat) is None ==> split(s, pat) == seq![s],
    decreases s.len(),
{
    lemma_first_occurrence_from(s, pat, 0);
    match first_occurrence(s, pat) {
        None => {},
        Some(i) => {
            lemma_split_len(s.skip(i + pat.len()), pat);
        },
    }
}

/// Where `pat` occurs in `a + pat + b` only between `a` and `b`, the text
/// splits into `a` and `b`.
pub proof fn lemma_split_once(a: Seq<char>, b: Seq<char>, pat: Seq<char>)
    requires
        pat.len() > 0,
        forall|i: int| occurs_at(a + pat + b, pat, i) ==> i == a.len(),
    ensures
        split(a + pat + b, pat) == seq![a, b],
{
    let s = a + pat + b;
    let m = pat.len() as int;
    let k = a.len() as int;
    assert(s.subrange(k, k + m) =~= pat);
    lemma_first_occurrence_is(s, pat, 0, k);
    assert(s.take(k) =~= a);
    assert(s.skip(k + m) =~= b);
    assert forall|j: int| 0 <= j implies !occurs_at(b, pat, j) by {
        if occurs_at(b, pat, j) {
            assert(s.subrange(k + m + j, k + m + j + m) =~= b.subrange(j, j + m));
            assert(occurs_at(s, pat, k + m + j));
        }
    }
    lemma_first_occurrence_none(b, pat, 0);
    lemma_split_len(b, pat);
    assert(split(s, pat) =~= seq![a, b]);
}

/// Two occurrences of `pat` that do not overlap make at least three pieces.
pub proof fn lemma_split_twice(s: Seq<char>, pat: Seq<char>, i: int, j: int)
    requires
        pat.len() > 0,
        occurs_at(s, pat, i),
        occurs_at(s, pat, j),
        i + pat.len() <= j,
    ensures
        split(s, pat).len() >= 3,
{
    let m = pat.len() as int;
    lemma_first_occurrence_from(s, pat, 0);
    let f = first_occurrence(s, pat)->0;
    assert(f <= i);
    let rest = s.skip(f + m);
    assert(rest.subrange(j - f - m, j - f) =~= s.subrange(j, j + m));
    assert(occurs_at(rest, pat, j - f - m));
    lemma_split_len(rest, pat);
}

/// The pieces of `s` that the index pairs of `ranges` bound.
pub open spec fn pieces(s: Seq<char>, ranges: Seq<(usize, usize)>) -> Seq<Seq<char>> {
    Seq::new(ranges.len(), |k: int| s.subrange(ranges[k].0 as int, ranges[k].1 as int))
}

/// Whether `s` begins with `prefix`.
pub open spec fn has_prefix(s: Seq<char>, prefix: Seq<char>) -> bool {
    prefix.len() <= s.len() && s.take(prefix.len() as int) == prefix
}

/// The line feed as a pattern of one character.
pub open spec fn line_feed() -> Seq<char> {
    seq!['\n']
}

/// `s` up to its first line feed, or all of `s` where it has none.
pub open spec fn up_to_line_feed(s: Seq<char>) -> Seq<char> {
    match first_occurrence(s, line_feed()) {
        Some(i) => s.take(i),
        None => s,
    }
}

/// The first line of `s`, trimmed.
pub open spec fn first_line(s: Seq<char>) -> Seq<char> {
    trim(up_to_line_feed(s))
}

/// The first `limit` characters of `s`, or all of `s` where it has fewer.
pub open spec fn truncate(s: Seq<char>, limit: nat) -> Seq<char> {
    if s.len() <= limit {
        s
    } else {
        s.take(limit as int)
    }
}

/// The character that writes the digit `d`.
pub open spec fn digit(d: nat) -> char
    recommends
        d < 10,
{
    if d == 0 {
        '0'
    } else if d == 1 {
        '1'
    } else if d == 2 {
        '2'
    } else if d == 3 {
        '3'
    } else if d == 4 {
        '4'
    } else if d == 5 {
        '5'
    } else if d == 6 {
        '6'
    } else if d == 7 {
        '7'
    } else if d == 8 {
        '8'
    } else {
        '9'
    }
}

/// The decimal numeral of `n`, without leading zeros.
pub open spec fn decimal(n: nat) -> Seq<char>
    decreases n,
{
    if n < 10 {
        seq![digit(n)]
    } else {
        decimal(n / 10).push(digit(n % 10))
    }
}

/// Whether `c` is one of the digits `0` to `9`.
pub open spec fn decimal_digit(c: char) -> bool {
    '0' <= c <= '9'
}

/// Whether `s` is made of decimal digits alone.
pub open spec fn all_digits(s: Seq<char>) -> bool {
    forall|i: int| 0 <= i < s.len() ==> decimal_digit(#[trigger] s[i])
}

/// The number that the digit `c` writes.
pub open spec fn digit_value(c: char) -> nat
    recommends
        decimal_digit(c),
{
    (c as u32 - '0' as u32) as nat
}

/// The number that the digits of `s` write, leading zeros allowed.
pub open spec fn numeral_value(s: Seq<char>) -> nat
    recommends
        all_digits(s),
    decreases s.len(),
{
    if s.len() == 0 {
        0
    } else {
        numeral_value(s.drop_last()) * 10 + digit_value(s.last())
    }
}

/// A numeral is worth at least as much as each of its beginnings.
pub proof fn lemma_numeral_grows(s: Seq<char>, k: int)
    requires
        0 <= k <= s.len(),
    ensures
        numeral_value(s.take(k)) <= numeral_value(s),
    decreases s.len() - k,
{
    if k == s.len() {
        assert(s.take(k) =~= s);
    } else {
        lemma_numeral_grows(s, k + 1);
        assert(s.take(k + 1).drop_last() =~= s.take(k));
    }
}

/// Whether `c` is whitespace.
pub fn is_whitespace(c: char) -> (r: bool)
    ensures
        r == whitespace(c),
{
    let n: u32 = c as u32;
    (0x09 <= n && n <= 0x0D) || n == 0x20 || n == 0x85 || n == 0xA0 || n == 0x1680 || (0x2000 <= n
        && n <= 0x200A) || n == 0x2028 || n == 0x2029 || n == 0x202F || n == 0x205F || n == 0x3000
}

/// The characters of `s`, in order.
pub fn chars_of(s: &str) -> (v: Vec<char>)
    ensures
        v@ == s@,
{
    let mut v: Vec<char> = Vec::new();
    for c in it: s.chars()
        invariant
            it.seq() == s@,
            v@ == it.seq().take(it.index() as int),
    {
        v.push(c);
        assert(it.seq().take(it.index() + 1) =~= it.seq().take(it.index() as int).push(c));
    }
    assert(v@ =~= s@);
    v
}

/// The bounds of the trimmed part of `v[lo..hi]`.
pub fn trim_range(v: &Vec<char>, lo: usize, hi: usize) -> (r: (usize, usize))
    requires
        lo <= hi <= v.len(),
    ensures
        lo <= r.0 <= r.1 <= hi,
        v@.subrange(r.0 as int, r.1 as int) == trim(v@.subrange(lo as int, hi as int)),
{
    let mut a: usize = lo;
    while a < hi && is_whitespace(v[a])
        invariant
            lo <= a <= hi <= v.len(),
            trim_start(v@.subrange(a as int, hi as int)) == trim_start(
                v@.subrange(lo as int, hi as int),
            ),
        decreases hi - a,
    {
        assert(v@.subrange(a as int, hi as int).drop_first() =~= v@.subrange(a + 1, hi as int));
        a = a + 1;
    }
    assert(trim_start(v@.subrange(a as int, hi as int)) == v@.subrange(a as int, hi as int));
    let mut b: usize = hi;
    while a < b && is_whitespace(v[b - 1])
        invariant
            lo <= a <= b <= hi <= v.len(),
            trim_end(v@.subrange(a as int, b as int)) == trim_end(v@.subrange(a as int, hi as int)),
        decreases b - a,
    {
        assert(v@.subrange(a as int, b as int).drop_last() =~= v@.subrange(a as int, b - 1));
        b = b - 1;
    }
    assert(trim_end(v@.subrange(a as int, b as int)) == v@.subrange(a as int, b as int));
    (a, b)
}

/// Whether `pat` stands in `v` at index `i`.
pub fn matches_at(v: &Vec<char>, pat: &Vec<char>, i: usize) -> (r: bool)
    ensures
        r == occurs_at(v@, pat@, i as int),
{
    if pat.len() > v.len() || i > v.len() - pat.len() {
        return false;
    }
    let mut k: usize = 0;
    while k < pat.len()
        invariant
            k <= pat.len(),
            i + pat.len() <= v.len(),
            forall|j: int| 0 <= j < k ==> v@[i + j] == pat@[j],
        decreases pat.len() - k,
    {
        if v[i + k] != pat[k] {
            assert(v@.subrange(i as int, i + pat.len())[k as int] != pat@[k as int]);
            return false;
        }
        k = k + 1;
    }
    assert(v@.subrange(i as int, i + pat.len()) =~= pat@);
    true
}

/// The least index at or after `from` at which `pat` stands in `v`.
pub fn find_from(v: &Vec<char>, pat: &Vec<char>, from: usize) -> (r: Option<usize>)
    ensures
        match r {
            Some(i) => first_occurrence_from(v@, pat@, from as int) == Some(i as int),
            None => first_occurrence_from(v@, pat@, from as int) is None,
        },
{
    if pat.len() > v.len() || from > v.len() - pat.len() {
        return None;
    }
    let last: usize = v.len() - pat.len();
    let mut i: usize = from;
    loop
        invariant
            from <= i <= last,
            last == v.len() - pat.len(),
            forall|j: int| from <= j < i ==> !occurs_at(v@, pat@, j),
        decreases last - i,
    {
        if matches_at(v, pat, i) {
            proof {
                lemma_first_occurrence_is(v@, pat@, from as int, i as int);
            }
            return Some(i);
        }
        if i == last {
            proof {
                lemma_first_occurrence_none(v@, pat@, from as int);
            }
            return None;
        }
        i = i + 1;
    }
}

/// The bounds of the pieces into which `pat` splits `v`.
pub fn split_ranges(v: &Vec<char>, pat: &Vec<char>) -> (r: Vec<(usize, usize)>)
    requires
        pat.len() > 0,
    ensures
        pieces(v@, r@) == split(v@, pat@),
        forall|k: int| 0 <= k < r.len() ==> (#[trigger] r[k]).0 <= r[k].1 <= v.len(),
{
    let mut ranges: Vec<(usize, usize)> = Vec::new();
    let mut start: usize = 0;
    assert(v@.skip(0) =~= v@);
    assert(pieces(v@, ranges@) + split(v@.skip(0), pat@) =~= split(v@, pat@));
    loop
        invariant_except_break
            start <= v.len(),
            pat.len() > 0,
            forall|k: int| 0 <= k < ranges.len() ==> (#[trigger] ranges[k]).0 <= ranges[k].1 <= v.len(),
            pieces(v@, ranges@) + split(v@.skip(start as int), pat@) == split(v@, pat@),
        ensures
            pieces(v@, ranges@) == split(v@, pat@),
            forall|k: int| 0 <= k < ranges.len() ==> (#[trigger] ranges[k]).0 <= ranges[k].1 <= v.len(),
        decreases v.len() - start,
    {
        let ghost before = ranges@;
        let ghost rest = v@.skip(start as int);
        proof {
            lemma_first_occurrence_skip(v@, pat@, start as int);
            lemma_first_occurrence_from(v@, pat@, start as int);
        }
        match find_from(v, pat, start) {
            None => {
                ranges.push((start, v.len()));
                assert(split(rest, pat@) == seq![rest]);
                assert(pieces(v@, ranges@) =~= pieces(v@, before) + seq![rest]);
                break ;
            },
            Some(i) => {
                ranges.push((start, i));
                let next: usize = i + pat.len();
                assert(rest.take(i - start) =~= v@.subrange(start as int, i as int));
                assert(rest.skip(i - start + pat.len()) =~= v@.skip(next as int));
                assert(split(rest, pat@) == seq![rest.take(i - start)] + split(
                    rest.skip(i - start + pat.len()),
                    pat@,
                ));
                assert(pieces(v@, ranges@) =~= pieces(v@, before) + seq![
                    v@.subrange(start as int, i as int),
                ]);
                assert(pieces(v@, ranges@) + split(v@.skip(next as int), pat@) =~= pieces(
                    v@,
                    before,
                ) + split(rest, pat@));
                start = next;
            },
        }
    }
    ranges
}

/// Whether `v[lo..hi]` begins with `prefix`.
pub fn range_has_prefix(v: &Vec<char>, lo: usize, hi: usize, prefix: &Vec<char>) -> (r: bool)
    requires
        lo <= hi <= v.len(),
    ensures
        r == has_prefix(v@.subrange(lo as int, hi as int), prefix@),
{
    if prefix.len() > hi - lo {
        return false;
    }
    assert(v@.subrange(lo as int, hi as int).take(prefix.len() as int) =~= v@.subrange(
        lo as int,
        lo + prefix.len(),
    ));
    matches_at(v, prefix, lo)
}

/// The characters of `s` from index `lo` up to index `hi`, as a string of their own.
pub fn slice(s: &str, lo: usize, hi: usize) -> (r: String)
    requires
        lo <= hi <= s@.len(),
    ensures
        r@ == s@.subrange(lo as int, hi as int),
{
    s.substring_char(lo, hi).to_owned()
}

/// `s` without its leading and trailing whitespace.
pub fn trimmed(s: &str) -> (r: String)
    ensures
        r@ == trim(s@),
{
    let v = chars_of(s);
    assert(v@.subrange(0, v.len() as int) =~= v@);
    let (a, b) = trim_range(&v, 0, v.len());
    slice(s, a, b)
}

/// The first line of `s`, trimmed.
pub fn first_line_of(s: &str) -> (r: String)
    ensures
        r@ == first_line(s@),
{
    let v = chars_of(s);
    let feed = chars_of("\n");
    proof {
        reveal_strlit("\n");
        assert(feed@ =~= line_feed());
        lemma_first_occurrence_from(v@, feed@, 0);
    }
    let end: usize = match find_from(&v, &feed, 0) {
        Some(i) => i,
        None => v.len(),
    };
    assert(v@.subrange(0, end as int) =~= up_to_line_feed(v@));
    let (a, b) = trim_range(&v, 0, end);
    slice(s, a, b)
}

/// The first `limit` characters of `s`, or all of `s` where it has fewer.
pub fn truncated(s: &str, limit: usize) -> (r: String)
    ensures
        r@ == truncate(s@, limit as nat),
{
    let n: usize = s.unicode_len();
    if n <= limit {
        assert(s@.subrange(0, n as int) =~= s@);
        slice(s, 0, n)
    } else {
        slice(s, 0, limit)
    }
}

/// The text of the digit `d`.
pub fn digit_text(d: usize) -> (r: &'static str)
    requires
        d < 10,
    ensures
        r@ == seq![digit(d as nat)],
{
    proof {
        reveal_strlit("0");
        reveal_strlit("1");
        reveal_strlit("2");
        reveal_strlit("3");
        reveal_strlit("4");
        reveal_strlit("5");
        reveal_strlit("6");
        reveal_strlit("7");
        reveal_strlit("8");
        reveal_strlit("9");
    }
    let r: &'static str = if d == 0 {
        "0"
    } else if d == 1 {
        "1"
    } else if d == 2 {
        "2"
    } else if d == 3 {
        "3"
    } else if d == 4 {
        "4"
    } else if d == 5 {
        "5"
    } else if d == 6 {
        "6"
    } else if d == 7 {
        "7"
    } else if d == 8 {
        "8"
    } else {
        "9"
    };
    assert(r@ =~= seq![digit(d as nat)]);
    r
}

/// The decimal numeral of `n`.
pub fn decimal_string(n: usize) -> (r: String)
    ensures
        r@ == decimal(n as nat),
    decreases n,
{
    if n < 10 {
        digit_text(n).to_owned()
    } else {
        let mut text = decimal_string(n / 10);
        text.append(digit_text(n % 10));
        assert(text@ =~= decimal((n / 10) as nat).push(digit((n % 10) as nat)));
        text
    }
}

/// Whether `c` is one of the digits `0` to `9`.
pub fn is_decimal_digit(c: char) -> (r: bool)
    ensures
        r == decimal_digit(c),
{
    '0' <= c && c <= '9'
}

/// Whether `v[lo..hi]` is made of decimal digits alone.
pub fn range_all_digits(v: &Vec<char>, lo: usize, hi: usize) -> (r: bool)
    requires
        lo <= hi <= v.len(),
    ensures
        r == all_digits(v@.subrange(lo as int, hi as int)),
{
    let mut i: usize = lo;
    while i < hi
        invariant
            lo <= i <= hi <= v.len(),
            all_digits(v@.subrange(lo as int, i as int)),
        decreases hi - i,
    {
        if !is_decimal_digit(v[i]) {
            assert(v@.subrange(lo as int, hi as int)[i - lo] == v@[i as int]);
            return false;
        }
        assert forall|j: int| 0 <= j < i + 1 - lo implies decimal_digit(
            #[trigger] v@.subrange(lo as int, i + 1)[j],
        ) by {
            if j < i - lo {
                assert(v@.subrange(lo as int, i as int)[j] == v@[lo + j]);
            }
        }
        i = i + 1;
    }
    true
}

} // verus!
