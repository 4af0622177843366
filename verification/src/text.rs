//! Character-level text operations with their specifications.
//!
//! Every operation works on sequences of Unicode scalar values (`char`), which
//! is how `str` is viewed in specifications. Matching on characters agrees with
//! matching on the UTF-8 bytes of the same text, since UTF-8 is self-synchronizing.
use vstd::prelude::*;

verus! {

// ---------------------------------------------------------------------
// Specifications
// ---------------------------------------------------------------------

/// The Unicode `White_Space` property, which is what `char::is_whitespace`
/// and `str::trim` test.
pub open spec fn is_white_space(c: char) -> bool {
    ||| ('\u{9}' <= c && c <= '\u{d}')
    ||| c == ' '
    ||| c == '\u{85}'
    ||| c == '\u{a0}'
    ||| c == '\u{1680}'
    ||| ('\u{2000}' <= c && c <= '\u{200a}')
    ||| c == '\u{2028}'
    ||| c == '\u{2029}'
    ||| c == '\u{202f}'
    ||| c == '\u{205f}'
    ||| c == '\u{3000}'
}

/// `s` without its leading white space.
pub open spec fn trim_start(s: Seq<char>) -> Seq<char>
    decreases s.len(),
{
    if s.len() > 0 && is_white_space(s[0]) {
        trim_start(s.drop_first())
    } else {
        s
    }
}

/// `s` without its trailing white space.
pub open spec fn trim_end(s: Seq<char>) -> Seq<char>
    decreases s.len(),
{
    if s.len() > 0 && is_white_space(s.last()) {
        trim_end(s.drop_last())
    } else {
        s
    }
}

/// `s` without leading and trailing white space (what `str::trim` returns).
pub open spec fn trimmed(s: Seq<char>) -> Seq<char> {
    trim_end(trim_start(s))
}

/// `s` without every trailing occurrence of `c` (what `str::trim_end_matches` returns
/// for a single character).
pub open spec fn trim_end_char(s: Seq<char>, c: char) -> Seq<char>
    decreases s.len(),
{
    if s.len() > 0 && s.last() == c {
        trim_end_char(s.drop_last(), c)
    } else {
        s
    }
}

pub open spec fn has_prefix(s: Seq<char>, p: Seq<char>) -> bool {
    p.len() <= s.len() && s.subrange(0, p.len() as int) == p
}

pub open spec fn has_suffix(s: Seq<char>, p: Seq<char>) -> bool {
    p.len() <= s.len() && s.subrange(s.len() - p.len(), s.len() as int) == p
}

/// `pat` occurs in `s` starting at position `i`.
pub open spec fn occurs_at(s: Seq<char>, pat: Seq<char>, i: int) -> bool {
    0 <= i && i + pat.len() <= s.len() && s.subrange(i, i + pat.len()) == pat
}

/// `pat` occurs somewhere in `s`.
pub open spec fn contains_seq(s: Seq<char>, pat: Seq<char>) -> bool {
    exists|i: int| occurs_at(s, pat, i)
}

/// Every non-overlapping occurrence of `from` in `s`, taken from left to right,
/// replaced by `to` (what `str::replace` returns for a non-empty pattern).
pub open spec fn replaced(s: Seq<char>, from: Seq<char>, to: Seq<char>) -> Seq<char>
    recommends
        from.len() > 0,
    decreases s.len(),
{
    if from.len() == 0 || s.len() < from.len() {
        s
    } else if s.subrange(0, from.len() as int) == from {
        to + replaced(s.subrange(from.len() as int, s.len() as int), from, to)
    } else {
        seq![s[0]] + replaced(s.drop_first(), from, to)
    }
}

/// ASCII lower-casing of one character; every other character is left as is.
pub open spec fn ascii_lower(c: char) -> char {
    if 'A' <= c && c <= 'Z' {
        ((c as u32) + 32) as char
    } else {
        c
    }
}

/// ASCII upper-casing of one character; every other character is left as is.
pub open spec fn ascii_upper(c: char) -> char {
    if 'a' <= c && c <= 'z' {
        ((c as u32) - 32) as char
    } else {
        c
    }
}

/// Every character of `s` is ASCII (what `str::is_ascii` decides).
pub open spec fn is_ascii_text(s: Seq<char>) -> bool {
    forall|i: int| 0 <= i < s.len() ==> (#[trigger] s[i] as u32) < 128
}

/// `s` with every ASCII letter lower-cased (what `str::to_ascii_lowercase` returns).
pub open spec fn ascii_lowered(s: Seq<char>) -> Seq<char> {
    s.map_values(|c: char| ascii_lower(c))
}

/// `s` with every ASCII letter upper-cased (what `str::to_ascii_uppercase` returns).
pub open spec fn ascii_uppered(s: Seq<char>) -> Seq<char> {
    s.map_values(|c: char| ascii_upper(c))
}

/// Equality up to ASCII case (what `str::eq_ignore_ascii_case` decides).
pub open spec fn eq_ignore_ascii_case(a: Seq<char>, b: Seq<char>) -> bool {
    a.len() == b.len() && forall|i: int|
        0 <= i < a.len() ==> #[trigger] ascii_lower(a[i]) == ascii_lower(b[i])
}

/// The pieces of `s` between the occurrences of `sep` (what `str::split` yields
/// for a single character): there is always one more piece than separators.
pub open spec fn split_char(s: Seq<char>, sep: char) -> Seq<Seq<char>>
    decreases s.len(),
{
    if s.len() == 0 {
        seq![Seq::<char>::empty()]
    } else {
        let rest = split_char(s.drop_first(), sep);
        if s[0] == sep {
            seq![Seq::<char>::empty()] + rest
        } else {
            rest.update(0, seq![s[0]] + rest[0])
        }
    }
}

/// The Unicode lower-case mapping of a string, as `str::to_lowercase` computes it.
pub uninterp spec fn unicode_lowercase(s: Seq<char>) -> Seq<char>;

/// The Unicode upper-case mapping of a string, as `str::to_uppercase` computes it.
pub uninterp spec fn unicode_uppercase(s: Seq<char>) -> Seq<char>;

// ---------------------------------------------------------------------
// Calls into std whose result is named above
// ---------------------------------------------------------------------

/// Calls `str::to_lowercase`; the result is the Unicode lower-case mapping of the
/// input, named `unicode_lowercase` (it is context-sensitive for a final sigma,
/// so it is not stated character by character). On ASCII text the Unicode
/// mapping is the ASCII one: `A`..`Z` become `a`..`z` and every other ASCII
/// character stays, which is stated.
#[verifier::external_body]
pub(crate) fn to_lowercase(s: &str) -> (res: String)
    ensures
        res@ == unicode_lowercase(s@),
        is_ascii_text(s@) ==> res@ == ascii_lowered(s@),
{
    s.to_lowercase()
}

/// Calls `str::to_uppercase`; the result is the Unicode upper-case mapping of the
/// input, named `unicode_uppercase`. On ASCII text the Unicode mapping is the
/// ASCII one: `a`..`z` become `A`..`Z` and every other ASCII character stays,
/// which is stated.
#[verifier::external_body]
pub(crate) fn to_uppercase(s: &str) -> (res: String)
    ensures
        res@ == unicode_uppercase(s@),
        is_ascii_text(s@) ==> res@ == ascii_uppered(s@),
{
    s.to_uppercase()
}

/// Calls `String::from_iter` on characters: the string holds exactly those characters.
#[verifier::external_body]
pub(crate) fn string_from_chars(chars: Vec<char>) -> (res: String)
    ensures
        res@ == chars@,
{
    String::from_iter(chars)
}

// ---------------------------------------------------------------------
// Lemmas
// ---------------------------------------------------------------------

proof fn lemma_trim_start_step(s: Seq<char>, i: int)
    requires
        0 <= i < s.len(),
        is_white_space(s[i]),
    ensures
        trim_start(s.subrange(i, s.len() as int)) == trim_start(s.subrange(i + 1, s.len() as int)),
{
    assert(s.subrange(i, s.len() as int).drop_first() =~= s.subrange(i + 1, s.len() as int));
}

proof fn lemma_trim_end_step(s: Seq<char>, a: int, j: int)
    requires
        0 <= a < j <= s.len(),
        is_white_space(s[j - 1]),
    ensures
        trim_end(s.subrange(a, j)) == trim_end(s.subrange(a, j - 1)),
{
    assert(s.subrange(a, j).drop_last() =~= s.subrange(a, j - 1));
}

proof fn lemma_replaced_short(s: Seq<char>, from: Seq<char>, to: Seq<char>)
    requires
        s.len() < from.len(),
    ensures
        replaced(s, from, to) == s,
{
}

/// Every character of `s` is white space.
pub open spec fn all_white_space(s: Seq<char>) -> bool {
    forall|i: int| 0 <= i < s.len() ==> #[trigger] is_white_space(s[i])
}

proof fn lemma_trim_start_skips_blanks(p: Seq<char>, t: Seq<char>)
    requires
        all_white_space(p),
    ensures
        trim_start(p + t) == trim_start(t),
    decreases p.len(),
{
    if p.len() == 0 {
        assert(p + t =~= t);
    } else {
        assert(is_white_space(p[0]));
        assert((p + t)[0] == p[0]);
        assert((p + t).drop_first() =~= p.drop_first() + t);
        assert(all_white_space(p.drop_first())) by {
            assert forall|i: int| 0 <= i < p.drop_first().len() implies #[trigger] is_white_space(
                p.drop_first()[i],
            ) by {
                assert(p.drop_first()[i] == p[i + 1]);
            }
        }
        lemma_trim_start_skips_blanks(p.drop_first(), t);
    }
}

proof fn lemma_trim_end_skips_blanks(t: Seq<char>, q: Seq<char>)
    requires
        all_white_space(q),
    ensures
        trim_end(t + q) == trim_end(t),
    decreases q.len(),
{
    if q.len() == 0 {
        assert(t + q =~= t);
    } else {
        assert(is_white_space(q[q.len() - 1]));
        assert((t + q).last() == q[q.len() - 1]);
        assert((t + q).drop_last() =~= t + q.drop_last());
        assert(all_white_space(q.drop_last())) by {
            assert forall|i: int| 0 <= i < q.drop_last().len() implies #[trigger] is_white_space(
                q.drop_last()[i],
            ) by {
                assert(q.drop_last()[i] == q[i]);
            }
        }
        lemma_trim_end_skips_blanks(t, q.drop_last());
    }
}

proof fn lemma_trimmed_ignores_trailing_blanks(s: Seq<char>, q: Seq<char>)
    requires
        all_white_space(q),
    ensures
        trimmed(s + q) == trimmed(s),
    decreases s.len(),
{
    if s.len() == 0 {
        assert(s + q =~= q);
        assert(q =~= q + Seq::<char>::empty());
        lemma_trim_start_skips_blanks(q, Seq::<char>::empty());
    } else if is_white_space(s[0]) {
        assert((s + q)[0] == s[0]);
        assert((s + q).drop_first() =~= s.drop_first() + q);
        lemma_trimmed_ignores_trailing_blanks(s.drop_first(), q);
    } else {
        assert((s + q)[0] == s[0]);
        lemma_trim_end_skips_blanks(s, q);
    }
}

/// White space around a value never changes what `str::trim` gives back.
pub proof fn lemma_trimmed_ignores_surrounding_blanks(p: Seq<char>, s: Seq<char>, q: Seq<char>)
    requires
        all_white_space(p),
        all_white_space(q),
    ensures
        trimmed(p + s + q) == trimmed(s),
{
    assert(p + s + q =~= p + (s + q));
    lemma_trim_start_skips_blanks(p, s + q);
    lemma_trimmed_ignores_trailing_blanks(s, q);
}

proof fn lemma_trim_start_keeps_ascii(s: Seq<char>)
    requires
        is_ascii_text(s),
    ensures
        is_ascii_text(trim_start(s)),
    decreases s.len(),
{
    if s.len() > 0 {
        assert(is_ascii_text(s.drop_first())) by {
            assert forall|i: int| 0 <= i < s.drop_first().len() implies (#[trigger] s.drop_first()[i]
                as u32) < 128 by {
                assert(s.drop_first()[i] == s[i + 1]);
            }
        }
        lemma_trim_start_keeps_ascii(s.drop_first());
    }
}

proof fn lemma_trim_end_keeps_ascii(s: Seq<char>)
    requires
        is_ascii_text(s),
    ensures
        is_ascii_text(trim_end(s)),
    decreases s.len(),
{
    if s.len() > 0 {
        assert(is_ascii_text(s.drop_last())) by {
            assert forall|i: int| 0 <= i < s.drop_last().len() implies (#[trigger] s.drop_last()[i]
                as u32) < 128 by {
                assert(s.drop_last()[i] == s[i]);
            }
        }
        lemma_trim_end_keeps_ascii(s.drop_last());
    }
}

proof fn lemma_trim_start_uppered(s: Seq<char>)
    ensures
        trim_start(ascii_uppered(s)) == ascii_uppered(trim_start(s)),
    decreases s.len(),
{
    if s.len() > 0 {
        assert(ascii_uppered(s)[0] == ascii_upper(s[0]));
        assert(ascii_uppered(s).drop_first() =~= ascii_uppered(s.drop_first()));
        lemma_trim_start_uppered(s.drop_first());
    } else {
        assert(ascii_uppered(s) =~= s);
    }
}

proof fn lemma_trim_end_uppered(s: Seq<char>)
    ensures
        trim_end(ascii_uppered(s)) == ascii_uppered(trim_end(s)),
    decreases s.len(),
{
    if s.len() > 0 {
        assert(ascii_uppered(s).last() == ascii_upper(s.last()));
        assert(ascii_uppered(s).drop_last() =~= ascii_uppered(s.drop_last()));
        lemma_trim_end_uppered(s.drop_last());
    } else {
        assert(ascii_uppered(s) =~= s);
    }
}

/// Upper-casing ASCII letters commutes with trimming, keeps ASCII text ASCII, and
/// lower-casing afterwards gives what lower-casing alone gives.
pub proof fn lemma_ascii_upper_then_lower(s: Seq<char>)
    ensures
        trimmed(ascii_uppered(s)) == ascii_uppered(trimmed(s)),
        ascii_lowered(ascii_uppered(s)) == ascii_lowered(s),
        is_ascii_text(s) ==> is_ascii_text(ascii_uppered(s)),
        is_ascii_text(s) ==> is_ascii_text(trimmed(s)),
{
    lemma_trim_start_uppered(s);
    lemma_trim_end_uppered(trim_start(s));
    assert(ascii_lowered(ascii_uppered(s)) =~= ascii_lowered(s));
    if is_ascii_text(s) {
        assert forall|i: int| 0 <= i < ascii_uppered(s).len() implies (
        #[trigger] ascii_uppered(s)[i] as u32) < 128 by {
            assert(ascii_uppered(s)[i] == ascii_upper(s[i]));
            assert((s[i] as u32) < 128);
        }
        lemma_trim_start_keeps_ascii(s);
        lemma_trim_end_keeps_ascii(trim_start(s));
    }
}

/// Two texts are equal up to ASCII case exactly when their ASCII lower-casings
/// are equal.
pub proof fn lemma_eq_ignore_ascii_case_is_lowered_equality(a: Seq<char>, b: Seq<char>)
    ensures
        eq_ignore_ascii_case(a, b) <==> ascii_lowered(a) == ascii_lowered(b),
{
    if ascii_lowered(a) == ascii_lowered(b) {
        assert forall|i: int| 0 <= i < a.len() implies #[trigger] ascii_lower(a[i]) == ascii_lower(
            b[i],
        ) by {
            assert(ascii_lowered(a)[i] == ascii_lowered(b)[i]);
        }
    }
    if eq_ignore_ascii_case(a, b) {
        assert(ascii_lowered(a) =~= ascii_lowered(b));
    }
}

// ---------------------------------------------------------------------
// Executable operations
// ---------------------------------------------------------------------

/// Collects the characters of a string slice.
pub fn to_chars(s: &str) -> (res: Vec<char>)
    ensures
        res@ == s@,
{
    let mut res: Vec<char> = Vec::new();
    for c in it: s.chars()
        invariant
            res@ == it.seq().take(it.index() as int),
            it.seq() == s@,
    {
        res.push(c);
    }
    res
}

/// Appends `items` to `out`.
pub fn push_all(out: &mut Vec<char>, items: &[char])
    ensures
        final(out)@ == old(out)@ + items@,
{
    let n = items.len();
    for k in 0..n
        invariant
            n == items@.len(),
            out@ == old(out)@ + items@.take(k as int),
    {
        out.push(items[k]);
        assert(items@.take(k + 1) =~= items@.take(k as int).push(items@[k as int]));
    }
    assert(items@.take(n as int) =~= items@);
}

/// Copies `s[from..to]`.
pub fn copy_range(s: &[char], from: usize, to: usize) -> (res: Vec<char>)
    requires
        from <= to <= s@.len(),
    ensures
        res@ == s@.subrange(from as int, to as int),
{
    let mut res: Vec<char> = Vec::new();
    push_all(&mut res, &s[from..to]);
    res
}

/// Whether `c` is white space (what `char::is_whitespace` decides).
pub fn is_whitespace(c: char) -> (res: bool)
    ensures
        res == is_white_space(c),
{
    ('\u{9}' <= c && c <= '\u{d}') || c == ' ' || c == '\u{85}' || c == '\u{a0}' || c
        == '\u{1680}' || ('\u{2000}' <= c && c <= '\u{200a}') || c == '\u{2028}' || c
        == '\u{2029}' || c == '\u{202f}' || c == '\u{205f}' || c == '\u{3000}'
}

/// The bounds of `s` without its surrounding white space.
pub fn trim_bounds(s: &[char]) -> (res: (usize, usize))
    ensures
        res.0 <= res.1 <= s@.len(),
        trimmed(s@) == s@.subrange(res.0 as int, res.1 as int),
{
    let n = s.len();
    let mut i: usize = 0;
    assert(s@.subrange(0, n as int) =~= s@);
    while i < n && is_whitespace(s[i])
        invariant
            i <= n == s@.len(),
            trim_start(s@) == trim_start(s@.subrange(i as int, n as int)),
        decreases n - i,
    {
        proof {
            lemma_trim_start_step(s@, i as int);
        }
        i = i + 1;
    }
    let a = i;
    assert(trim_start(s@.subrange(a as int, n as int)) == s@.subrange(a as int, n as int));
    let mut j: usize = n;
    while j > a && is_whitespace(s[j - 1])
        invariant
            a <= j <= n == s@.len(),
            trim_end(s@.subrange(a as int, n as int)) == trim_end(s@.subrange(a as int, j as int)),
        decreases j,
    {
        proof {
            lemma_trim_end_step(s@, a as int, j as int);
        }
        j = j - 1;
    }
    assert(trim_end(s@.subrange(a as int, j as int)) == s@.subrange(a as int, j as int));
    (a, j)
}

/// `s` without surrounding white space.
pub fn trim(s: &[char]) -> (res: Vec<char>)
    ensures
        res@ == trimmed(s@),
{
    let (a, b) = trim_bounds(s);
    copy_range(s, a, b)
}

/// Whether `pat` occurs in `s` at position `i`.
pub fn matches_at(s: &[char], pat: &[char], i: usize) -> (res: bool)
    ensures
        res == occurs_at(s@, pat@, i as int),
{
    let n = s.len();
    let m = pat.len();
    if i > n || m > n - i {
        return false;
    }
    let mut k: usize = 0;
    while k < m
        invariant
            i + m <= n == s@.len(),
            m == pat@.len(),
            k <= m,
            forall|t: int| 0 <= t < k ==> s@[i + t] == pat@[t],
        decreases m - k,
    {
        if s[i + k] != pat[k] {
            assert(s@.subrange(i as int, i + m)[k as int] != pat@[k as int]);
            return false;
        }
        k = k + 1;
    }
    assert(s@.subrange(i as int, i + m) =~= pat@);
    true
}

/// Whether `s` begins with `p`.
pub fn starts_with(s: &[char], p: &[char]) -> (res: bool)
    ensures
        res == has_prefix(s@, p@),
{
    matches_at(s, p, 0)
}

/// Whether `s` ends with `p`.
pub fn ends_with(s: &[char], p: &[char]) -> (res: bool)
    ensures
        res == has_suffix(s@, p@),
{
    if p.len() > s.len() {
        return false;
    }
    matches_at(s, p, s.len() - p.len())
}

/// Whether `a` and `b` hold the same characters.
pub fn chars_equal(a: &[char], b: &[char]) -> (res: bool)
    ensures
        res == (a@ == b@),
{
    if a.len() != b.len() {
        return false;
    }
    let r = matches_at(a, b, 0);
    proof {
        if r {
            assert(a@.subrange(0, b@.len() as int) =~= a@);
        } else {
            assert(a@.subrange(0, b@.len() as int) =~= a@);
        }
    }
    r
}

/// Every non-overlapping occurrence of `from`, from left to right, replaced by `to`.
pub fn replace_all(s: &[char], from: &[char], to: &[char]) -> (res: Vec<char>)
    requires
        from@.len() > 0,
    ensures
        res@ == replaced(s@, from@, to@),
{
    let n = s.len();
    let m = from.len();
    let mut res: Vec<char> = Vec::new();
    let mut i: usize = 0;
    assert(s@.subrange(0, n as int) =~= s@);
    while i < n
        invariant
            i <= n == s@.len(),
            m == from@.len() > 0,
            res@ + replaced(s@.subrange(i as int, n as int), from@, to@) == replaced(s@, from@, to@),
        decreases n - i,
    {
        let ghost rest = s@.subrange(i as int, n as int);
        if m > n - i {
            proof {
                lemma_replaced_short(rest, from@, to@);
            }
            let tail = copy_range(s, i, n);
            push_all(&mut res, tail.as_slice());
            assert(res@ == replaced(s@, from@, to@));
            i = n;
            assert(s@.subrange(n as int, n as int) =~= Seq::<char>::empty());
        } else if matches_at(s, from, i) {
            assert(rest.subrange(0, m as int) =~= s@.subrange(i as int, i + m));
            assert(rest.subrange(m as int, rest.len() as int) =~= s@.subrange(i + m, n as int));
            push_all(&mut res, to);
            i = i + m;
        } else {
            assert(rest.subrange(0, m as int) =~= s@.subrange(i as int, i + m));
            assert(rest.drop_first() =~= s@.subrange(i + 1, n as int));
            res.push(s[i]);
            i = i + 1;
        }
    }
    assert(s@.subrange(n as int, n as int) =~= Seq::<char>::empty());
    res
}

/// Whether `a` and `b` are equal up to ASCII case.
pub fn equals_ignore_ascii_case(a: &[char], b: &[char]) -> (res: bool)
    ensures
        res == eq_ignore_ascii_case(a@, b@),
{
    if a.len() != b.len() {
        return false;
    }
    let n = a.len();
    let mut k: usize = 0;
    while k < n
        invariant
            n == a@.len() == b@.len(),
            k <= n,
            forall|t: int| 0 <= t < k ==> #[trigger] ascii_lower(a@[t]) == ascii_lower(b@[t]),
        decreases n - k,
    {
        if lower_ascii(a[k]) != lower_ascii(b[k]) {
            return false;
        }
        k = k + 1;
    }
    true
}

/// ASCII lower-casing of one character.
pub fn lower_ascii(c: char) -> (res: char)
    ensures
        res == ascii_lower(c),
{
    if 'A' <= c && c <= 'Z' {
        let code: u8 = c as u8;
        (code + 32) as char
    } else {
        c
    }
}

/// `s` without every trailing `c`.
pub fn trim_end_matches_char(s: &[char], c: char) -> (res: Vec<char>)
    ensures
        res@ == trim_end_char(s@, c),
{
    let n = s.len();
    let mut j: usize = n;
    assert(s@.subrange(0, n as int) =~= s@);
    while j > 0 && s[j - 1] == c
        invariant
            j <= n == s@.len(),
            trim_end_char(s@, c) == trim_end_char(s@.subrange(0, j as int), c),
        decreases j,
    {
        assert(s@.subrange(0, j as int).drop_last() =~= s@.subrange(0, j - 1));
        j = j - 1;
    }
    copy_range(s, 0, j)
}

/// The pieces of `s` between the occurrences of `sep`.
pub fn split_on(s: &[char], sep: char) -> (res: Vec<Vec<char>>)
    ensures
        res@.len() == split_char(s@, sep).len(),
        forall|k: int| 0 <= k < res@.len() ==> #[trigger] res@[k]@ == split_char(s@, sep)[k],
{
    let n = s.len();
    let mut pieces: Vec<Vec<char>> = Vec::new();
    let mut current: Vec<char> = Vec::new();
    let mut i: usize = n;
    // Built from the end, so that the recursion of `split_char` is followed step by step.
    assert(s@.subrange(n as int, n as int) =~= Seq::<char>::empty());
    while i > 0
        invariant
            i <= n == s@.len(),
            split_char(s@.subrange(i as int, n as int), sep).len() == pieces@.len() + 1,
            split_char(s@.subrange(i as int, n as int), sep)[0] == current@,
            forall|k: int| 0 <= k < pieces@.len() ==>
                #[trigger] pieces@[k]@ == split_char(s@.subrange(i as int, n as int), sep)[pieces@.len() - k],
        decreases i,
    {
        let ghost old_rest = s@.subrange(i as int, n as int);
        let ghost new_rest = s@.subrange(i - 1, n as int);
        assert(new_rest.drop_first() =~= old_rest);
        assert(new_rest[0] == s@[i - 1]);
        let c = s[i - 1];
        if c == sep {
            let done = current;
            pieces.push(done);
            current = Vec::new();
            assert(split_char(new_rest, sep) == seq![Seq::<char>::empty()] + split_char(old_rest, sep));
        } else {
            let mut next: Vec<char> = Vec::new();
            next.push(c);
            push_all(&mut next, current.as_slice());
            current = next;
        }
        i = i - 1;
    }
    assert(s@.subrange(0, n as int) =~= s@);
    let mut res: Vec<Vec<char>> = Vec::new();
    res.push(current);
    let m = pieces.len();
    let mut k: usize = m;
    while k > 0
        invariant
            k <= m == pieces@.len(),
            split_char(s@, sep).len() == m + 1,
            res@.len() == m + 1 - k,
            forall|t: int| 0 <= t < pieces@.len() ==>
                #[trigger] pieces@[t]@ == split_char(s@, sep)[m - t],
            split_char(s@, sep)[0] == res@[0]@,
            forall|t: int| 0 <= t < res@.len() ==> #[trigger] res@[t]@ == split_char(s@, sep)[t],
        decreases k,
    {
        let piece = copy_range(pieces[k - 1].as_slice(), 0, pieces[k - 1].len());
        assert(pieces@[k - 1]@.subrange(0, pieces@[k - 1]@.len() as int) =~= pieces@[k - 1]@);
        res.push(piece);
        k = k - 1;
    }
    res
}

/// Whether the characters of `s` are those of `lit`.
pub fn equals_literal(s: &[char], lit: &str) -> (res: bool)
    ensures
        res == (s@ == lit@),
{
    let l = to_chars(lit);
    chars_equal(s, l.as_slice())
}

/// The characters of an optional string.
pub open spec fn opt_view(o: Option<String>) -> Option<Seq<char>> {
    match o {
        Some(s) => Some(s@),
        None => None,
    }
}

/// `a` followed by `b`.
pub fn concat(a: &str, b: &str) -> (res: String)
    ensures
        res@ == a@ + b@,
{
    let mut ca = to_chars(a);
    let cb = to_chars(b);
    push_all(&mut ca, cb.as_slice());
    string_from_chars(ca)
}

} // verus!
