//! Character-level text handling: Unicode white space, trimming, splitting
//! into words, decimal numbers and the ordering of names.
use vstd::prelude::*;

verus! {

/// The characters with the Unicode `White_Space` property, the set that
/// `char::is_whitespace` tests for.
pub open spec fn is_white_space(c: char) -> bool {
    ('\u{9}' <= c && c <= '\u{d}') || c == ' ' || c == '\u{85}' || c == '\u{a0}'
        || c == '\u{1680}' || ('\u{2000}' <= c && c <= '\u{200a}') || c == '\u{2028}'
        || c == '\u{2029}' || c == '\u{202f}' || c == '\u{205f}' || c == '\u{3000}'
}

/// Executable test for `is_white_space`.
pub fn is_white_space_char(c: char) -> (r: bool)
    ensures
        r == is_white_space(c),
{
    ('\u{9}' <= c && c <= '\u{d}') || c == ' ' || c == '\u{85}' || c == '\u{a0}'
        || c == '\u{1680}' || ('\u{2000}' <= c && c <= '\u{200a}') || c == '\u{2028}'
        || c == '\u{2029}' || c == '\u{202f}' || c == '\u{205f}' || c == '\u{3000}'
}

/// `s` without its leading white space.
pub open spec fn trim_start(s: Seq<char>) -> Seq<char>
    decreases s.len(),
{
    if s.len() > 0 && is_white_space(s[0]) {
        trim_start(s.drop_first())
    } else {
        s
    }
}

/// `s` without its trailing white space.
pub open spec fn trim_end(s: Seq<char>) -> Seq<char>
    decreases s.len(),
{
    if s.len() > 0 && is_white_space(s.last()) {
        trim_end(s.drop_last())
    } else {
        s
    }
}

/// `s` without leading and trailing white space.
pub open spec fn trimmed(s: Seq<char>) -> Seq<char> {
    trim_end(trim_start(s))
}

/// Returns `s` with leading and trailing white space removed.
pub fn trim_text(s: &str) -> (r: String)
    ensures
        r@ == trimmed(s@),
{
    let n = s.unicode_len();
    let mut a: usize = 0;
    assert(s@.skip(0) =~= s@);
    while a < n && is_white_space_char(s.get_char(a))
        invariant
            n == s@.len(),
            a <= n,
            trim_start(s@) == trim_start(s@.skip(a as int)),
        decreases n - a,
    {
        assert(s@.skip(a as int).drop_first() =~= s@.skip(a + 1));
        a = a + 1;
    }
    assert(trim_start(s@) == s@.subrange(a as int, n as int)) by {
        assert(s@.skip(a as int) =~= s@.subrange(a as int, n as int));
    }
    let mut b: usize = n;
    while b > a && is_white_space_char(s.get_char(b - 1))
        invariant
            n == s@.len(),
            a <= b <= n,
            trimmed(s@) == trim_end(s@.subrange(a as int, b as int)),
        decreases b,
    {
        assert(s@.subrange(a as int, b as int).drop_last() =~= s@.subrange(a as int, b - 1));
        b = b - 1;
    }
    s.substring_char(a, b).to_owned()
}

/// Length of the run of non-white-space characters at the front of `s`.
pub open spec fn word_len(s: Seq<char>) -> nat
    decreases s.len(),
{
    if s.len() == 0 || is_white_space(s[0]) {
        0
    } else {
        1 + word_len(s.drop_first())
    }
}

/// The maximal runs of non-white-space characters of `s`, in order.
pub open spec fn words(s: Seq<char>) -> Seq<Seq<char>>
    decreases s.len(),
    via words_decreases
{
    if s.len() == 0 {
        seq![]
    } else if is_white_space(s[0]) {
        words(s.drop_first())
    } else {
        seq![s.take(word_len(s) as int)] + words(s.skip(word_len(s) as int))
    }
}

proof fn lemma_word_len_bound(s: Seq<char>)
    ensures
        word_len(s) <= s.len(),
        s.len() > 0 && !is_white_space(s[0]) ==> word_len(s) > 0,
    decreases s.len(),
{
    if s.len() > 0 && !is_white_space(s[0]) {
        lemma_word_len_bound(s.drop_first());
    }
}

#[via_fn]
proof fn words_decreases(s: Seq<char>) {
    lemma_word_len_bound(s);
}

/// The views of a list of strings.
pub open spec fn views(v: Seq<String>) -> Seq<Seq<char>> {
    v.map_values(|t: String| t@)
}

/// Splits `input` into its white-space-separated words; runs of white space
/// count as one separator and no word is empty. Quotes have no meaning.
pub fn split_args(input: &str) -> (r: Vec<String>)
    ensures
        views(r@) == words(input@),
{
    let n = input.unicode_len();
    let ghost s = input@;
    let mut out: Vec<String> = Vec::new();
    let mut i: usize = 0;
    assert(s.skip(0) =~= s);
    assert(views(out@) + words(s) =~= words(s));
    while i < n
        invariant
            n == s.len(),
            s == input@,
            i <= n,
            views(out@) + words(s.skip(i as int)) == words(s),
        decreases n - i,
    {
        if is_white_space_char(input.get_char(i)) {
            assert(s.skip(i as int).drop_first() =~= s.skip(i + 1));
            i = i + 1;
        } else {
            let mut j: usize = i;
            while j < n && !is_white_space_char(input.get_char(j))
                invariant
                    n == s.len(),
                    s == input@,
                    i <= j <= n,
                    word_len(s.skip(i as int)) == (j - i) + word_len(s.skip(j as int)),
                decreases n - j,
            {
                assert(s.skip(j as int).drop_first() =~= s.skip(j + 1));
                j = j + 1;
            }
            let ghost rest = s.skip(i as int);
            proof {
                lemma_word_len_bound(rest);
                assert(rest.take((j - i) as int) =~= s.subrange(i as int, j as int));
                assert(rest.skip((j - i) as int) =~= s.skip(j as int));
            }
            let word = input.substring_char(i, j).to_owned();
            let ghost before = out@;
            out.push(word);
            assert(views(out@) =~= views(before) + seq![s.subrange(i as int, j as int)]);
            assert(views(out@) + words(s.skip(j as int)) =~= views(before) + words(rest));
            i = j;
        }
    }
    assert(s.skip(n as int) =~= Seq::<char>::empty());
    assert(views(out@) =~= views(out@) + words(s.skip(n as int)));
    out
}

/// An ASCII decimal digit.
pub open spec fn is_digit(c: char) -> bool {
    '0' <= c && c <= '9'
}

/// The value of the decimal digit string `s` (empty gives zero).
pub open spec fn digits_value(s: Seq<char>) -> nat
    decreases s.len(),
{
    if s.len() == 0 {
        0
    } else {
        digits_value(s.drop_last()) * 10 + (s.last() as nat - '0' as nat) as nat
    }
}

/// `s` without one leading `+`, the sign that unsigned parsing accepts.
pub open spec fn unsigned_digits(s: Seq<char>) -> Seq<char> {
    if s.len() > 0 && s[0] == '+' {
        s.drop_first()
    } else {
        s
    }
}

/// What parsing `s` as a `u16` gives: an optional `+` followed by at least
/// one decimal digit and nothing else, of value at most 65535.
pub open spec fn parse_u16_text(s: Seq<char>) -> Option<u16> {
    let d = unsigned_digits(s);
    if d.len() > 0 && (forall|i: int| 0 <= i < d.len() ==> is_digit(#[trigger] d[i]))
        && digits_value(d) <= 65535 {
        Some(digits_value(d) as u16)
    } else {
        None
    }
}

/// Relies on `str::parse::<u16>` (`u16::from_str`): an optional `+` sign and
/// decimal digits, of a value that fits in a `u16`, and nothing else.
#[verifier::external_body]
pub(crate) fn parse_u16(s: &str) -> (r: Option<u16>)
    ensures
        r == parse_u16_text(s@),
{
    s.parse::<u16>().ok()
}

/// The digit character for `d` in `0..10`.
pub open spec fn digit_char(d: nat) -> char {
    ('0' as nat + d) as char
}

/// The decimal text of `n`, without sign or leading zeros.
pub open spec fn decimal_text(n: nat) -> Seq<char>
    decreases n,
{
    if n < 10 {
        seq![digit_char(n)]
    } else {
        decimal_text(n / 10).push(digit_char(n % 10))
    }
}

/// Relies on `u16`'s `Display` through `to_string`: its decimal digits.
#[verifier::external_body]
pub(crate) fn u16_text(n: u16) -> (r: String)
    ensures
        r@ == decimal_text(n as nat),
{
    n.to_string()
}

/// Relies on `u32`'s `Display` through `to_string`: its decimal digits.
#[verifier::external_body]
pub(crate) fn u32_text(n: u32) -> (r: String)
    ensures
        r@ == decimal_text(n as nat),
{
    n.to_string()
}

/// Lexicographic order on character sequences, by code point: the order of
/// `str` and `String`.
pub open spec fn text_less(a: Seq<char>, b: Seq<char>) -> bool
    decreases a.len(),
{
    if b.len() == 0 {
        false
    } else if a.len() == 0 {
        true
    } else if a[0] != b[0] {
        (a[0] as int) < (b[0] as int)
    } else {
        text_less(a.drop_first(), b.drop_first())
    }
}

/// Whether `a` comes strictly before `b` in lexicographic order.
pub fn text_lt(a: &str, b: &str) -> (r: bool)
    ensures
        r == text_less(a@, b@),
{
    let na = a.unicode_len();
    let nb = b.unicode_len();
    let mut i: usize = 0;
    assert(a@.skip(0) =~= a@);
    assert(b@.skip(0) =~= b@);
    while i < na && i < nb
        invariant
            na == a@.len(),
            nb == b@.len(),
            i <= na,
            i <= nb,
            text_less(a@, b@) == text_less(a@.skip(i as int), b@.skip(i as int)),
        decreases na - i,
    {
        let ca = a.get_char(i);
        let cb = b.get_char(i);
        if ca != cb {
            return (ca as u32) < (cb as u32);
        }
        assert(a@.skip(i as int).drop_first() =~= a@.skip(i + 1));
        assert(b@.skip(i as int).drop_first() =~= b@.skip(i + 1));
        i = i + 1;
    }
    i < nb
}

/// No text comes before itself.
pub proof fn lemma_text_less_irreflexive(a: Seq<char>)
    ensures
        !text_less(a, a),
    decreases a.len(),
{
    if a.len() > 0 {
        lemma_text_less_irreflexive(a.drop_first());
    }
}

/// The order on texts is transitive.
pub proof fn lemma_text_less_transitive(a: Seq<char>, b: Seq<char>, c: Seq<char>)
    requires
        text_less(a, b),
        text_less(b, c),
    ensures
        text_less(a, c),
    decreases a.len(),
{
    if a.len() > 0 && b.len() > 0 && c.len() > 0 && a[0] == b[0] && b[0] == c[0] {
        lemma_text_less_transitive(a.drop_first(), b.drop_first(), c.drop_first());
    }
}

/// Of two different texts, one comes before the other.
pub proof fn lemma_text_less_total(a: Seq<char>, b: Seq<char>)
    requires
        a != b,
    ensures
        text_less(a, b) || text_less(b, a),
    decreases a.len(),
{
    if a.len() == 0 && b.len() == 0 {
        assert(a =~= b);
    } else if a.len() > 0 && b.len() > 0 && a[0] == b[0] {
        if a.drop_first() == b.drop_first() {
            assert(a.drop_first().len() == b.drop_first().len());
            assert(a.len() == b.len());
            assert forall|i: int| 0 <= i < a.len() implies a[i] == b[i] by {
                if i > 0 {
                    assert(a[i] == a.drop_first()[i - 1]);
                    assert(b[i] == b.drop_first()[i - 1]);
                }
            }
            assert(a =~= b);
        }
        lemma_text_less_total(a.drop_first(), b.drop_first());
    } else if a.len() > 0 && b.len() > 0 {
        assert((a[0] as int) != (b[0] as int));
    }
}

} // verus!
