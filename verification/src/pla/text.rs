//! Character-level work on text: trimming, splitting and decimal numbers.
//!
//! Every text is modelled by its sequence of characters.

use vstd::prelude::*;

verus! {

/// Whether `c` has the Unicode property White_Space, as `char::is_whitespace`
/// of the standard library reports it.
pub uninterp spec fn white_space(c: char) -> bool;

/// Calls `char::is_whitespace`. Not proved: the answer is taken to be the
/// White_Space property of `c`, which depends on `c` alone.
#[verifier::external_body]
fn is_whitespace(c: char) -> (b: bool)
    ensures
        b == white_space(c),
{
    c.is_whitespace()
}

/// The characters that `white_space` holds of.
pub open spec fn blank() -> spec_fn(char) -> bool {
    |c: char| white_space(c)
}

/// The characters that `white_space` does not hold of.
pub open spec fn non_blank() -> spec_fn(char) -> bool {
    |c: char| !white_space(c)
}

/// Every character but `a` and `b`.
pub open spec fn neither(a: char, b: char) -> spec_fn(char) -> bool {
    |c: char| c != a && c != b
}

/// The number of characters at the start of `s` that all satisfy `p`.
pub open spec fn prefix_len(s: Seq<char>, p: spec_fn(char) -> bool) -> nat
    decreases s.len(),
{
    if s.len() > 0 && p(s[0]) {
        1 + prefix_len(s.drop_first(), p)
    } else {
        0
    }
}

/// The number of characters at the end of `s` that all satisfy `p`.
pub open spec fn suffix_len(s: Seq<char>, p: spec_fn(char) -> bool) -> nat
    decreases s.len(),
{
    if s.len() > 0 && p(s.last()) {
        1 + suffix_len(s.drop_last(), p)
    } else {
        0
    }
}

/// `prefix_len` is the first position whose character fails `p`, or the
/// length where there is none.
pub proof fn lemma_prefix_len(s: Seq<char>, p: spec_fn(char) -> bool, k: int)
    requires
        0 <= k <= s.len(),
        forall|j: int| 0 <= j < k ==> p(#[trigger] s[j]),
        k < s.len() ==> !p(s[k]),
    ensures
        prefix_len(s, p) == k,
    decreases s.len(),
{
    if k > 0 {
        let t = s.drop_first();
        lemma_prefix_len(t, p, k - 1);
    }
}

/// `suffix_len` counts back from the end to the last character that fails `p`.
pub proof fn lemma_suffix_len(s: Seq<char>, p: spec_fn(char) -> bool, k: int)
    requires
        0 <= k <= s.len(),
        forall|j: int| s.len() - k <= j < s.len() ==> p(#[trigger] s[j]),
        k < s.len() ==> !p(s[s.len() - k - 1]),
    ensures
        suffix_len(s, p) == k,
    decreases s.len(),
{
    if k > 0 {
        let t = s.drop_last();
        lemma_suffix_len(t, p, k - 1);
    }
}

/// `prefix_len` never passes the end of the text, every character before it
/// satisfies `p`, and the character at it, if any, does not.
pub proof fn lemma_prefix_len_bounds(s: Seq<char>, p: spec_fn(char) -> bool)
    ensures
        prefix_len(s, p) <= s.len(),
        forall|j: int| 0 <= j < prefix_len(s, p) ==> p(#[trigger] s[j]),
        prefix_len(s, p) < s.len() ==> !p(s[prefix_len(s, p) as int]),
    decreases s.len(),
{
    if s.len() > 0 && p(s[0]) {
        let t = s.drop_first();
        lemma_prefix_len_bounds(t, p);
        assert forall|j: int| 0 <= j < prefix_len(s, p) implies p(#[trigger] s[j]) by {
            if j > 0 {
                assert(s[j] == t[j - 1]);
            }
        }
    }
}

/// `suffix_len` never passes the start of the text, every character after
/// it satisfies `p`, and the character before it, if any, does not.
pub proof fn lemma_suffix_len_bounds(s: Seq<char>, p: spec_fn(char) -> bool)
    ensures
        suffix_len(s, p) <= s.len(),
        forall|j: int| s.len() - suffix_len(s, p) <= j < s.len() ==> p(#[trigger] s[j]),
        suffix_len(s, p) < s.len() ==> !p(s[s.len() - suffix_len(s, p) - 1]),
    decreases s.len(),
{
    if s.len() > 0 && p(s.last()) {
        let t = s.drop_last();
        lemma_suffix_len_bounds(t, p);
        assert forall|j: int| s.len() - suffix_len(s, p) <= j < s.len() implies p(
            #[trigger] s[j],
        ) by {
            if j < t.len() {
                assert(s[j] == t[j]);
            }
        }
    }
}

/// `s` without the white space at its start.
pub open spec fn spec_trim_start(s: Seq<char>) -> Seq<char> {
    s.skip(prefix_len(s, blank()) as int)
}

/// `s` without the white space at its end.
pub open spec fn spec_trim_end(s: Seq<char>) -> Seq<char> {
    s.take(s.len() - suffix_len(s, blank()))
}

/// `s` without the white space at either end.
pub open spec fn spec_trim(s: Seq<char>) -> Seq<char> {
    spec_trim_end(spec_trim_start(s))
}

/// The characters of `s` up to its first white space, or all of `s` where
/// it holds none.
pub open spec fn spec_first_token(s: Seq<char>) -> Seq<char> {
    s.take(prefix_len(s, non_blank()) as int)
}

/// The pieces of `s` between the occurrences of `a` and of `b`: one more
/// piece than there are occurrences, empty pieces included.
pub open spec fn spec_split_either(s: Seq<char>, a: char, b: char) -> Seq<Seq<char>>
    decreases s.len(),
{
    let i = prefix_len(s, neither(a, b)) as int;
    if i < s.len() {
        seq![s.take(i)] + spec_split_either(s.skip(i + 1), a, b)
    } else {
        seq![s]
    }
}

/// The pieces of `s` between the occurrences of `sep`.
pub open spec fn spec_split(s: Seq<char>, sep: char) -> Seq<Seq<char>> {
    spec_split_either(s, sep, sep)
}

/// The lines of `s`: the pieces between its line breaks, where every line
/// feed and every carriage return is a line break. A carriage return with a
/// line feed behind it leaves an empty line between the two.
pub open spec fn spec_lines(s: Seq<char>) -> Seq<Seq<char>> {
    spec_split_either(s, '\n', '\r')
}

/// The characters of a string slice, in order.
pub fn to_chars(s: &str) -> (chars: Vec<char>)
    ensures
        chars@ == s@,
{
    let mut chars: Vec<char> = Vec::new();
    for c in it: s.chars()
        invariant
            it.seq() == s@,
            chars@ == it.seq().take(it.index() as int),
    {
        chars.push(c);
    }
    chars
}

/// Whether two string slices hold the same characters.
pub fn text_equals(a: &str, b: &str) -> (same: bool)
    ensures
        same == (a@ == b@),
{
    let x = to_chars(a);
    let y = to_chars(b);
    if x.len() != y.len() {
        return false;
    }
    let mut i: usize = 0;
    while i < x.len()
        invariant
            x@ == a@,
            y@ == b@,
            x.len() == y.len(),
            i <= x.len(),
            forall|j: int| 0 <= j < i ==> x@[j] == y@[j],
        decreases x.len() - i,
    {
        if x[i] != y[i] {
            return false;
        }
        i += 1;
    }
    assert(a@ =~= b@);
    true
}

/// The position of the first character at or after `from` that is not white
/// space, or the length of `chars`.
fn skip_blanks(chars: &Vec<char>, from: usize) -> (at: usize)
    requires
        from <= chars.len(),
    ensures
        from <= at <= chars.len(),
        at - from == prefix_len(chars@.skip(from as int), blank()),
{
    let mut at: usize = from;
    while at < chars.len()
        invariant
            from <= at <= chars.len(),
            forall|j: int| from <= j < at ==> white_space(chars@[j]),
        ensures
            from <= at <= chars.len(),
            forall|j: int| from <= j < at ==> white_space(chars@[j]),
            at < chars.len() ==> !white_space(chars@[at as int]),
        decreases chars.len() - at,
    {
        if !is_whitespace(chars[at]) {
            break;
        }
        at += 1;
    }
    proof {
        let rest = chars@.skip(from as int);
        lemma_prefix_len(rest, blank(), at - from);
    }
    at
}

/// The position after the last character before `to` that is not white
/// space, or `from`.
fn skip_blanks_back(chars: &Vec<char>, from: usize, to: usize) -> (at: usize)
    requires
        from <= to <= chars.len(),
    ensures
        from <= at <= to,
        to - at == suffix_len(chars@.subrange(from as int, to as int), blank()),
{
    let mut at: usize = to;
    while at > from
        invariant
            from <= at <= to <= chars.len(),
            forall|j: int| at <= j < to ==> white_space(chars@[j]),
        ensures
            from <= at <= to <= chars.len(),
            forall|j: int| at <= j < to ==> white_space(chars@[j]),
            at > from ==> !white_space(chars@[at - 1]),
        decreases at,
    {
        if !is_whitespace(chars[at - 1]) {
            break;
        }
        at -= 1;
    }
    proof {
        let part = chars@.subrange(from as int, to as int);
        lemma_suffix_len(part, blank(), to - at);
    }
    at
}

/// The slice without the white space at its start.
pub fn trim_start(s: &str) -> (trimmed: &str)
    ensures
        trimmed@ == spec_trim_start(s@),
{
    let chars = to_chars(s);
    let from = skip_blanks(&chars, 0);
    assert(chars@.skip(0) =~= chars@);
    s.substring_char(from, chars.len())
}

/// The slice without the white space at either end.
pub fn trim(s: &str) -> (trimmed: &str)
    ensures
        trimmed@ == spec_trim(s@),
{
    let chars = to_chars(s);
    let from = skip_blanks(&chars, 0);
    let to = skip_blanks_back(&chars, from, chars.len());
    assert(chars@.skip(0) =~= chars@);
    s.substring_char(from, to)
}

/// The slice up to its first white space.
pub fn first_token(s: &str) -> (token: &str)
    ensures
        token@ == spec_first_token(s@),
{
    let chars = to_chars(s);
    let mut at: usize = 0;
    while at < chars.len()
        invariant
            at <= chars.len(),
            forall|j: int| 0 <= j < at ==> !white_space(chars@[j]),
        ensures
            at <= chars.len(),
            forall|j: int| 0 <= j < at ==> !white_space(chars@[j]),
            at < chars.len() ==> white_space(chars@[at as int]),
        decreases chars.len() - at,
    {
        if is_whitespace(chars[at]) {
            break;
        }
        at += 1;
    }
    proof {
        lemma_prefix_len(chars@, non_blank(), at as int);
    }
    s.substring_char(0, at)
}

/// The pieces of `s` between the occurrences of `a` and of `b`, as owned
/// strings.
pub fn split_either(s: &str, a: char, b: char) -> (pieces: Vec<String>)
    ensures
        pieces.deep_view() == spec_split_either(s@, a, b),
{
    let chars = to_chars(s);
    let n = chars.len();
    let mut pieces: Vec<String> = Vec::new();
    let mut start: usize = 0;
    let mut at: usize = 0;
    proof {
        assert(s@.skip(0) =~= s@);
    }
    while at < n
        invariant
            chars@ == s@,
            n == chars.len(),
            start <= at <= n,
            forall|j: int| start <= j < at ==> chars@[j] != a && chars@[j] != b,
            spec_split_either(s@, a, b) == pieces.deep_view() + spec_split_either(
                s@.skip(start as int),
                a,
                b,
            ),
        decreases n - at,
    {
        if chars[at] == a || chars[at] == b {
            let piece = s.substring_char(start, at);
            proof {
                let rest = s@.skip(start as int);
                lemma_prefix_len(rest, neither(a, b), at - start);
                assert(rest.take(at - start) =~= piece@);
                assert(rest.skip(at - start + 1) =~= s@.skip(at + 1));
            }
            pieces.push(String::from_str(piece));
            start = at + 1;
        }
        at += 1;
    }
    let piece = s.substring_char(start, n);
    proof {
        let rest = s@.skip(start as int);
        lemma_prefix_len(rest, neither(a, b), n - start);
    }
    pieces.push(String::from_str(piece));
    pieces
}

/// The pieces of `s` between the occurrences of `sep`, as owned strings.
pub fn split(s: &str, sep: char) -> (pieces: Vec<String>)
    ensures
        pieces.deep_view() == spec_split(s@, sep),
{
    split_either(s, sep, sep)
}

/// The lines of `s`, as owned strings.
pub fn lines(s: &str) -> (lines: Vec<String>)
    ensures
        lines.deep_view() == spec_lines(s@),
{
    split_either(s, '\n', '\r')
}

/// Whether `c` is one of the ten ASCII digits.
pub open spec fn is_digit(c: char) -> bool {
    48 <= c as u32 <= 57
}

/// The number that an ASCII digit stands for; zero for any other character.
pub open spec fn digit_value(c: char) -> nat {
    if is_digit(c) {
        (c as u32 - 48) as nat
    } else {
        0
    }
}

/// The number that a run of digits writes in base ten.
pub open spec fn decimal_value(s: Seq<char>) -> nat
    decreases s.len(),
{
    if s.len() == 0 {
        0
    } else {
        10 * decimal_value(s.drop_last()) + digit_value(s.last())
    }
}

/// Whether `s` holds digits only.
pub open spec fn all_digits(s: Seq<char>) -> bool {
    forall|i: int| 0 <= i < s.len() ==> is_digit(#[trigger] s[i])
}

/// `s` without one plus sign at its start.
pub open spec fn without_sign(s: Seq<char>) -> Seq<char> {
    if s.len() > 0 && s[0] == '+' {
        s.drop_first()
    } else {
        s
    }
}

/// The number that `s` writes, where `s` is an optional plus sign and then
/// one or more ASCII digits whose value fits 32 bits; nothing else is a number.
pub open spec fn spec_parse_u32(s: Seq<char>) -> Option<u32> {
    let digits = without_sign(s);
    if digits.len() > 0 && all_digits(digits) && decimal_value(digits) <= u32::MAX {
        Some(decimal_value(digits) as u32)
    } else {
        None
    }
}

/// A run of digits writes a number no smaller than any of its prefixes does.
pub proof fn lemma_decimal_value_prefix(s: Seq<char>, k: int)
    requires
        0 <= k <= s.len(),
    ensures
        decimal_value(s.take(k)) <= decimal_value(s),
    decreases s.len(),
{
    if k == s.len() {
        assert(s.take(k) =~= s);
    } else {
        lemma_decimal_value_prefix(s.drop_last(), k);
        assert(s.drop_last().take(k) =~= s.take(k));
    }
}

/// Reads an unsigned 32-bit number written in base ten.
pub fn parse_u32(s: &str) -> (value: Option<u32>)
    ensures
        value == spec_parse_u32(s@),
{
    let chars = to_chars(s);
    let n = chars.len();
    let first: usize = if n > 0 && chars[0] == '+' {
        1
    } else {
        0
    };
    if first == n {
        return None;
    }
    let ghost digits = without_sign(s@);
    let mut value: u64 = 0;
    let mut at: usize = first;
    while at < n
        invariant
            n == chars.len(),
            first <= at <= n,
            digits == without_sign(s@),
            digits == chars@.skip(first as int),
            all_digits(digits.take(at - first)),
            value == decimal_value(digits.take(at - first)),
            value <= u32::MAX,
        decreases n - at,
    {
        let code: u32 = chars[at] as u32;
        if code < 48 || code > 57 {
            assert(!is_digit(digits[at - first]));
            return None;
        }
        let next: u64 = value * 10 + (code - 48) as u64;
        proof {
            let longer = digits.take(at + 1 - first);
            assert(longer.drop_last() =~= digits.take(at - first));
        }
        if next > u32::MAX as u64 {
            proof {
                lemma_decimal_value_prefix(digits, at + 1 - first);
            }
            return None;
        }
        value = next;
        at += 1;
    }
    assert(digits.take(n - first) =~= digits);
    Some(value as u32)
}

} // verus!
