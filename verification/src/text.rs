//! Text helpers with contracts over `Seq<char>`.
//!
//! Strings are viewed as sequences of characters. The functions here are the
//! building blocks of every URL, header and message the crate produces.

use vstd::prelude::*;
use vstd::string::*;

verus! {

/// `String::push` of the standard library: appends one character.
pub assume_specification[ String::push ](s: &mut String, ch: char)
    ensures
        final(s)@ == old(s)@.push(ch),
;

/// `==` on string slices of the standard library: two slices are equal
/// exactly when they hold the same characters.
pub assume_specification[ <str as PartialEq>::eq ](a: &str, b: &str) -> (r: bool)
    ensures
        r == (a@ == b@),
;

/// Whether `c` has the Unicode property `White_Space`: the controls from tab
/// to carriage return, the space, next line, the no-break space, the ogham
/// space mark, the spaces from en quad to hair space, the line and paragraph
/// separators, the narrow no-break space, the medium mathematical space and
/// the ideographic space.
pub open spec fn char_is_whitespace(c: char) -> bool {
    let n = c as u32;
    ||| 0x09 <= n <= 0x0d
    ||| n == 0x20
    ||| n == 0x85
    ||| n == 0xa0
    ||| n == 0x1680
    ||| 0x2000 <= n <= 0x200a
    ||| n == 0x2028
    ||| n == 0x2029
    ||| n == 0x202f
    ||| n == 0x205f
    ||| n == 0x3000
}

/// `char::is_whitespace` of the standard library: whether the character has
/// the property `White_Space`.
pub assume_specification[ char::is_whitespace ](c: char) -> (b: bool)
    ensures
        b == char_is_whitespace(c),
;

/// A text is blank when every character of it is whitespace. The empty text
/// is blank. This is the condition under which trimming leaves nothing.
pub open spec fn blank_text(s: Seq<char>) -> bool {
    forall|i: int| 0 <= i < s.len() ==> char_is_whitespace(#[trigger] s[i])
}

/// How many whitespace characters `s` begins with.
pub open spec fn leading_blank(s: Seq<char>) -> int
    decreases s.len(),
{
    if s.len() == 0 || !char_is_whitespace(s[0]) {
        0
    } else {
        1 + leading_blank(s.drop_first())
    }
}

/// How many whitespace characters `s` ends with.
pub open spec fn trailing_blank(s: Seq<char>) -> int
    decreases s.len(),
{
    if s.len() == 0 || !char_is_whitespace(s.last()) {
        0
    } else {
        1 + trailing_blank(s.drop_last())
    }
}

/// `s` without the whitespace at its beginning and at its end.
pub open spec fn trimmed_text(s: Seq<char>) -> Seq<char> {
    if leading_blank(s) >= s.len() {
        Seq::empty()
    } else {
        s.subrange(leading_blank(s), s.len() - trailing_blank(s))
    }
}

/// The character for the decimal digit `d`.
pub open spec fn digit_char(d: int) -> char
    recommends
        0 <= d < 10,
{
    ((d + 48) as u8) as char
}

/// The decimal digits of `n`, most significant first, without leading zeros.
pub open spec fn decimal_digits(n: nat) -> Seq<char>
    decreases n,
{
    if n < 10 {
        seq![digit_char(n as int)]
    } else {
        decimal_digits(n / 10).push(digit_char((n % 10) as int))
    }
}

/// The decimal rendering of an integer, with a leading `-` when negative.
pub open spec fn decimal_text(n: int) -> Seq<char> {
    if n < 0 {
        seq!['-'] + decimal_digits((-n) as nat)
    } else {
        decimal_digits(n as nat)
    }
}

/// The lower-case form of `c` when `c` is an ASCII capital, else `c`.
pub open spec fn ascii_lower_char(c: char) -> char {
    if 'A' <= c && c <= 'Z' {
        ((c as u8 + 32) as u8) as char
    } else {
        c
    }
}

/// `s` with every ASCII capital replaced by its lower-case letter.
pub open spec fn ascii_lower_text(s: Seq<char>) -> Seq<char> {
    Seq::new(s.len(), |i: int| ascii_lower_char(s[i]))
}

/// The position of the first `c` in `s`, or `s.len()` when `s` holds none.
pub open spec fn first_index_of(s: Seq<char>, c: char) -> int
    decreases s.len(),
{
    if s.len() == 0 || s[0] == c {
        0
    } else {
        1 + first_index_of(s.drop_first(), c)
    }
}

/// Whether `s` begins with `prefix`.
pub open spec fn has_prefix(s: Seq<char>, prefix: Seq<char>) -> bool {
    prefix.len() <= s.len() && s.subrange(0, prefix.len() as int) == prefix
}

/// `separator` before every character of `s` and once more at the end.
pub open spec fn interleaved(s: Seq<char>, separator: Seq<char>) -> Seq<char>
    decreases s.len(),
{
    if s.len() == 0 {
        separator
    } else {
        separator + seq![s[0]] + interleaved(s.drop_first(), separator)
    }
}

/// `s` with every occurrence of `from` replaced by `to`, scanning from the
/// left and never looking inside a replacement. The empty text occurs before
/// every character and at the end.
pub open spec fn replace_all(s: Seq<char>, from: Seq<char>, to: Seq<char>) -> Seq<char>
    decreases s.len(),
{
    if from.len() == 0 {
        interleaved(s, to)
    } else if s.len() < from.len() {
        s
    } else if has_prefix(s, from) {
        to + replace_all(s.skip(from.len() as int), from, to)
    } else {
        seq![s[0]] + replace_all(s.skip(1), from, to)
    }
}

/// `first_index_of` finds the least position that holds `c`.
pub proof fn lemma_first_index_of(s: Seq<char>, c: char)
    ensures
        0 <= first_index_of(s, c) <= s.len(),
        forall|j: int| 0 <= j < first_index_of(s, c) ==> s[j] != c,
        first_index_of(s, c) < s.len() ==> s[first_index_of(s, c)] == c,
        first_index_of(s, c) == s.len() <==> !s.contains(c),
    decreases s.len(),
{
    if s.len() > 0 && s[0] != c {
        let rest = s.drop_first();
        lemma_first_index_of(rest, c);
        let k = first_index_of(rest, c);
        assert forall|j: int| 0 <= j < 1 + k implies s[j] != c by {
            if j > 0 {
                assert(rest[j - 1] == s[j]);
            }
        }
    }
}

/// The characters of `s`, in order.
pub fn to_chars(s: &str) -> (out: Vec<char>)
    ensures
        out@ == s@,
{
    let mut out: Vec<char> = Vec::new();
    for c in it: s.chars()
        invariant
            out@ == it.seq().take(it.index()),
            it.seq() == s@,
    {
        out.push(c);
    }
    out
}

/// The string that holds `chars[from..to]`.
pub fn string_of(chars: &Vec<char>, from: usize, to: usize) -> (out: String)
    requires
        from <= to <= chars.len(),
    ensures
        out@ == chars@.subrange(from as int, to as int),
{
    let mut out = String::new();
    let mut i: usize = from;
    while i < to
        invariant
            from <= i <= to <= chars.len(),
            out@ == chars@.subrange(from as int, i as int),
        decreases to - i,
    {
        out.push(chars[i]);
        i += 1;
    }
    out
}

/// Whether `a` and `b` hold the same characters.
pub fn same(a: &str, b: &str) -> (yes: bool)
    ensures
        yes == (a@ == b@),
{
    *a == *b
}

/// The text of an optional string, borrowed.
pub fn as_text(text: &Option<String>) -> (r: Option<&str>)
    ensures
        r.deep_view() == text.deep_view(),
{
    match text {
        Some(s) => Some(s.as_str()),
        None => None,
    }
}

/// `a` followed by `b`.
pub fn join2(a: &str, b: &str) -> (out: String)
    ensures
        out@ == a@ + b@,
{
    let mut out = a.to_owned();
    out.append(b);
    out
}

/// `a`, `b` and `c` in a row.
pub fn join3(a: &str, b: &str, c: &str) -> (out: String)
    ensures
        out@ == a@ + b@ + c@,
{
    let mut out = a.to_owned();
    out.append(b);
    out.append(c);
    out
}

/// The position of the first `c` in `chars`, or `chars.len()` when there is
/// none.
pub fn find_char(chars: &Vec<char>, c: char) -> (at: usize)
    ensures
        at as int == first_index_of(chars@, c),
{
    let mut i: usize = 0;
    proof {
        assert(chars@.skip(0) =~= chars@);
    }
    while i < chars.len() && chars[i] != c
        invariant
            i <= chars.len(),
            first_index_of(chars@, c) == i + first_index_of(chars@.skip(i as int), c),
        decreases chars.len() - i,
    {
        proof {
            let rest = chars@.skip(i as int);
            assert(rest.drop_first() =~= chars@.skip(i + 1));
        }
        i += 1;
    }
    i
}

/// Whether `chars` begins with `prefix`.
pub fn starts_with(chars: &Vec<char>, prefix: &Vec<char>) -> (yes: bool)
    ensures
        yes == has_prefix(chars@, prefix@),
{
    if prefix.len() > chars.len() {
        return false;
    }
    let mut i: usize = 0;
    while i < prefix.len()
        invariant
            i <= prefix.len() <= chars.len(),
            chars@.subrange(0, i as int) == prefix@.subrange(0, i as int),
        decreases prefix.len() - i,
    {
        if chars[i] != prefix[i] {
            return false;
        }
        i += 1;
    }
    proof {
        assert(prefix@.subrange(0, prefix.len() as int) =~= prefix@);
    }
    true
}

/// Whether every character of `s` is whitespace.
pub fn is_blank(s: &str) -> (yes: bool)
    ensures
        yes == blank_text(s@),
{
    let chars = to_chars(s);
    let mut i: usize = 0;
    while i < chars.len()
        invariant
            i <= chars.len(),
            chars@ == s@,
            forall|j: int| 0 <= j < i ==> char_is_whitespace(#[trigger] chars@[j]),
        decreases chars.len() - i,
    {
        if !chars[i].is_whitespace() {
            return false;
        }
        i += 1;
    }
    true
}

/// The lower-case form of an ASCII capital; any other character unchanged.
pub fn lower_char(c: char) -> (out: char)
    ensures
        out == ascii_lower_char(c),
{
    if 'A' <= c && c <= 'Z' {
        ((c as u8) + 32) as char
    } else {
        c
    }
}

/// `s` with its ASCII capitals in lower case.
pub fn ascii_lowercase(s: &str) -> (out: String)
    ensures
        out@ == ascii_lower_text(s@),
{
    let chars = to_chars(s);
    let mut out = String::new();
    let mut i: usize = 0;
    while i < chars.len()
        invariant
            i <= chars.len(),
            chars@ == s@,
            out@ == ascii_lower_text(s@).take(i as int),
        decreases chars.len() - i,
    {
        out.push(lower_char(chars[i]));
        i += 1;
    }
    out
}

/// Appends the decimal digits of `n` to `out`.
pub fn push_decimal(n: u64, out: &mut String)
    ensures
        final(out)@ == old(out)@ + decimal_digits(n as nat),
    decreases n,
{
    if n >= 10 {
        push_decimal(n / 10, out);
    }
    let d: u8 = (n % 10) as u8;
    out.push((d + 48) as char);
}

/// The decimal rendering of `n`.
pub fn decimal_u64(n: u64) -> (out: String)
    ensures
        out@ == decimal_text(n as int),
{
    let mut out = String::new();
    push_decimal(n, &mut out);
    out
}

/// The decimal rendering of `n`, with a leading `-` when `n` is negative.
pub fn decimal_i64(n: i64) -> (out: String)
    ensures
        out@ == decimal_text(n as int),
{
    let mut out = String::new();
    if n < 0 {
        out.push('-');
        let magnitude: u64 = ((-(n + 1)) as u64) + 1;
        push_decimal(magnitude, &mut out);
    } else {
        push_decimal(n as u64, &mut out);
    }
    out
}

/// Whether `pattern` stands in `chars` at position `at`.
pub fn prefix_at(chars: &Vec<char>, at: usize, pattern: &Vec<char>) -> (yes: bool)
    requires
        at <= chars.len(),
    ensures
        yes == has_prefix(chars@.skip(at as int), pattern@),
{
    if pattern.len() > chars.len() - at {
        return false;
    }
    let ghost rest = chars@.skip(at as int);
    let mut i: usize = 0;
    while i < pattern.len()
        invariant
            at <= chars.len(),
            i <= pattern.len() <= chars.len() - at,
            rest == chars@.skip(at as int),
            rest.subrange(0, i as int) == pattern@.subrange(0, i as int),
        decreases pattern.len() - i,
    {
        if chars[at + i] != pattern[i] {
            return false;
        }
        i += 1;
    }
    proof {
        assert(pattern@.subrange(0, pattern.len() as int) =~= pattern@);
    }
    true
}

/// `separator` before every character of `chars` and once more at the end.
fn interleave(chars: &Vec<char>, separator: &str) -> (out: String)
    ensures
        out@ == interleaved(chars@, separator@),
{
    let mut out = String::new();
    let mut i: usize = 0;
    proof {
        assert(chars@.skip(0) =~= chars@);
        assert(out@ + interleaved(chars@, separator@) =~= interleaved(chars@, separator@));
    }
    while i < chars.len()
        invariant
            i <= chars.len(),
            out@ + interleaved(chars@.skip(i as int), separator@) == interleaved(
                chars@,
                separator@,
            ),
        decreases chars.len() - i,
    {
        let ghost before = out@;
        let ghost rest = chars@.skip(i as int);
        out.append(separator);
        out.push(chars[i]);
        proof {
            assert(rest.drop_first() =~= chars@.skip(i + 1));
            assert(out@ + interleaved(chars@.skip(i + 1), separator@) =~= before + interleaved(
                rest,
                separator@,
            ));
        }
        i += 1;
    }
    out.append(separator);
    out
}

/// `s` with every occurrence of `from` replaced by `to`.
pub fn replace(s: &str, from: &str, to: &str) -> (out: String)
    ensures
        out@ == replace_all(s@, from@, to@),
{
    let chars = to_chars(s);
    let pattern = to_chars(from);
    if pattern.len() == 0 {
        return interleave(&chars, to);
    }
    let mut out = String::new();
    let mut i: usize = 0;
    proof {
        assert(s@.skip(0) =~= s@);
    }
    while i < chars.len()
        invariant
            i <= chars.len(),
            chars@ == s@,
            pattern@ == from@,
            from@.len() > 0,
            out@ + replace_all(s@.skip(i as int), from@, to@) == replace_all(s@, from@, to@),
        decreases chars.len() - i,
    {
        let ghost rest = s@.skip(i as int);
        if prefix_at(&chars, i, &pattern) {
            out.append(to);
            proof {
                assert(rest.skip(from@.len() as int) =~= s@.skip(i + from@.len()));
            }
            i += pattern.len();
        } else {
            out.push(chars[i]);
            proof {
                assert(rest.skip(1) =~= s@.skip(i + 1));
            }
            i += 1;
        }
    }
    out
}

/// The whitespace at the beginning of a text ends within the text, and the
/// whitespace at its end does not reach back into it.
pub proof fn lemma_blank_counts(s: Seq<char>)
    ensures
        0 <= leading_blank(s) <= s.len(),
        0 <= trailing_blank(s) <= s.len(),
        leading_blank(s) < s.len() ==> leading_blank(s) + trailing_blank(s) <= s.len(),
        leading_blank(s) < s.len() ==> !char_is_whitespace(s[leading_blank(s)]),
        leading_blank(s) == s.len() <==> blank_text(s),
    decreases s.len(),
{
    if s.len() > 0 {
        let rest = s.drop_first();
        lemma_blank_counts(rest);
        lemma_trailing_stops(s);
        if char_is_whitespace(s[0]) {
            if blank_text(rest) {
                assert forall|i: int| 0 <= i < s.len() implies char_is_whitespace(
                    #[trigger] s[i],
                ) by {
                    if i > 0 {
                        assert(rest[i - 1] == s[i]);
                    }
                }
            }
            if blank_text(s) {
                assert forall|i: int| 0 <= i < rest.len() implies char_is_whitespace(
                    #[trigger] rest[i],
                ) by {
                    assert(rest[i] == s[i + 1]);
                }
            }
        }
    }
}

/// The whitespace at the end of a text stops at the last character that is
/// none.
pub proof fn lemma_trailing_stops(s: Seq<char>)
    ensures
        0 <= trailing_blank(s) <= s.len(),
        forall|i: int|
            0 <= i < s.len() && !char_is_whitespace(#[trigger] s[i]) ==> trailing_blank(s)
                <= s.len() - 1 - i,
    decreases s.len(),
{
    if s.len() > 0 && char_is_whitespace(s.last()) {
        let rest = s.drop_last();
        lemma_trailing_stops(rest);
        assert forall|i: int|
            0 <= i < s.len() && !char_is_whitespace(#[trigger] s[i]) implies trailing_blank(s)
            <= s.len() - 1 - i by {
            assert(rest[i] == s[i]);
        }
    }
}

/// A text is blank exactly when trimming leaves nothing of it.
pub proof fn lemma_blank_trims_to_nothing(s: Seq<char>)
    ensures
        blank_text(s) <==> trimmed_text(s).len() == 0,
{
    lemma_blank_counts(s);
    lemma_trailing_stops(s);
}

/// `s` without the whitespace at its beginning and at its end.
pub fn trim(s: &str) -> (out: String)
    ensures
        out@ == trimmed_text(s@),
{
    let chars = to_chars(s);
    let mut start: usize = 0;
    proof {
        assert(chars@.skip(0) =~= chars@);
    }
    while start < chars.len() && chars[start].is_whitespace()
        invariant
            start <= chars.len(),
            leading_blank(chars@) == start + leading_blank(chars@.skip(start as int)),
        decreases chars.len() - start,
    {
        proof {
            let rest = chars@.skip(start as int);
            assert(rest.drop_first() =~= chars@.skip(start + 1));
        }
        start += 1;
    }
    if start >= chars.len() {
        return String::new();
    }
    let mut end: usize = chars.len();
    while chars[end - 1].is_whitespace()
        invariant
            start < end <= chars.len(),
            !char_is_whitespace(chars@[start as int]),
            trailing_blank(chars@) == (chars.len() - end) + trailing_blank(chars@.take(end as int)),
        decreases end,
    {
        proof {
            let front = chars@.take(end as int);
            assert(front.drop_last() =~= chars@.take(end - 1));
        }
        end -= 1;
    }
    string_of(&chars, start, end)
}

} // verus!
