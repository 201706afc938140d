//! Character-level helpers shared by the rules and the renderers.
//!
//! Everything the library builds is a `String`, and everything it reasons about
//! is that string's view: its sequence of `char`s. The helpers here convert
//! between the two and implement the handful of small text operations the
//! domain needs (ASCII case folding, decimal numbers, padding), each with the
//! exact statement of what it computes.

use vstd::prelude::*;

verus! {

/// `String::push` appends one character.
pub assume_specification[ String::push ](s: &mut String, ch: char)
    ensures
        final(s)@ == old(s)@.push(ch),
;

/// What `str::to_lowercase` returns for a given character sequence: the
/// Unicode lowercase mapping of the whole string.
pub uninterp spec fn unicode_lowercase(text: Seq<char>) -> Seq<char>;

/// Whether every character of a text is ASCII.
pub open spec fn all_ascii(text: Seq<char>) -> bool {
    forall|i: int| 0 <= i < text.len() ==> (#[trigger] text[i] as u32) < 128
}

/// A text with its ASCII letters lower-cased and every other character kept.
pub open spec fn ascii_lowercased(text: Seq<char>) -> Seq<char> {
    text.map_values(|c: char| ascii_folded(c) as char)
}

/// Calls `str::to_lowercase`. The result is named: it is the Unicode
/// lowercase mapping of the argument, a function of the argument alone.
/// Beyond the name, the contract states the one case callers rely on: on
/// ASCII text, the mapping lower-cases `A`..`Z` and keeps everything else,
/// as `str::to_ascii_lowercase` does. What it does to other characters is
/// left to std's Unicode tables.
#[verifier::external_body]
pub(crate) fn to_lowercase(text: &str) -> (lower: String)
    ensures
        lower@ == unicode_lowercase(text@),
        all_ascii(text@) ==> lower@ == ascii_lowercased(text@),
{
    text.to_lowercase()
}

/// What `String::from_utf16_lossy` returns for a sequence of UTF-16 code
/// units: the decoded text, with each invalid unit replaced by U+FFFD.
pub uninterp spec fn utf16_lossy(units: Seq<u16>) -> Seq<char>;

/// A UTF-16 code unit that is half of a surrogate pair.
pub open spec fn is_surrogate(unit: u16) -> bool {
    0xD800 <= unit && unit <= 0xDFFF
}

/// Calls `String::from_utf16_lossy` on the first `count` units of `units`.
///
/// The result is named by [`utf16_lossy`]. Beyond the name, the contract
/// states the one fact of UTF-16 that callers use: units outside the
/// surrogate range each encode the character with the same code.
#[verifier::external_body]
pub(crate) fn decode_utf16(units: &[u16], count: usize) -> (text: String)
    requires
        count <= units@.len(),
    ensures
        text@ == utf16_lossy(units@.take(count as int)),
        (forall|i: int| 0 <= i < count ==> !is_surrogate(#[trigger] units@[i])) ==> (text@.len()
            == count && forall|i: int| 0 <= i < count ==> #[trigger] text@[i] as u32 == units@[i] as u32),
{
    String::from_utf16_lossy(&units[..count])
}

/// The characters of a string slice, in order.
pub fn chars_of(text: &str) -> (chars: Vec<char>)
    ensures
        chars@ == text@,
{
    let mut chars: Vec<char> = Vec::new();
    for c in it: text.chars()
        invariant
            chars@ == it.seq().take(it.index() as int),
    {
        chars.push(c);
    }
    chars
}

/// Appends characters `from..to` of `chars` to `text`.
pub fn push_range(text: &mut String, chars: &[char], from: usize, to: usize)
    requires
        from <= to <= chars@.len(),
    ensures
        final(text)@ == old(text)@ + chars@.subrange(from as int, to as int),
{
    let mut i: usize = from;
    while i < to
        invariant
            from <= i <= to,
            to <= chars@.len(),
            text@ == old(text)@ + chars@.subrange(from as int, i as int),
        decreases to - i,
    {
        text.push(chars[i]);
        i = i + 1;
        assert(chars@.subrange(from as int, i as int) == chars@.subrange(
            from as int,
            (i - 1) as int,
        ).push(chars@[i - 1]));
    }
}

/// The code of a character after ASCII lower-casing: `A`..`Z` become
/// `a`..`z`, every other character is left alone.
pub open spec fn ascii_folded(c: char) -> u32 {
    if 'A' <= c && c <= 'Z' {
        (c as u32 + 32) as u32
    } else {
        c as u32
    }
}

/// Two character sequences are equal up to ASCII case: same length, and equal
/// position by position once ASCII letters are lower-cased. This is what
/// `str::eq_ignore_ascii_case` decides.
pub open spec fn equal_ignoring_ascii_case(a: Seq<char>, b: Seq<char>) -> bool {
    &&& a.len() == b.len()
    &&& forall|i: int| 0 <= i < a.len() ==> #[trigger] ascii_folded(a[i]) == ascii_folded(b[i])
}

/// Equality up to ASCII case is an equivalence: symmetric and transitive.
pub proof fn lemma_equal_ignoring_ascii_case_equivalence(a: Seq<char>, b: Seq<char>, c: Seq<char>)
    ensures
        equal_ignoring_ascii_case(a, a),
        equal_ignoring_ascii_case(a, b) ==> equal_ignoring_ascii_case(b, a),
        equal_ignoring_ascii_case(a, b) && equal_ignoring_ascii_case(b, c)
            ==> equal_ignoring_ascii_case(a, c),
{
    if equal_ignoring_ascii_case(a, b) && equal_ignoring_ascii_case(b, c) {
        assert forall|i: int| 0 <= i < a.len() implies #[trigger] ascii_folded(a[i])
            == ascii_folded(c[i]) by {
            assert(ascii_folded(a[i]) == ascii_folded(b[i]));
            assert(ascii_folded(b[i]) == ascii_folded(c[i]));
        }
    }
}

fn fold_ascii(c: char) -> (code: u32)
    ensures
        code == ascii_folded(c),
{
    let code = c as u32;
    if 65 <= code && code <= 90 {
        code + 32
    } else {
        code
    }
}

/// Compares two strings ignoring ASCII case, as `str::eq_ignore_ascii_case`.
pub fn eq_ignore_ascii_case(a: &str, b: &str) -> (equal: bool)
    ensures
        equal == equal_ignoring_ascii_case(a@, b@),
{
    let left = chars_of(a);
    let right = chars_of(b);
    if left.len() != right.len() {
        return false;
    }
    let mut i: usize = 0;
    while i < left.len()
        invariant
            i <= left@.len(),
            left@ == a@,
            right@ == b@,
            left@.len() == right@.len(),
            forall|j: int| 0 <= j < i ==> #[trigger] ascii_folded(a@[j]) == ascii_folded(b@[j]),
        decreases left@.len() - i,
    {
        if fold_ascii(left[i]) != fold_ascii(right[i]) {
            return false;
        }
        i = i + 1;
    }
    true
}

/// The character for a decimal digit.
pub open spec fn digit_char(d: nat) -> char {
    if d == 0 {
        '0'
    } else if d == 1 {
        '1'
    } else if d == 2 {
        '2'
    } else if d == 3 {
        '3'
    } else if d == 4 {
        '4'
    } else if d == 5 {
        '5'
    } else if d == 6 {
        '6'
    } else if d == 7 {
        '7'
    } else if d == 8 {
        '8'
    } else {
        '9'
    }
}

/// The decimal text of a natural number, without sign or leading zeros, the
/// way `u32::to_string` writes it.
pub open spec fn decimal_text(n: nat) -> Seq<char>
    decreases n,
{
    if n < 10 {
        seq![digit_char(n)]
    } else {
        decimal_text(n / 10).push(digit_char(n % 10))
    }
}

fn digit(d: u32) -> (c: char)
    requires
        d < 10,
    ensures
        c == digit_char(d as nat),
{
    if d == 0 {
        '0'
    } else if d == 1 {
        '1'
    } else if d == 2 {
        '2'
    } else if d == 3 {
        '3'
    } else if d == 4 {
        '4'
    } else if d == 5 {
        '5'
    } else if d == 6 {
        '6'
    } else if d == 7 {
        '7'
    } else if d == 8 {
        '8'
    } else {
        '9'
    }
}

/// Appends the decimal text of `n` to `text`.
pub fn push_decimal(text: &mut String, n: u32)
    ensures
        final(text)@ == old(text)@ + decimal_text(n as nat),
    decreases n,
{
    if n >= 10 {
        push_decimal(text, n / 10);
    }
    text.push(digit(n % 10));
}

/// Appends the decimal text of a count to `text`.
pub fn push_count(text: &mut String, n: usize)
    ensures
        final(text)@ == old(text)@ + decimal_text(n as nat),
    decreases n,
{
    if n >= 10 {
        push_count(text, n / 10);
    }
    let last = (n % 10) as u32;
    text.push(digit(last));
}

/// The decimal text of `n`.
pub fn decimal(n: u32) -> (text: String)
    ensures
        text@ == decimal_text(n as nat),
{
    let mut text = String::new();
    push_decimal(&mut text, n);
    text
}

/// A run of `count` spaces.
pub open spec fn spaces(count: nat) -> Seq<char> {
    Seq::new(count, |i: int| ' ')
}

/// Appends `count` spaces to `text`.
pub fn push_spaces(text: &mut String, count: usize)
    ensures
        final(text)@ == old(text)@ + spaces(count as nat),
{
    let mut i: usize = 0;
    while i < count
        invariant
            i <= count,
            text@ == old(text)@ + spaces(i as nat),
        decreases count - i,
    {
        text.push(' ');
        i = i + 1;
        assert(spaces(i as nat) == spaces((i - 1) as nat).push(' '));
    }
}

/// The characters of each string in a sequence.
pub open spec fn texts_view(texts: Seq<String>) -> Seq<Seq<char>> {
    texts.map_values(|t: String| t@)
}

/// `parts` joined with `separator` between consecutive parts, as
/// `[String]::join` does.
pub open spec fn joined(parts: Seq<Seq<char>>, separator: Seq<char>) -> Seq<char>
    decreases parts.len(),
{
    if parts.len() == 0 {
        Seq::empty()
    } else if parts.len() == 1 {
        parts[0]
    } else {
        joined(parts.drop_last(), separator) + separator + parts.last()
    }
}

/// Joins strings with a separator between consecutive ones.
pub fn join(parts: &Vec<String>, separator: &str) -> (text: String)
    ensures
        text@ == joined(texts_view(parts@), separator@),
{
    let ghost all = texts_view(parts@);
    let mut text = String::new();
    let mut i: usize = 0;
    while i < parts.len()
        invariant
            i <= parts@.len(),
            all == texts_view(parts@),
            text@ == joined(all.take(i as int), separator@),
        decreases parts@.len() - i,
    {
        if i > 0 {
            text.append(separator);
        }
        text.append(parts[i].as_str());
        proof {
            let next = all.take(i + 1);
            assert(next.drop_last() == all.take(i as int));
            assert(next.last() == parts@[i as int]@);
            if i == 0 {
                assert(text@ == next[0]);
            }
        }
        i = i + 1;
    }
    assert(all.take(parts@.len() as int) == all);
    text
}

/// Seq concatenation is associative; stated once so callers can chain pushes.
pub proof fn lemma_concat_assoc(a: Seq<char>, b: Seq<char>, c: Seq<char>)
    ensures
        a + b + c == a + (b + c),
{
    assert(a + b + c =~= a + (b + c));
}

} // verus!
