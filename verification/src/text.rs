//! Character and string scanning utilities.
//!
//! The log-redaction scanner and the address parsers work over character
//! sequences. This module holds the shared character classes, the
//! conversion between strings and character vectors, and a verified
//! replace-all on plain substrings.

use vstd::prelude::*;

verus! {

/// Whether the character is a decimal digit.
pub open spec fn is_digit(c: char) -> bool {
    48 <= c as u32 <= 57
}

/// Whether the character is a hexadecimal digit.
pub open spec fn is_hex_digit(c: char) -> bool {
    is_digit(c) || (97 <= c as u32 <= 102) || (65 <= c as u32 <= 70)
}

/// Whether the character is an ASCII letter or digit.
pub open spec fn is_alphanumeric(c: char) -> bool {
    is_digit(c) || (97 <= c as u32 <= 122) || (65 <= c as u32 <= 90)
}

/// The numeric value of a decimal digit character.
pub open spec fn digit_value(c: char) -> int {
    c as u32 - 48
}

/// Returns whether the character is a decimal digit.
pub fn check_digit(c: char) -> (r: bool)
    ensures
        r == is_digit(c),
{
    let v = c as u32;
    48 <= v && v <= 57
}

/// Returns whether the character is a hexadecimal digit.
pub fn check_hex_digit(c: char) -> (r: bool)
    ensures
        r == is_hex_digit(c),
{
    let v = c as u32;
    (48 <= v && v <= 57) || (97 <= v && v <= 102) || (65 <= v && v <= 70)
}

/// Returns whether the character is an ASCII letter or digit.
pub fn check_alphanumeric(c: char) -> (r: bool)
    ensures
        r == is_alphanumeric(c),
{
    let v = c as u32;
    (48 <= v && v <= 57) || (97 <= v && v <= 122) || (65 <= v && v <= 90)
}

/// Collects the characters of a string into a vector.
pub fn chars_of(s: &str) -> (r: Vec<char>)
    ensures
        r@ =~= s@,
{
    let mut chars: Vec<char> = Vec::new();
    let len = s.unicode_len();
    let mut i: usize = 0;
    while i < len
        invariant
            len == s@.len(),
            i <= len,
            chars@ =~= s@.take(i as int),
        decreases len - i,
    {
        chars.push(s.get_char(i));
        i = i + 1;
    }
    proof {
        assert(s@.take(s@.len() as int) =~= s@);
    }
    chars
}

/// Relies on `String::push`: appends the given character to the end of
/// the string.
#[verifier::external_body]
pub(crate) fn push_char(s: &mut String, c: char)
    ensures
        final(s)@ == old(s)@.push(c),
{
    s.push(c);
}

/// Builds a string from a vector of characters.
pub fn string_of_chars(chars: &Vec<char>) -> (r: String)
    ensures
        r@ =~= chars@,
{
    let mut s = String::new();
    let mut i: usize = 0;
    while i < chars.len()
        invariant
            i <= chars.len(),
            s@ =~= chars@.take(i as int),
        decreases chars.len() - i,
    {
        push_char(&mut s, chars[i]);
        i = i + 1;
    }
    proof {
        assert(chars@.take(chars@.len() as int) =~= chars@);
    }
    s
}

/// The string with every occurrence of a pattern replaced, scanning left
/// to right without overlap; an empty pattern replaces nothing.
pub open spec fn spec_replace_all(s: Seq<char>, pattern: Seq<char>, replacement: Seq<char>) -> Seq<
    char,
>
    decreases s.len(),
{
    if pattern.len() == 0 {
        s
    } else if s.len() < pattern.len() {
        s
    } else if s.take(pattern.len() as int) == pattern {
        replacement + spec_replace_all(s.skip(pattern.len() as int), pattern, replacement)
    } else {
        seq![s[0]] + spec_replace_all(s.skip(1), pattern, replacement)
    }
}

/// Returns whether the pattern occurs at the given position.
fn matches_at(chars: &Vec<char>, i: usize, pattern: &Vec<char>) -> (r: bool)
    requires
        i <= chars@.len(),
    ensures
        r == (i + pattern@.len() <= chars@.len() && chars@.subrange(
            i as int,
            i + pattern@.len(),
        ) == pattern@),
{
    if pattern.len() > chars.len() - i {
        proof {
            assert(i + pattern@.len() > chars@.len());
        }
        return false;
    }
    let mut j: usize = 0;
    let plen = pattern.len();
    let n = chars.len();
    while j < plen
        invariant
            plen == pattern@.len(),
            n == chars@.len(),
            i + plen <= n,
            j <= plen,
            forall|k: int| 0 <= k < j ==> chars@[i + k] == pattern@[k],
        decreases pattern.len() - j,
    {
        if chars[i + j] != pattern[j] {
            proof {
                assert(chars@.subrange(i as int, i + pattern@.len())[j as int] != pattern@[
                j as int]);
            }
            return false;
        }
        j = j + 1;
    }
    proof {
        assert(chars@.subrange(i as int, i + pattern@.len()) =~= pattern@);
    }
    true
}

/// Replaces every occurrence of the pattern in the input, scanning left
/// to right without overlap.
pub fn replace_all(input: &str, pattern: &str, replacement: &str) -> (r: String)
    ensures
        r@ == spec_replace_all(input@, pattern@, replacement@),
{
    let chars = chars_of(input);
    let pattern_chars = chars_of(pattern);
    if pattern_chars.len() == 0 {
        let mut copy = String::new();
        copy.append(input);
        return copy;
    }
    let mut out = String::new();
    let mut i: usize = 0;
    proof {
        assert(input@.skip(0) =~= input@);
        assert(out@ + spec_replace_all(input@, pattern@, replacement@) =~= spec_replace_all(
            input@,
            pattern@,
            replacement@,
        ));
    }
    while i < chars.len()
        invariant
            chars@ =~= input@,
            pattern_chars@ =~= pattern@,
            pattern@.len() >= 1,
            i <= chars@.len(),
            spec_replace_all(input@, pattern@, replacement@) == out@ + spec_replace_all(
                input@.skip(i as int),
                pattern@,
                replacement@,
            ),
        decreases chars.len() - i,
    {
        let ghost rest = input@.skip(i as int);
        if matches_at(&chars, i, &pattern_chars) {
            out.append(replacement);
            proof {
                assert(rest.take(pattern@.len() as int) =~= input@.subrange(
                    i as int,
                    i + pattern@.len(),
                ));
                assert(rest.skip(pattern@.len() as int) =~= input@.skip(
                    i + pattern@.len() as int,
                ));
            }
            i = i + pattern_chars.len();
        } else {
            push_char(&mut out, chars[i]);
            proof {
                if rest.len() >= pattern@.len() {
                    assert(rest.take(pattern@.len() as int) =~= input@.subrange(
                        i as int,
                        i + pattern@.len(),
                    ));
                }
                assert(rest[0] == input@[i as int]);
                assert(rest.skip(1) =~= input@.skip(i as int + 1));
            }
            i = i + 1;
        }
    }
    proof {
        assert(input@.skip(input@.len() as int) =~= Seq::<char>::empty());
    }
    out
}

/// Normalizes line endings: every carriage-return line-feed pair becomes
/// a single line feed.
pub fn normalize_newlines(text: &str) -> (r: String)
    ensures
        r@ == spec_replace_all(text@, "\r\n"@, "\n"@),
{
    replace_all(text, "\r\n", "\n")
}

} // verus!

verus! {

/// Whether the pattern occurs anywhere in the sequence.
pub open spec fn spec_contains_substr(s: Seq<char>, pattern: Seq<char>) -> bool {
    exists|i: int|
        0 <= i <= s.len() - pattern.len() && #[trigger] s.subrange(i, i + pattern.len()) == pattern
}

/// Returns whether the pattern occurs anywhere in the string.
pub fn contains_substr(s: &str, pattern: &str) -> (r: bool)
    ensures
        r == spec_contains_substr(s@, pattern@),
{
    let chars = chars_of(s);
    let pattern_chars = chars_of(pattern);
    if pattern_chars.len() > chars.len() {
        return false;
    }
    if pattern_chars.len() == 0 {
        proof {
            let ghost plen = pattern@.len() as int;
            assert(s@.subrange(0, 0 + plen) =~= pattern@);
        }
        return true;
    }
    let mut i: usize = 0;
    let n = chars.len();
    let last = n - pattern_chars.len();
    while i <= last
        invariant
            chars@ =~= s@,
            pattern_chars@ =~= pattern@,
            1 <= pattern@.len() <= s@.len(),
            n == chars@.len(),
            last == s@.len() - pattern@.len(),
            last < n,
            i <= last + 1,
            forall|q: int| 0 <= q < i ==> #[trigger] s@.subrange(q, q + pattern@.len()) != pattern@,
        decreases last - i + 1,
    {
        if matches_at(&chars, i, &pattern_chars) {
            return true;
        }
        proof {
            assert(chars@.subrange(i as int, i + pattern@.len()) =~= s@.subrange(
                i as int,
                i + pattern@.len(),
            ));
        }
        i = i + 1;
    }
    proof {
        if spec_contains_substr(s@, pattern@) {
            let q = choose|q: int|
                0 <= q <= s@.len() - pattern@.len() && #[trigger] s@.subrange(
                    q,
                    q + pattern@.len(),
                ) == pattern@;
        }
    }
    false
}

} // verus!

verus! {

/// The character of one decimal digit value.
pub open spec fn digit_char(d: int) -> char {
    ((d + 48) as u8) as char
}

/// The decimal rendering of a number, most significant digit first.
pub open spec fn spec_decimal(n: int) -> Seq<char>
    decreases n,
{
    if n <= 9 {
        seq![digit_char(n)]
    } else {
        spec_decimal(n / 10).push(digit_char(n % 10))
    }
}

/// Renders a number in decimal.
pub fn decimal_string(n: u32) -> (r: String)
    ensures
        r@ == spec_decimal(n as int),
    decreases n,
{
    if n <= 9 {
        let mut s = String::new();
        push_char(&mut s, (48 + n as u8) as char);
        proof {
            assert(s@ =~= seq![digit_char(n as int)]);
        }
        s
    } else {
        let mut s = decimal_string(n / 10);
        push_char(&mut s, (48 + (n % 10) as u8) as char);
        s
    }
}

/// The character of one hexadecimal digit value, lowercase.
pub open spec fn hex_char(d: int) -> char {
    if d <= 9 {
        ((d + 48) as u8) as char
    } else {
        ((d + 87) as u8) as char
    }
}

/// The hexadecimal rendering of a number, most significant digit first.
pub open spec fn spec_hexadecimal(n: int) -> Seq<char>
    decreases n,
{
    if n <= 15 {
        seq![hex_char(n)]
    } else {
        spec_hexadecimal(n / 16).push(hex_char(n % 16))
    }
}

/// Renders a number in lowercase hexadecimal.
pub fn hexadecimal_string(n: u32) -> (r: String)
    ensures
        r@ == spec_hexadecimal(n as int),
    decreases n,
{
    if n <= 15 {
        let mut s = String::new();
        let d = n as u8;
        if d <= 9 {
            push_char(&mut s, (48 + d) as char);
        } else {
            push_char(&mut s, (87 + d) as char);
        }
        proof {
            assert(s@ =~= seq![hex_char(n as int)]);
        }
        s
    } else {
        let mut s = hexadecimal_string(n / 16);
        let d = (n % 16) as u8;
        if d <= 9 {
            push_char(&mut s, (48 + d) as char);
        } else {
            push_char(&mut s, (87 + d) as char);
        }
        s
    }
}

} // verus!
