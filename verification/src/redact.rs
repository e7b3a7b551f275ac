//! Recognition of network identifiers in log text, and their redaction.
//!
//! Problem reports carry log files, and log files carry addresses. This
//! module defines, as a grammar over character sequences, what counts as
//! an IPv4 address (loopback excepted), an IPv6 address or a hardware
//! address, and redacts every maximal run of address characters that
//! matches the grammar. Account numbers, the home directory and custom
//! phrases are redacted by plain substring passes.

use vstd::prelude::*;

use crate::text::chars_of;
use crate::text::check_alphanumeric;
use crate::text::check_digit;
use crate::text::check_hex_digit;
use crate::text::digit_value;
use crate::text::is_alphanumeric;
use crate::text::is_digit;
use crate::text::is_hex_digit;
use crate::text::push_char;

verus! {

/// The characters an address-like token is made of: letters, digits,
/// dots, colons and dashes. A maximal run of these is one token.
pub open spec fn is_token_char(c: char) -> bool {
    is_alphanumeric(c) || c == '.' || c == ':' || c == '-'
}

/// Returns whether the character can belong to an address-like token.
pub fn check_token_char(c: char) -> (r: bool)
    ensures
        r == is_token_char(c),
{
    check_alphanumeric(c) || c == '.' || c == ':' || c == '-'
}

/// Whether every character of the sequence is a decimal digit.
pub open spec fn all_digits(t: Seq<char>) -> bool {
    forall|j: int| 0 <= j < t.len() ==> is_digit(#[trigger] t[j])
}

/// Whether every character of the sequence is a hexadecimal digit.
pub open spec fn all_hex(t: Seq<char>) -> bool {
    forall|j: int| 0 <= j < t.len() ==> is_hex_digit(#[trigger] t[j])
}

/// The numeric value of a sequence of decimal digits.
pub open spec fn spec_digits_value(t: Seq<char>) -> int
    decreases t.len(),
{
    if t.len() == 0 {
        0
    } else {
        spec_digits_value(t.take(t.len() - 1)) * 10 + digit_value(t.last())
    }
}

/// One group of an IPv4 address: one to three digits with a value of at
/// most 255.
pub open spec fn is_octet(t: Seq<char>) -> bool {
    &&& 1 <= t.len() <= 3
    &&& all_digits(t)
    &&& spec_digits_value(t) <= 255
}

/// A split of the sequence into four octet groups at three dot
/// positions; when asked to, the first group must not be the loopback
/// prefix 127.
pub open spec fn quad_split_ok(
    t: Seq<char>,
    i: int,
    j: int,
    k: int,
    exclude_loopback: bool,
) -> bool {
    &&& 0 < i < j < k < t.len()
    &&& t[i] == '.' && t[j] == '.' && t[k] == '.'
    &&& is_octet(t.subrange(0, i))
    &&& is_octet(t.subrange(i + 1, j))
    &&& is_octet(t.subrange(j + 1, k))
    &&& is_octet(t.subrange(k + 1, t.len() as int))
    &&& (exclude_loopback ==> spec_digits_value(t.subrange(0, i)) != 127)
}

/// A dotted quad: four octet groups separated by dots.
pub open spec fn is_dotted_quad(t: Seq<char>) -> bool {
    exists|i: int, j: int, k: int| quad_split_ok(t, i, j, k, false)
}

/// An IPv4 address token: a dotted quad whose first octet is not the
/// loopback prefix 127, which stays readable in reports.
pub open spec fn is_ipv4_token(t: Seq<char>) -> bool {
    exists|i: int, j: int, k: int| quad_split_ok(t, i, j, k, true)
}

/// One group of an IPv6 address: one to four hexadecimal digits.
pub open spec fn is_hex_group(t: Seq<char>) -> bool {
    1 <= t.len() <= 4 && all_hex(t)
}

/// The length of the leading run of characters before the first colon:
/// the first group of a colon-separated list.
pub open spec fn spec_group_end(t: Seq<char>) -> nat
    decreases t.len(),
{
    if t.len() == 0 {
        0
    } else if t[0] == ':' {
        0
    } else {
        1 + spec_group_end(t.skip(1))
    }
}

/// Where the first group ends: before it there is no colon, at it there
/// is one unless the sequence is exhausted.
pub proof fn lemma_group_end(t: Seq<char>)
    ensures
        spec_group_end(t) <= t.len(),
        forall|j: int| 0 <= j < spec_group_end(t) ==> #[trigger] t[j] != ':',
        spec_group_end(t) < t.len() ==> t[spec_group_end(t) as int] == ':',
    decreases t.len(),
{
    if t.len() > 0 && t[0] != ':' {
        lemma_group_end(t.skip(1));
        assert forall|j: int| 0 <= j < spec_group_end(t) implies #[trigger] t[j] != ':' by {
            if j > 0 {
                assert(t.skip(1)[j - 1] == t[j]);
            }
        }
        if spec_group_end(t) < t.len() {
            assert(t.skip(1)[spec_group_end(t.skip(1)) as int] == t[spec_group_end(t) as int]);
        }
    }
}

/// The number of groups of a colon-separated list, when every group is
/// well formed: hexadecimal groups, and optionally a dotted quad as the
/// last group, which counts as two. A malformed list has no count.
pub open spec fn spec_group_split(t: Seq<char>, allow_v4_tail: bool) -> Option<int>
    decreases t.len(),
    via spec_group_split_decreases
{
    let n = spec_group_end(t) as int;
    if n == t.len() {
        if is_hex_group(t) {
            Some(1)
        } else if allow_v4_tail && is_dotted_quad(t) {
            Some(2)
        } else {
            None
        }
    } else {
        if is_hex_group(t.take(n)) {
            match spec_group_split(t.skip(n + 1), allow_v4_tail) {
                Some(count) => Some(count + 1),
                None => None,
            }
        } else {
            None
        }
    }
}

#[via_fn]
proof fn spec_group_split_decreases(t: Seq<char>, allow_v4_tail: bool) {
    lemma_group_end(t);
}

/// The position of the first double colon, or the length of the sequence
/// when there is none.
pub open spec fn spec_dcolon_pos(t: Seq<char>) -> nat
    decreases t.len(),
{
    if t.len() < 2 {
        t.len()
    } else if t[0] == ':' && t[1] == ':' {
        0
    } else {
        1 + spec_dcolon_pos(t.skip(1))
    }
}

/// Where the first double colon stands: before it no two adjacent
/// colons, at it a pair unless the sequence is exhausted.
pub proof fn lemma_dcolon_pos(t: Seq<char>)
    ensures
        spec_dcolon_pos(t) <= t.len(),
        forall|j: int|
            0 <= j < spec_dcolon_pos(t) && j + 1 < t.len() ==> !(#[trigger] t[j] == ':' && t[j + 1]
                == ':'),
        spec_dcolon_pos(t) + 2 <= t.len() ==> (t[spec_dcolon_pos(t) as int] == ':' && t[
            spec_dcolon_pos(t) as int + 1] == ':'),
    decreases t.len(),
{
    if t.len() >= 2 && !(t[0] == ':' && t[1] == ':') {
        lemma_dcolon_pos(t.skip(1));
        assert forall|j: int|
            0 <= j < spec_dcolon_pos(t) && j + 1 < t.len() implies !(#[trigger] t[j] == ':' && t[j
            + 1] == ':') by {
            if j > 0 {
                assert(t.skip(1)[j - 1] == t[j]);
                assert(t.skip(1)[j] == t[j + 1]);
            }
        }
        if spec_dcolon_pos(t) + 2 <= t.len() {
            let p = spec_dcolon_pos(t.skip(1)) as int;
            assert(t.skip(1)[p] == t[p + 1]);
            assert(t.skip(1)[p + 1] == t[p + 2]);
        }
    } else if t.len() < 2 {
    }
}

/// An IPv6 address token: either eight colon-separated hexadecimal
/// groups, or an elision marked by one double colon with at most seven
/// groups' worth of content around it, where the part after the elision
/// may end in an embedded dotted quad.
pub open spec fn is_ipv6_token(t: Seq<char>) -> bool {
    let p = spec_dcolon_pos(t) as int;
    if p + 2 <= t.len() {
        let left = t.take(p);
        let right = t.skip(p + 2);
        let left_count: Option<int> = if left.len() == 0 {
            Some(0)
        } else {
            spec_group_split(left, false)
        };
        let right_count: Option<int> = if right.len() == 0 {
            Some(0)
        } else {
            spec_group_split(right, true)
        };
        match (left_count, right_count) {
            (Some(lc), Some(rc)) => lc + rc <= 7,
            _ => false,
        }
    } else {
        spec_group_split(t, false) == Some(8int)
    }
}

/// A hardware address token: six groups of two hexadecimal digits,
/// joined by colons or dashes.
pub open spec fn is_mac_token(t: Seq<char>) -> bool {
    &&& t.len() == 17
    &&& forall|j: int|
        0 <= j < 17 ==> (if j % 3 == 2 {
            #[trigger] t[j] == ':' || t[j] == '-'
        } else {
            is_hex_digit(t[j])
        })
}

/// A token that names a network identifier and must be redacted.
pub open spec fn is_net_token(t: Seq<char>) -> bool {
    is_ipv4_token(t) || is_ipv6_token(t) || is_mac_token(t)
}

} // verus!

verus! {

/// Finds the first occurrence of a character in a range.
pub fn find_char(chars: &Vec<char>, start: usize, end: usize, target: char) -> (r: Option<usize>)
    requires
        start <= end <= chars@.len(),
    ensures
        r matches Some(p) ==> start <= p < end && chars@[p as int] == target && forall|q: int|
            start <= q < p ==> chars@[q] != target,
        r is None ==> forall|q: int| start <= q < end ==> chars@[q] != target,
{
    let mut i: usize = start;
    while i < end
        invariant
            start <= i <= end <= chars@.len(),
            forall|q: int| start <= q < i ==> chars@[q] != target,
        decreases end - i,
    {
        if chars[i] == target {
            return Some(i);
        }
        i = i + 1;
    }
    None
}

/// Returns whether every character of the range is a decimal digit.
pub fn check_all_digits(chars: &Vec<char>, start: usize, end: usize) -> (r: bool)
    requires
        start <= end <= chars@.len(),
    ensures
        r == all_digits(chars@.subrange(start as int, end as int)),
{
    let ghost t = chars@.subrange(start as int, end as int);
    let mut i: usize = start;
    while i < end
        invariant
            start <= i <= end <= chars@.len(),
            t == chars@.subrange(start as int, end as int),
            forall|j: int| 0 <= j < i - start ==> is_digit(#[trigger] t[j]),
        decreases end - i,
    {
        if !check_digit(chars[i]) {
            proof {
                assert(t[i - start] == chars@[i as int]);
            }
            return false;
        }
        i = i + 1;
    }
    true
}

/// Digit sequences of at most three digits stay small.
pub proof fn lemma_digits_value_bound(t: Seq<char>)
    requires
        all_digits(t),
    ensures
        0 <= spec_digits_value(t),
        t.len() <= 1 ==> spec_digits_value(t) <= 9,
        t.len() <= 2 ==> spec_digits_value(t) <= 99,
        t.len() <= 3 ==> spec_digits_value(t) <= 999,
    decreases t.len(),
{
    if t.len() > 0 {
        let head = t.take(t.len() - 1);
        assert(all_digits(head)) by {
            assert(forall|j: int| 0 <= j < head.len() ==> head[j] == t[j]);
        }
        lemma_digits_value_bound(head);
        assert(0 <= digit_value(t.last()) <= 9);
    }
}

/// Computes the value of a range of digits.
pub fn digits_value(chars: &Vec<char>, start: usize, end: usize) -> (r: u32)
    requires
        start <= end <= chars@.len(),
        end - start <= 3,
        all_digits(chars@.subrange(start as int, end as int)),
    ensures
        r == spec_digits_value(chars@.subrange(start as int, end as int)),
{
    let ghost t = chars@.subrange(start as int, end as int);
    let mut value: u32 = 0;
    let mut i: usize = start;
    while i < end
        invariant
            start <= i <= end <= chars@.len(),
            end - start <= 3,
            t == chars@.subrange(start as int, end as int),
            all_digits(t),
            value == spec_digits_value(t.take(i - start)),
            value <= 999,
        decreases end - i,
    {
        proof {
            let prefix = t.take(i + 1 - start);
            assert(prefix.take(prefix.len() - 1) =~= t.take(i - start));
            assert(prefix.last() == t[i - start]);
            assert(t[i - start] == chars@[i as int]);
            assert(all_digits(t.take(i - start))) by {
                assert(forall|j: int|
                    0 <= j < i - start ==> t.take(i - start)[j] == #[trigger] t[j]);
            }
            lemma_digits_value_bound(t.take(i - start));
        }
        let c = chars[i];
        value = value * 10 + (c as u32 - 48);
        i = i + 1;
    }
    proof {
        assert(t.take(end - start) =~= t);
    }
    value
}

/// Returns whether the range is one octet group.
pub fn check_octet(chars: &Vec<char>, start: usize, end: usize) -> (r: bool)
    requires
        start <= end <= chars@.len(),
    ensures
        r == is_octet(chars@.subrange(start as int, end as int)),
{
    if end - start < 1 || end - start > 3 {
        return false;
    }
    if !check_all_digits(chars, start, end) {
        return false;
    }
    let value = digits_value(chars, start, end);
    value <= 255
}

/// Exactly three dots, at these three positions.
pub open spec fn dots_exactly(t: Seq<char>, i: int, j: int, k: int) -> bool {
    &&& 0 <= i < j < k < t.len()
    &&& t[i] == '.' && t[j] == '.' && t[k] == '.'
    &&& forall|d: int| 0 <= d < t.len() && #[trigger] t[d] == '.' ==> (d == i || d == j || d == k)
}

/// Octet groups hold no dot, so a quad split fixes the dot positions.
pub proof fn lemma_quad_dots(t: Seq<char>, i: int, j: int, k: int, exclude_loopback: bool)
    requires
        quad_split_ok(t, i, j, k, exclude_loopback),
    ensures
        dots_exactly(t, i, j, k),
{
    assert forall|d: int|
        0 <= d < t.len() && #[trigger] t[d] == '.' implies (d == i || d == j || d == k) by {
        if d < i {
            assert(t.subrange(0, i)[d] == t[d]);
            assert(is_digit(t.subrange(0, i)[d]));
        } else if i < d < j {
            assert(t.subrange(i + 1, j)[d - i - 1] == t[d]);
            assert(is_digit(t.subrange(i + 1, j)[d - i - 1]));
        } else if j < d < k {
            assert(t.subrange(j + 1, k)[d - j - 1] == t[d]);
            assert(is_digit(t.subrange(j + 1, k)[d - j - 1]));
        } else if k < d {
            assert(t.subrange(k + 1, t.len() as int)[d - k - 1] == t[d]);
            assert(is_digit(t.subrange(k + 1, t.len() as int)[d - k - 1]));
        }
    }
}

/// Two exact dot splits of the same sequence agree.
pub proof fn lemma_dots_exactly_unique(t: Seq<char>, i: int, j: int, k: int, x: int, y: int, z: int)
    requires
        dots_exactly(t, i, j, k),
        dots_exactly(t, x, y, z),
    ensures
        i == x && j == y && k == z,
{
    assert(i == x || i == y || i == z);
    assert(x == i || x == j || x == k);
    assert(j == x || j == y || j == z);
    assert(y == i || y == j || y == k);
    assert(k == x || k == y || k == z);
    assert(z == i || z == j || z == k);
}

/// Finds the positions of the dots in a range that holds exactly three.
pub fn find_three_dots(chars: &Vec<char>, start: usize, end: usize) -> (r: Option<
    (usize, usize, usize),
>)
    requires
        start <= end <= chars@.len(),
    ensures
        r matches Some(d) ==> dots_exactly(
            chars@.subrange(start as int, end as int),
            d.0 - start,
            d.1 - start,
            d.2 - start,
        ) && start <= d.0 && d.2 < end,
        r is None ==> forall|i: int, j: int, k: int|
            !dots_exactly(chars@.subrange(start as int, end as int), i, j, k),
{
    let ghost t = chars@.subrange(start as int, end as int);
    proof {
        assert(forall|q: int| 0 <= q < t.len() ==> #[trigger] t[q] == chars@[start + q]);
    }
    let d1 = match find_char(chars, start, end, '.') {
        Some(p) => p,
        None => {
            proof {
                assert forall|i: int, j: int, k: int| !dots_exactly(t, i, j, k) by {
                    if dots_exactly(t, i, j, k) {
                        assert(chars@[start + i] == '.');
                    }
                }
            }
            return None;
        },
    };
    let d2 = match find_char(chars, d1 + 1, end, '.') {
        Some(p) => p,
        None => {
            proof {
                assert forall|i: int, j: int, k: int| !dots_exactly(t, i, j, k) by {
                    if dots_exactly(t, i, j, k) {
                        assert(chars@[start + k] == '.');
                        assert(start + k > d1);
                    }
                }
            }
            return None;
        },
    };
    let d3 = match find_char(chars, d2 + 1, end, '.') {
        Some(p) => p,
        None => {
            proof {
                assert forall|i: int, j: int, k: int| !dots_exactly(t, i, j, k) by {
                    if dots_exactly(t, i, j, k) {
                        assert(chars@[start + k] == '.');
                        assert(start + j < start + k);
                        assert(start + k > d2);
                        assert(start + j > d1);
                    }
                }
            }
            return None;
        },
    };
    match find_char(chars, d3 + 1, end, '.') {
        Some(extra) => {
            proof {
                assert forall|i: int, j: int, k: int| !dots_exactly(t, i, j, k) by {
                    if dots_exactly(t, i, j, k) {
                        assert(t[extra - start] == '.');
                        assert(t[d1 - start] == '.');
                        assert(t[d2 - start] == '.');
                        assert(t[d3 - start] == '.');
                        assert(extra - start == i || extra - start == j || extra - start == k);
                        assert(d1 - start == i || d1 - start == j || d1 - start == k);
                        assert(d2 - start == i || d2 - start == j || d2 - start == k);
                        assert(d3 - start == i || d3 - start == j || d3 - start == k);
                    }
                }
            }
            None
        },
        None => {
            proof {
                assert(dots_exactly(t, d1 - start, d2 - start, d3 - start)) by {
                    assert forall|d: int|
                        0 <= d < t.len() && #[trigger] t[d] == '.' implies (d == d1 - start || d
                        == d2 - start || d == d3 - start) by {
                        assert(chars@[start + d] == '.');
                    }
                }
            }
            Some((d1, d2, d3))
        },
    }
}

/// Returns whether the range splits into four dot-separated octet
/// groups, excluding a loopback first octet when asked to.
fn check_quad(chars: &Vec<char>, start: usize, end: usize, exclude_loopback: bool) -> (r: bool)
    requires
        start <= end <= chars@.len(),
    ensures
        r == (exists|i: int, j: int, k: int|
            quad_split_ok(chars@.subrange(start as int, end as int), i, j, k, exclude_loopback)),
{
    let ghost t = chars@.subrange(start as int, end as int);
    let (d1, d2, d3) = match find_three_dots(chars, start, end) {
        Some(d) => d,
        None => {
            proof {
                if exists|i: int, j: int, k: int| quad_split_ok(t, i, j, k, exclude_loopback) {
                    let (i, j, k) = choose|i: int, j: int, k: int|
                        quad_split_ok(t, i, j, k, exclude_loopback);
                    lemma_quad_dots(t, i, j, k, exclude_loopback);
                }
            }
            return false;
        },
    };
    let ghost gi = d1 - start;
    let ghost gj = d2 - start;
    let ghost gk = d3 - start;
    proof {
        assert(t.subrange(0, gi) =~= chars@.subrange(start as int, d1 as int));
        assert(t.subrange(gi + 1, gj) =~= chars@.subrange(d1 + 1, d2 as int));
        assert(t.subrange(gj + 1, gk) =~= chars@.subrange(d2 + 1, d3 as int));
        assert(t.subrange(gk + 1, t.len() as int) =~= chars@.subrange(d3 + 1, end as int));
        if exists|i: int, j: int, k: int| quad_split_ok(t, i, j, k, exclude_loopback) {
            let (i, j, k) = choose|i: int, j: int, k: int|
                quad_split_ok(t, i, j, k, exclude_loopback);
            lemma_quad_dots(t, i, j, k, exclude_loopback);
            lemma_dots_exactly_unique(t, i, j, k, gi, gj, gk);
            assert(quad_split_ok(t, gi, gj, gk, exclude_loopback));
        }
    }
    if !check_octet(chars, start, d1) {
        return false;
    }
    if !check_octet(chars, d1 + 1, d2) {
        return false;
    }
    if !check_octet(chars, d2 + 1, d3) {
        return false;
    }
    if !check_octet(chars, d3 + 1, end) {
        return false;
    }
    if exclude_loopback {
        let first_value = digits_value(chars, start, d1);
        if first_value == 127 {
            return false;
        }
    }
    proof {
        assert(quad_split_ok(t, gi, gj, gk, exclude_loopback));
    }
    true
}

} // verus!


verus! {

/// Returns whether the range is one hexadecimal group.
pub fn check_hex_group(chars: &Vec<char>, start: usize, end: usize) -> (r: bool)
    requires
        start <= end <= chars@.len(),
    ensures
        r == is_hex_group(chars@.subrange(start as int, end as int)),
{
    let ghost t = chars@.subrange(start as int, end as int);
    if end - start < 1 || end - start > 4 {
        return false;
    }
    let mut i: usize = start;
    while i < end
        invariant
            start <= i <= end <= chars@.len(),
            t == chars@.subrange(start as int, end as int),
            forall|j: int| 0 <= j < i - start ==> is_hex_digit(#[trigger] t[j]),
        decreases end - i,
    {
        if !check_hex_digit(chars[i]) {
            proof {
                assert(t[i - start] == chars@[i as int]);
            }
            return false;
        }
        i = i + 1;
    }
    true
}

/// Counts the groups of a colon-separated range, when all are well
/// formed.
#[verifier::rlimit(40)]
fn split_groups(chars: &Vec<char>, start: usize, end: usize, allow_v4_tail: bool) -> (r: Option<
    usize,
>)
    requires
        start <= end <= chars@.len(),
    ensures
        r matches Some(c) ==> spec_group_split(
            chars@.subrange(start as int, end as int),
            allow_v4_tail,
        ) == Some(c as int),
        r is None ==> spec_group_split(chars@.subrange(start as int, end as int), allow_v4_tail)
            is None,
{
    let ghost whole = chars@.subrange(start as int, end as int);
    let mut cur: usize = start;
    let mut count: usize = 0;
    loop
        invariant
            start <= cur <= end <= chars@.len(),
            whole == chars@.subrange(start as int, end as int),
            2 * count <= cur - start,
            ({
                let rest_split = spec_group_split(
                    chars@.subrange(cur as int, end as int),
                    allow_v4_tail,
                );
                match spec_group_split(whole, allow_v4_tail) {
                    Some(total) => rest_split matches Some(c) && total == c + count,
                    None => rest_split is None,
                }
            }),
        decreases end - cur,
    {
        let ghost rest = chars@.subrange(cur as int, end as int);
        proof {
            lemma_group_end(rest);
        }
        match find_char(chars, cur, end, ':') {
            None => {
                proof {
                    let u = spec_group_end(rest) as int;
                    if u < rest.len() {
                        assert(rest[u] == chars@[cur + u]);
                        assert(false);
                    }
                }
                if check_hex_group(chars, cur, end) {
                    return Some(count + 1);
                }
                if allow_v4_tail && check_quad(chars, cur, end, false) {
                    return Some(count + 2);
                }
                return None;
            },
            Some(n) => {
                proof {
                    let u = spec_group_end(rest) as int;
                    assert(rest[n - cur] == chars@[n as int]);
                    if u < n - cur {
                        assert(rest[u] == chars@[cur + u]);
                        assert(false);
                    }
                    if u > n - cur {
                        assert(rest[n - cur] != ':');
                        assert(false);
                    }
                    assert(rest.take(n - cur) =~= chars@.subrange(cur as int, n as int));
                    assert(rest.skip(n - cur + 1) =~= chars@.subrange(n + 1, end as int));
                }
                if !check_hex_group(chars, cur, n) {
                    return None;
                }
                count = count + 1;
                cur = n + 1;
            },
        }
    }
}

/// Finds the first double colon in a range.
pub fn find_dcolon(chars: &Vec<char>, start: usize, end: usize) -> (r: Option<usize>)
    requires
        start <= end <= chars@.len(),
    ensures
        r matches Some(p) ==> start <= p && p + 1 < end && chars@[p as int] == ':' && chars@[p + 1]
            == ':' && forall|q: int|
            start <= q < p ==> !(#[trigger] chars@[q] == ':' && chars@[q + 1] == ':'),
        r is None ==> forall|q: int|
            start <= q && q + 1 < end ==> !(#[trigger] chars@[q] == ':' && chars@[q + 1] == ':'),
{
    let mut i: usize = start;
    while end - i > 1
        invariant
            start <= i <= end <= chars@.len(),
            forall|q: int| start <= q < i ==> !(#[trigger] chars@[q] == ':' && chars@[q + 1] == ':'),
        decreases end - i,
    {
        if chars[i] == ':' && chars[i + 1] == ':' {
            return Some(i);
        }
        i = i + 1;
    }
    None
}

/// Returns whether the range is an IPv6 address token.
#[verifier::rlimit(40)]
fn check_ipv6(chars: &Vec<char>, start: usize, end: usize) -> (r: bool)
    requires
        start <= end <= chars@.len(),
    ensures
        r == is_ipv6_token(chars@.subrange(start as int, end as int)),
{
    let ghost t = chars@.subrange(start as int, end as int);
    proof {
        lemma_dcolon_pos(t);
        assert(forall|q: int| 0 <= q < t.len() ==> #[trigger] t[q] == chars@[start + q]);
    }
    let dcolon = find_dcolon(chars, start, end);
    match dcolon {
        Some(p) => {
            proof {
                let u = spec_dcolon_pos(t) as int;
                if u < p - start {
                    assert(t[u] == ':' && t[u + 1] == ':');
                    assert(chars@[start + u] == ':' && chars@[start + u + 1] == ':');
                    assert(false);
                }
                if u > p - start {
                    assert(!(t[p - start] == ':' && t[p - start + 1] == ':'));
                    assert(false);
                }
                assert(t.take(p - start) =~= chars@.subrange(start as int, p as int));
                assert(t.skip(p - start + 2) =~= chars@.subrange(p + 2, end as int));
            }
            let left_count: Option<usize> = if p == start {
                Some(0)
            } else {
                split_groups(chars, start, p, false)
            };
            let right_count: Option<usize> = if p + 2 == end {
                Some(0)
            } else {
                split_groups(chars, p + 2, end, true)
            };
            match (left_count, right_count) {
                (Some(lc), Some(rc)) => lc <= 7 && rc <= 7 && lc + rc <= 7,
                _ => false,
            }
        },
        None => {
            proof {
                let u = spec_dcolon_pos(t) as int;
                if u + 2 <= t.len() {
                    assert(t[u] == ':' && t[u + 1] == ':');
                    assert(chars@[start + u] == ':' && chars@[start + u + 1] == ':');
                    assert(false);
                }
            }
            match split_groups(chars, start, end, false) {
                Some(c) => c == 8,
                None => false,
            }
        },
    }
}

/// Returns whether the range is a hardware address token.
fn check_mac(chars: &Vec<char>, start: usize, end: usize) -> (r: bool)
    requires
        start <= end <= chars@.len(),
    ensures
        r == is_mac_token(chars@.subrange(start as int, end as int)),
{
    let ghost t = chars@.subrange(start as int, end as int);
    if end - start != 17 {
        return false;
    }
    let mut j: usize = 0;
    while j < 17
        invariant
            start + 17 == end,
            end <= chars@.len(),
            t == chars@.subrange(start as int, end as int),
            j <= 17,
            forall|q: int|
                0 <= q < j ==> (if q % 3 == 2 {
                    #[trigger] t[q] == ':' || t[q] == '-'
                } else {
                    is_hex_digit(t[q])
                }),
        decreases 17 - j,
    {
        let c = chars[start + j];
        proof {
            assert(t[j as int] == chars@[start + j]);
        }
        if j % 3 == 2 {
            if !(c == ':' || c == '-') {
                return false;
            }
        } else {
            if !check_hex_digit(c) {
                return false;
            }
        }
        j = j + 1;
    }
    true
}

/// Returns whether the range is a token that must be redacted.
fn check_net_token(chars: &Vec<char>, start: usize, end: usize) -> (r: bool)
    requires
        start <= end <= chars@.len(),
    ensures
        r == is_net_token(chars@.subrange(start as int, end as int)),
{
    if check_quad(chars, start, end, true) {
        return true;
    }
    if check_ipv6(chars, start, end) {
        return true;
    }
    check_mac(chars, start, end)
}

} // verus!

verus! {

/// The length of the leading run of token characters.
pub open spec fn spec_token_len(t: Seq<char>) -> nat
    decreases t.len(),
{
    if t.len() == 0 || !is_token_char(t[0]) {
        0
    } else {
        1 + spec_token_len(t.skip(1))
    }
}

/// Where the leading token ends: before it only token characters, at it
/// none unless the sequence is exhausted.
pub proof fn lemma_token_len(t: Seq<char>)
    ensures
        spec_token_len(t) <= t.len(),
        forall|j: int| 0 <= j < spec_token_len(t) ==> is_token_char(#[trigger] t[j]),
        spec_token_len(t) < t.len() ==> !is_token_char(t[spec_token_len(t) as int]),
        t.len() > 0 && is_token_char(t[0]) ==> spec_token_len(t) >= 1,
    decreases t.len(),
{
    if t.len() > 0 && is_token_char(t[0]) {
        lemma_token_len(t.skip(1));
        assert forall|j: int| 0 <= j < spec_token_len(t) implies is_token_char(
            #[trigger] t[j],
        ) by {
            if j > 0 {
                assert(t.skip(1)[j - 1] == t[j]);
            }
        }
        if spec_token_len(t) < t.len() {
            assert(t.skip(1)[spec_token_len(t.skip(1)) as int] == t[spec_token_len(t) as int]);
        }
    }
}

/// Whether the sequence starts with sixteen digits: the shape of an
/// account number.
pub open spec fn leading_account_number(s: Seq<char>) -> bool {
    s.len() >= 16 && forall|j: int| 0 <= j < 16 ==> is_digit(#[trigger] s[j])
}

/// The text with every run of sixteen digits replaced, scanning left to
/// right.
pub open spec fn spec_redact_account(s: Seq<char>) -> Seq<char>
    decreases s.len(),
{
    if s.len() == 0 {
        Seq::empty()
    } else if leading_account_number(s) {
        "[REDACTED ACCOUNT NUMBER]"@ + spec_redact_account(s.skip(16))
    } else {
        seq![s[0]] + spec_redact_account(s.skip(1))
    }
}

/// The text with every address-like token replaced when it names a
/// network identifier; all other text passes through unchanged.
pub open spec fn spec_redact_net(s: Seq<char>) -> Seq<char>
    decreases s.len(),
    via spec_redact_net_decreases
{
    if s.len() == 0 {
        Seq::empty()
    } else if !is_token_char(s[0]) {
        seq![s[0]] + spec_redact_net(s.skip(1))
    } else {
        let n = spec_token_len(s) as int;
        if is_net_token(s.take(n)) {
            "[REDACTED]"@ + spec_redact_net(s.skip(n))
        } else {
            s.take(n) + spec_redact_net(s.skip(n))
        }
    }
}

#[via_fn]
proof fn spec_redact_net_decreases(s: Seq<char>) {
    lemma_token_len(s);
}

/// Replaces every run of sixteen digits by a marker, so that account
/// numbers never leave the machine in a report.
pub fn redact_account_number(input: &str) -> (r: String)
    ensures
        r@ == spec_redact_account(input@),
{
    let chars = chars_of(input);
    let mut out = String::new();
    let mut i: usize = 0;
    proof {
        assert(input@.skip(0) =~= input@);
        assert(out@ + spec_redact_account(input@) =~= spec_redact_account(input@));
    }
    while i < chars.len()
        invariant
            chars@ =~= input@,
            i <= chars@.len(),
            spec_redact_account(input@) == out@ + spec_redact_account(input@.skip(i as int)),
        decreases chars.len() - i,
    {
        let ghost rest = input@.skip(i as int);
        let sixteen = chars.len() - i >= 16 && check_all_digits(&chars, i, i + 16);
        proof {
            if sixteen {
                assert forall|j: int| 0 <= j < 16 implies is_digit(#[trigger] rest[j]) by {
                    assert(rest[j] == chars@.subrange(i as int, i + 16)[j]);
                }
            } else if rest.len() >= 16 {
                if leading_account_number(rest) {
                    assert forall|j: int|
                        0 <= j < 16 implies is_digit(
                        #[trigger] chars@.subrange(i as int, i + 16)[j],
                    ) by {
                        assert(chars@.subrange(i as int, i + 16)[j] == rest[j]);
                    }
                }
            }
        }
        if sixteen {
            out.append("[REDACTED ACCOUNT NUMBER]");
            proof {
                assert(rest.skip(16) =~= input@.skip(i + 16));
            }
            i = i + 16;
        } else {
            push_char(&mut out, chars[i]);
            proof {
                assert(rest[0] == input@[i as int]);
                assert(rest.skip(1) =~= input@.skip(i as int + 1));
            }
            i = i + 1;
        }
    }
    proof {
        assert(input@.skip(input@.len() as int) =~= Seq::<char>::empty());
    }
    out
}

/// Replaces every address-like token that names a network identifier by
/// a marker: IPv4 and IPv6 addresses and hardware addresses disappear
/// from reports, loopback addresses and ordinary text stay.
#[verifier::rlimit(40)]
pub fn redact_network_info(input: &str) -> (r: String)
    ensures
        r@ == spec_redact_net(input@),
{
    let chars = chars_of(input);
    let mut out = String::new();
    let mut i: usize = 0;
    proof {
        assert(input@.skip(0) =~= input@);
        assert(out@ + spec_redact_net(input@) =~= spec_redact_net(input@));
    }
    while i < chars.len()
        invariant
            chars@ =~= input@,
            i <= chars@.len(),
            spec_redact_net(input@) == out@ + spec_redact_net(input@.skip(i as int)),
        decreases chars.len() - i,
    {
        let ghost rest = input@.skip(i as int);
        proof {
            assert(rest[0] == chars@[i as int]);
        }
        if !check_token_char(chars[i]) {
            push_char(&mut out, chars[i]);
            proof {
                assert(rest.skip(1) =~= input@.skip(i as int + 1));
            }
            i = i + 1;
        } else {
            // Find the end of the token.
            let mut j: usize = i + 1;
            while j < chars.len() && check_token_char(chars[j])
                invariant
                    chars@ =~= input@,
                    i < j <= chars@.len(),
                    forall|q: int| i <= q < j ==> is_token_char(#[trigger] chars@[q]),
                decreases chars.len() - j,
            {
                j = j + 1;
            }
            proof {
                lemma_token_len(rest);
                let n = spec_token_len(rest) as int;
                assert(forall|q: int| 0 <= q < rest.len() ==> #[trigger] rest[q] == chars@[i + q]);
                if n < j - i {
                    assert(is_token_char(chars@[i + n]));
                    assert(false);
                }
                if n > j - i {
                    assert(is_token_char(rest[j - i]));
                    assert(false);
                }
                assert(rest.take(j - i) =~= chars@.subrange(i as int, j as int));
                assert(rest.skip(j - i) =~= input@.skip(j as int));
            }
            if check_net_token(&chars, i, j) {
                out.append("[REDACTED]");
            } else {
                let mut m: usize = i;
                let ghost out_before = out@;
                while m < j
                    invariant
                        chars@ =~= input@,
                        i <= m <= j <= chars@.len(),
                        out@ =~= out_before + chars@.subrange(i as int, m as int),
                    decreases j - m,
                {
                    proof {
                        assert(chars@.subrange(i as int, m + 1) =~= chars@.subrange(
                            i as int,
                            m as int,
                        ).push(chars@[m as int]));
                    }
                    push_char(&mut out, chars[m]);
                    m = m + 1;
                }
            }
            i = j;
        }
    }
    proof {
        assert(input@.skip(input@.len() as int) =~= Seq::<char>::empty());
    }
    out
}

/// Replaces the user's home directory by a tilde, when one is known; the
/// path of the home directory is handed in by the embedding.
pub fn redact_home_dir(input: &str, home: &str) -> (r: String)
    ensures
        home@.len() > 0 ==> r@ == crate::text::spec_replace_all(input@, home@, "~"@),
        home@.len() == 0 ==> r@ == input@,
{
    crate::text::replace_all(input, home, "~")
}

} // verus!
