//! Parsing IP addresses from text.
//!
//! Tunnel backends report their interface configuration as environment
//! text; these parsers turn such text into the address values of this
//! crate, against the same grammar the redaction scanner recognizes.

use vstd::prelude::*;

use crate::net::IpAddress;
use crate::net::Ipv4Address;
use crate::net::Ipv6Address;
use crate::redact::check_hex_group;
use crate::redact::check_octet;
use crate::redact::find_dcolon;
use crate::redact::find_three_dots;
use crate::redact::is_hex_group;
use crate::redact::lemma_dcolon_pos;
use crate::redact::lemma_dots_exactly_unique;
use crate::redact::lemma_group_end;
use crate::redact::lemma_quad_dots;
use crate::redact::quad_split_ok;
use crate::redact::spec_dcolon_pos;
use crate::redact::spec_digits_value;
use crate::redact::spec_group_end;
use crate::text::chars_of;
use crate::text::is_digit;
use crate::text::is_hex_digit;

verus! {

/// The numeric value of one hexadecimal digit character.
pub open spec fn hex_digit_value(c: char) -> int {
    if is_digit(c) {
        c as u32 - 48
    } else if 97 <= c as u32 <= 102 {
        c as u32 - 87
    } else {
        c as u32 - 55
    }
}

/// The numeric value of a sequence of hexadecimal digits.
pub open spec fn spec_hex_value(t: Seq<char>) -> int
    decreases t.len(),
{
    if t.len() == 0 {
        0
    } else {
        spec_hex_value(t.take(t.len() - 1)) * 16 + hex_digit_value(t.last())
    }
}

/// Hexadecimal runs of at most four digits fit one address segment.
pub proof fn lemma_hex_value_bound(t: Seq<char>)
    requires
        forall|j: int| 0 <= j < t.len() ==> is_hex_digit(#[trigger] t[j]),
    ensures
        0 <= spec_hex_value(t),
        t.len() <= 1 ==> spec_hex_value(t) <= 0xf,
        t.len() <= 2 ==> spec_hex_value(t) <= 0xff,
        t.len() <= 3 ==> spec_hex_value(t) <= 0xfff,
        t.len() <= 4 ==> spec_hex_value(t) <= 0xffff,
    decreases t.len(),
{
    if t.len() > 0 {
        let head = t.take(t.len() - 1);
        assert(forall|j: int| 0 <= j < head.len() ==> head[j] == t[j] && is_hex_digit(
            #[trigger] head[j],
        ));
        lemma_hex_value_bound(head);
        assert(0 <= hex_digit_value(t.last()) <= 15);
    }
}

/// Computes the value of a range of hexadecimal digits.
pub fn hex_value(chars: &Vec<char>, start: usize, end: usize) -> (r: u16)
    requires
        start <= end <= chars@.len(),
        end - start <= 4,
        forall|j: int| start <= j < end ==> is_hex_digit(#[trigger] chars@[j]),
    ensures
        r == spec_hex_value(chars@.subrange(start as int, end as int)),
{
    let ghost t = chars@.subrange(start as int, end as int);
    proof {
        assert(forall|j: int| 0 <= j < t.len() ==> #[trigger] t[j] == chars@[start + j]);
    }
    let mut value: u16 = 0;
    let mut i: usize = start;
    while i < end
        invariant
            start <= i <= end <= chars@.len(),
            end - start <= 4,
            t == chars@.subrange(start as int, end as int),
            forall|j: int| 0 <= j < t.len() ==> is_hex_digit(#[trigger] t[j]),
            value == spec_hex_value(t.take(i - start)),
            value <= 0xffff,
        decreases end - i,
    {
        proof {
            let prefix = t.take(i + 1 - start);
            assert(prefix.take(prefix.len() - 1) =~= t.take(i - start));
            assert(prefix.last() == t[i - start]);
            assert(forall|j: int| 0 <= j < i - start ==> t.take(i - start)[j] == #[trigger] t[j]);
            lemma_hex_value_bound(t.take(i - start));
            assert(t.take(i - start).len() <= 3);
            assert(value <= 0xfff);
        }
        let c = chars[i];
        let v = c as u32;
        let digit: u16 = if 48 <= v && v <= 57 {
            (v - 48) as u16
        } else if 97 <= v && v <= 102 {
            (v - 87) as u16
        } else {
            (v - 55) as u16
        };
        value = value * 16 + digit;
        i = i + 1;
    }
    proof {
        assert(t.take(end - start) =~= t);
        if end - start <= 3 {
            lemma_hex_value_bound(t);
        }
    }
    value
}

/// The value of an IPv4 text: when the text splits as a dotted quad, the
/// address its four octets name.
pub open spec fn spec_parse_ipv4(t: Seq<char>) -> Option<Ipv4Address> {
    if exists|i: int, j: int, k: int| quad_split_ok(t, i, j, k, false) {
        let (i, j, k) = choose|i: int, j: int, k: int| quad_split_ok(t, i, j, k, false);
        Some(
            Ipv4Address {
                bits: (spec_digits_value(t.subrange(0, i)) * 0x1000000 + spec_digits_value(
                    t.subrange(i + 1, j),
                ) * 0x10000 + spec_digits_value(t.subrange(j + 1, k)) * 0x100 + spec_digits_value(
                    t.subrange(k + 1, t.len() as int),
                )) as u32,
            },
        )
    } else {
        None
    }
}

/// Parses an IPv4 address from text.
pub fn parse_ipv4(text: &str) -> (r: Option<Ipv4Address>)
    ensures
        match r {
            Some(ip) => spec_parse_ipv4(text@) == Some(ip),
            None => spec_parse_ipv4(text@) is None,
        },
{
    let chars = chars_of(text);
    let ghost t = text@;
    let end = chars.len();
    let (d1, d2, d3) = match find_three_dots(&chars, 0, end) {
        Some(d) => d,
        None => {
            proof {
                if exists|i: int, j: int, k: int| quad_split_ok(t, i, j, k, false) {
                    let (i, j, k) = choose|i: int, j: int, k: int|
                        quad_split_ok(t, i, j, k, false);
                    lemma_quad_dots(t, i, j, k, false);
                    assert(chars@.subrange(0, end as int) =~= t);
                }
            }
            return None;
        },
    };
    let ghost gi = d1 as int;
    let ghost gj = d2 as int;
    let ghost gk = d3 as int;
    proof {
        assert(chars@.subrange(0, end as int) =~= t);
        if exists|i: int, j: int, k: int| quad_split_ok(t, i, j, k, false) {
            let (i, j, k) = choose|i: int, j: int, k: int| quad_split_ok(t, i, j, k, false);
            lemma_quad_dots(t, i, j, k, false);
            lemma_dots_exactly_unique(t, i, j, k, gi, gj, gk);
            assert(quad_split_ok(t, gi, gj, gk, false));
        }
        assert(t.subrange(0, gi) =~= chars@.subrange(0, d1 as int));
        assert(t.subrange(gi + 1, gj) =~= chars@.subrange(d1 + 1, d2 as int));
        assert(t.subrange(gj + 1, gk) =~= chars@.subrange(d2 + 1, d3 as int));
        assert(t.subrange(gk + 1, t.len() as int) =~= chars@.subrange(d3 + 1, end as int));
    }
    if !check_octet(&chars, 0, d1) {
        return None;
    }
    if !check_octet(&chars, d1 + 1, d2) {
        return None;
    }
    if !check_octet(&chars, d2 + 1, d3) {
        return None;
    }
    if !check_octet(&chars, d3 + 1, end) {
        return None;
    }
    proof {
        assert(quad_split_ok(t, gi, gj, gk, false));
        let (ci, cj, ck) = choose|i: int, j: int, k: int| quad_split_ok(t, i, j, k, false);
        lemma_quad_dots(t, ci, cj, ck, false);
        lemma_quad_dots(t, gi, gj, gk, false);
        lemma_dots_exactly_unique(t, ci, cj, ck, gi, gj, gk);
    }
    let v0 = crate::redact::digits_value(&chars, 0, d1);
    let v1 = crate::redact::digits_value(&chars, d1 + 1, d2);
    let v2 = crate::redact::digits_value(&chars, d2 + 1, d3);
    let v3 = crate::redact::digits_value(&chars, d3 + 1, end);
    Some(Ipv4Address { bits: v0 * 0x1000000 + v1 * 0x10000 + v2 * 0x100 + v3 })
}

} // verus!

verus! {

/// The segment values of a colon-separated list of hexadecimal groups;
/// a malformed list has none.
pub open spec fn spec_group_values(t: Seq<char>) -> Option<Seq<u16>>
    decreases t.len(),
    via spec_group_values_decreases
{
    let n = spec_group_end(t) as int;
    if n == t.len() {
        if is_hex_group(t) {
            Some(seq![spec_hex_value(t) as u16])
        } else {
            None
        }
    } else {
        if is_hex_group(t.take(n)) {
            match spec_group_values(t.skip(n + 1)) {
                Some(values) => Some(seq![spec_hex_value(t.take(n)) as u16] + values),
                None => None,
            }
        } else {
            None
        }
    }
}

#[via_fn]
proof fn spec_group_values_decreases(t: Seq<char>) {
    lemma_group_end(t);
}

/// Computes the segment values of a colon-separated range.
#[verifier::rlimit(40)]
fn group_values(chars: &Vec<char>, start: usize, end: usize) -> (r: Option<Vec<u16>>)
    requires
        start <= end <= chars@.len(),
    ensures
        r matches Some(values) ==> spec_group_values(chars@.subrange(start as int, end as int))
            == Some(values@),
        r is None ==> spec_group_values(chars@.subrange(start as int, end as int)) is None,
{
    let ghost whole = chars@.subrange(start as int, end as int);
    let mut cur: usize = start;
    let mut values: Vec<u16> = Vec::new();
    loop
        invariant
            start <= cur <= end <= chars@.len(),
            whole == chars@.subrange(start as int, end as int),
            ({
                let rest_values = spec_group_values(chars@.subrange(cur as int, end as int));
                match spec_group_values(whole) {
                    Some(total) => rest_values matches Some(tail) && total =~= values@ + tail,
                    None => rest_values is None,
                }
            }),
        decreases end - cur,
    {
        let ghost rest = chars@.subrange(cur as int, end as int);
        proof {
            lemma_group_end(rest);
        }
        match crate::redact::find_char(chars, cur, end, ':') {
            None => {
                proof {
                    let u = spec_group_end(rest) as int;
                    if u < rest.len() {
                        assert(rest[u] == chars@[cur + u]);
                        assert(false);
                    }
                }
                if check_hex_group(chars, cur, end) {
                    proof {
                        assert forall|j: int| cur <= j < end implies is_hex_digit(
                            #[trigger] chars@[j],
                        ) by {
                            assert(chars@.subrange(cur as int, end as int)[j - cur] == chars@[j]);
                        }
                    }
                    let value = hex_value(chars, cur, end);
                    let ghost pre = values@;
                    values.push(value);
                    proof {
                        assert(values@ =~= pre.push(value));
                        assert(pre + seq![value] =~= pre.push(value));
                    }
                    return Some(values);
                }
                return None;
            },
            Some(n) => {
                proof {
                    let u = spec_group_end(rest) as int;
                    assert(rest[n - cur] == chars@[n as int]);
                    if u < n - cur {
                        assert(rest[u] == chars@[cur + u]);
                        assert(false);
                    }
                    if u > n - cur {
                        assert(rest[n - cur] != ':');
                        assert(false);
                    }
                    assert(rest.take(n - cur) =~= chars@.subrange(cur as int, n as int));
                    assert(rest.skip(n - cur + 1) =~= chars@.subrange(n + 1, end as int));
                }
                if !check_hex_group(chars, cur, n) {
                    return None;
                }
                proof {
                    assert forall|j: int| cur <= j < n implies is_hex_digit(
                        #[trigger] chars@[j],
                    ) by {
                        assert(chars@.subrange(cur as int, n as int)[j - cur] == chars@[j]);
                    }
                }
                let value = hex_value(chars, cur, n);
                let ghost pre = values@;
                values.push(value);
                proof {
                    assert(values@ =~= pre.push(value));
                    assert(forall|tail: Seq<u16>|
                        pre + (seq![value] + tail) =~= (#[trigger] (pre.push(value) + tail)));
                }
                cur = n + 1;
            },
        }
    }
}

/// The value of an IPv6 text: eight colon-separated hexadecimal groups,
/// or an elision marked by one double colon standing for the missing
/// zero groups.
pub open spec fn spec_parse_ipv6(t: Seq<char>) -> Option<Ipv6Address> {
    let p = spec_dcolon_pos(t) as int;
    if p + 2 <= t.len() {
        let left = t.take(p);
        let right = t.skip(p + 2);
        let left_values: Option<Seq<u16>> = if left.len() == 0 {
            Some(Seq::empty())
        } else {
            spec_group_values(left)
        };
        let right_values: Option<Seq<u16>> = if right.len() == 0 {
            Some(Seq::empty())
        } else {
            spec_group_values(right)
        };
        match (left_values, right_values) {
            (Some(lv), Some(rv)) => if lv.len() + rv.len() <= 7 {
                Some(
                    Ipv6Address::spec_from_segments(
                        lv + Seq::new((8 - lv.len() - rv.len()) as nat, |i: int| 0u16) + rv,
                    ),
                )
            } else {
                None
            },
            _ => None,
        }
    } else {
        match spec_group_values(t) {
            Some(values) => if values.len() == 8 {
                Some(Ipv6Address::spec_from_segments(values))
            } else {
                None
            },
            None => None,
        }
    }
}

/// Builds the address from its eight segment values.
fn address_of_segments(segments: &Vec<u16>) -> (r: Ipv6Address)
    requires
        segments@.len() == 8,
    ensures
        r == Ipv6Address::spec_from_segments(segments@),
{
    let r = Ipv6Address::new(
        segments[0],
        segments[1],
        segments[2],
        segments[3],
        segments[4],
        segments[5],
        segments[6],
        segments[7],
    );
    proof {
        assert(seq![
            segments@[0],
            segments@[1],
            segments@[2],
            segments@[3],
            segments@[4],
            segments@[5],
            segments@[6],
            segments@[7],
        ] =~= segments@);
    }
    r
}

/// Parses an IPv6 address from text.
#[verifier::rlimit(60)]
pub fn parse_ipv6(text: &str) -> (r: Option<Ipv6Address>)
    ensures
        match r {
            Some(ip) => spec_parse_ipv6(text@) == Some(ip),
            None => spec_parse_ipv6(text@) is None,
        },
{
    let chars = chars_of(text);
    let ghost t = text@;
    let end = chars.len();
    proof {
        assert(chars@.subrange(0, end as int) =~= t);
        lemma_dcolon_pos(t);
    }
    match find_dcolon(&chars, 0, end) {
        Some(p) => {
            proof {
                let u = spec_dcolon_pos(t) as int;
                if u < p {
                    assert(t[u] == ':' && t[u + 1] == ':');
                    assert(chars@[u] == ':' && chars@[u + 1] == ':');
                    assert(false);
                }
                if u > p {
                    assert(!(t[p as int] == ':' && t[p as int + 1] == ':'));
                    assert(false);
                }
                assert(t.take(p as int) =~= chars@.subrange(0, p as int));
                assert(t.skip(p + 2) =~= chars@.subrange(p + 2, end as int));
            }
            let left_values: Option<Vec<u16>> = if p == 0 {
                Some(Vec::new())
            } else {
                group_values(&chars, 0, p)
            };
            let right_values: Option<Vec<u16>> = if p + 2 == end {
                Some(Vec::new())
            } else {
                group_values(&chars, p + 2, end)
            };
            match (left_values, right_values) {
                (Some(lv), Some(rv)) => {
                    if lv.len() <= 7 && rv.len() <= 7 && lv.len() + rv.len() <= 7 {
                        let mut segments: Vec<u16> = Vec::new();
                        let mut a: usize = 0;
                        while a < lv.len()
                            invariant
                                a <= lv@.len(),
                                segments@ =~= lv@.take(a as int),
                            decreases lv.len() - a,
                        {
                            segments.push(lv[a]);
                            a = a + 1;
                        }
                        proof {
                            assert(lv@.take(lv@.len() as int) =~= lv@);
                        }
                        let zero_count = 8 - lv.len() - rv.len();
                        let mut z: usize = 0;
                        while z < zero_count
                            invariant
                                z <= zero_count,
                                zero_count == 8 - lv@.len() - rv@.len(),
                                segments@ =~= lv@ + Seq::new(z as nat, |i: int| 0u16),
                            decreases zero_count - z,
                        {
                            proof {
                                assert((lv@ + Seq::new((z + 1) as nat, |i: int| 0u16)) =~= (lv@
                                    + Seq::new(z as nat, |i: int| 0u16)).push(0u16));
                            }
                            segments.push(0);
                            z = z + 1;
                        }
                        let mut b: usize = 0;
                        let ghost zeros = Seq::new((8 - lv@.len() - rv@.len()) as nat, |i: int| 0u16);
                        while b < rv.len()
                            invariant
                                b <= rv@.len(),
                                zeros == Seq::new((8 - lv@.len() - rv@.len()) as nat, |i: int| 0u16),
                                lv@.len() + rv@.len() <= 7,
                                segments@ =~= lv@ + zeros + rv@.take(b as int),
                            decreases rv.len() - b,
                        {
                            proof {
                                assert((lv@ + zeros + rv@.take(b as int + 1)) =~= (lv@ + zeros
                                    + rv@.take(b as int)).push(rv@[b as int]));
                            }
                            segments.push(rv[b]);
                            b = b + 1;
                        }
                        proof {
                            assert(rv@.take(rv@.len() as int) =~= rv@);
                            assert(segments@.len() == 8);
                        }
                        Some(address_of_segments(&segments))
                    } else {
                        None
                    }
                },
                _ => None,
            }
        },
        None => {
            proof {
                let u = spec_dcolon_pos(t) as int;
                if u + 2 <= t.len() {
                    assert(t[u] == ':' && t[u + 1] == ':');
                    assert(chars@[u] == ':' && chars@[u + 1] == ':');
                    assert(false);
                }
            }
            match group_values(&chars, 0, end) {
                Some(values) => {
                    if values.len() == 8 {
                        Some(address_of_segments(&values))
                    } else {
                        None
                    }
                },
                None => None,
            }
        },
    }
}

/// The value of an IP text of either family.
pub open spec fn spec_parse_ip(t: Seq<char>) -> Option<IpAddress> {
    match spec_parse_ipv4(t) {
        Some(ip) => Some(IpAddress::V4(ip)),
        None => match spec_parse_ipv6(t) {
            Some(ip) => Some(IpAddress::V6(ip)),
            None => None,
        },
    }
}

/// Parses an IP address of either family from text.
pub fn parse_ip(text: &str) -> (r: Option<IpAddress>)
    ensures
        match r {
            Some(ip) => spec_parse_ip(text@) == Some(ip),
            None => spec_parse_ip(text@) is None,
        },
{
    match parse_ipv4(text) {
        Some(ip) => Some(IpAddress::V4(ip)),
        None => match parse_ipv6(text) {
            Some(ip) => Some(IpAddress::V6(ip)),
            None => None,
        },
    }
}

} // verus!
