//! The textual form of IP addresses: dotted-decimal IPv4 literals, and IPv6
//! literals in groups of hexadecimal digits, with `::` for a run of zero
//! groups and with an IPv4 literal allowed in place of the last two groups.
//!
//! The grammar is stated over the bytes of the text. A literal is cut into
//! fields at its separators, and each field is read as a number.

use vstd::prelude::*;
use vstd::slice::slice_subrange;
use vstd::string::StringSliceAdditionalSpecFns;

verus! {

/// The byte `.`, which separates the octets of an IPv4 literal.
pub const DOT: u8 = 0x2e;

/// The byte `:`, which separates the groups of an IPv6 literal.
pub const COLON: u8 = 0x3a;

/// An IP address, held as the number that its bits spell in network order.
#[derive(Clone, Copy, Debug, PartialEq, Eq, Structural)]
pub enum IpAddress {
    /// A 32-bit IPv4 address.
    V4(u32),
    /// A 128-bit IPv6 address.
    V6(u128),
}

/// The fields of `s` when it is cut at every byte equal to `sep`. There is
/// always one field more than there are separators, and a field may be empty.
pub open spec fn fields(s: Seq<u8>, sep: u8) -> Seq<Seq<u8>>
    decreases s.len(),
{
    if s.len() == 0 {
        seq![Seq::<u8>::empty()]
    } else {
        let before = fields(s.drop_last(), sep);
        if s.last() == sep {
            before.push(Seq::<u8>::empty())
        } else {
            before.update(before.len() - 1, before.last().push(s.last()))
        }
    }
}

/// Whether `b` is one of the bytes `0` to `9`.
pub open spec fn is_decimal_digit(b: u8) -> bool {
    0x30 <= b <= 0x39
}

/// The number that the decimal digits of `t` spell.
pub open spec fn decimal_value(t: Seq<u8>) -> nat
    decreases t.len(),
{
    if t.len() == 0 {
        0
    } else {
        decimal_value(t.drop_last()) * 10 + (t.last() - 0x30) as nat
    }
}

/// Whether `t` is one octet of an IPv4 literal: one to three decimal digits,
/// without a leading zero unless it is the single digit `0`, and at most 255.
pub open spec fn is_octet_text(t: Seq<u8>) -> bool {
    &&& 1 <= t.len() <= 3
    &&& forall|k: int| 0 <= k < t.len() ==> is_decimal_digit(#[trigger] t[k])
    &&& (t.len() > 1 ==> t[0] != 0x30)
    &&& decimal_value(t) <= 255
}

/// The octet that `t` spells, if it spells one.
pub open spec fn octet_value(t: Seq<u8>) -> Option<u8> {
    if is_octet_text(t) {
        Some(decimal_value(t) as u8)
    } else {
        None
    }
}

/// The address that `s` spells as an IPv4 literal: four octets separated by
/// dots, the first being the most significant.
pub open spec fn ipv4_value(s: Seq<u8>) -> Option<u32> {
    let f = fields(s, DOT);
    if f.len() == 4 && is_octet_text(f[0]) && is_octet_text(f[1]) && is_octet_text(f[2])
        && is_octet_text(f[3]) {
        Some(
            (decimal_value(f[0]) * 0x100_0000 + decimal_value(f[1]) * 0x1_0000 + decimal_value(
                f[2],
            ) * 0x100 + decimal_value(f[3])) as u32,
        )
    } else {
        None
    }
}

/// The value of `b` as a hexadecimal digit, in either case.
pub open spec fn hex_digit(b: u8) -> Option<nat> {
    if 0x30 <= b <= 0x39 {
        Some((b - 0x30) as nat)
    } else if 0x41 <= b <= 0x46 {
        Some((b - 0x41 + 10) as nat)
    } else if 0x61 <= b <= 0x66 {
        Some((b - 0x61 + 10) as nat)
    } else {
        None
    }
}

/// The number that the hexadecimal digits of `t` spell.
pub open spec fn hex_value(t: Seq<u8>) -> nat
    decreases t.len(),
{
    if t.len() == 0 {
        0
    } else {
        hex_value(t.drop_last()) * 16 + match hex_digit(t.last()) {
            Some(d) => d,
            None => 0,
        }
    }
}

/// Whether `t` is one group of an IPv6 literal: one to four hexadecimal
/// digits.
pub open spec fn is_group_text(t: Seq<u8>) -> bool {
    &&& 1 <= t.len() <= 4
    &&& forall|k: int| 0 <= k < t.len() ==> hex_digit(#[trigger] t[k]) is Some
}

/// The 16 bits that `t` spells, if it is a group.
pub open spec fn group_value(t: Seq<u8>) -> Option<u16> {
    if is_group_text(t) {
        Some(hex_value(t) as u16)
    } else {
        None
    }
}

/// The groups that the fields `f` spell, if each of them is a group.
pub open spec fn hex_groups(f: Seq<Seq<u8>>) -> Option<Seq<u16>>
    decreases f.len(),
{
    if f.len() == 0 {
        Some(Seq::empty())
    } else {
        match (hex_groups(f.drop_last()), group_value(f.last())) {
            (Some(groups), Some(last)) => Some(groups.push(last)),
            _ => None,
        }
    }
}

/// The groups that `s` spells as a list of groups separated by single
/// colons. The empty text is the empty list. With `quad`, the last field may
/// be an IPv4 literal instead, which stands for two groups.
pub open spec fn group_list(s: Seq<u8>, quad: bool) -> Option<Seq<u16>> {
    if s.len() == 0 {
        Some(Seq::empty())
    } else {
        let f = fields(s, COLON);
        match hex_groups(f) {
            Some(groups) => Some(groups),
            None => if quad {
                match (hex_groups(f.drop_last()), ipv4_value(f.last())) {
                    (Some(groups), Some(v4)) => Some(
                        groups.push((v4 / 0x1_0000) as u16).push((v4 % 0x1_0000) as u16),
                    ),
                    _ => None,
                }
            } else {
                None
            },
        }
    }
}

/// The first index from `from` on at which `s` holds two colons in a row.
pub open spec fn double_colon(s: Seq<u8>, from: int) -> Option<int>
    decreases s.len() - from,
{
    if from < 0 || from + 1 >= s.len() {
        None
    } else if s[from] == COLON && s[from + 1] == COLON {
        Some(from)
    } else {
        double_colon(s, from + 1)
    }
}

/// A run of `n` groups that are zero.
pub open spec fn zero_groups(n: int) -> Seq<u16> {
    Seq::new(n as nat, |i: int| 0u16)
}

/// The eight groups that `s` spells as an IPv6 literal.
///
/// Without `::` the text is a list of eight groups. With it, the lists
/// before and after the first `::` hold at most seven groups together, and
/// the `::` stands for the zero groups that are missing between them. An IPv4
/// literal may end the text, and only there.
pub open spec fn ipv6_groups(s: Seq<u8>) -> Option<Seq<u16>> {
    match double_colon(s, 0) {
        None => match group_list(s, true) {
            Some(groups) => if groups.len() == 8 {
                Some(groups)
            } else {
                None
            },
            None => None,
        },
        Some(at) => match (
            group_list(s.subrange(0, at), false),
            group_list(s.subrange(at + 2, s.len() as int), true),
        ) {
            (Some(head), Some(tail)) => if head.len() + tail.len() <= 7 {
                Some(head + zero_groups(8 - head.len() - tail.len()) + tail)
            } else {
                None
            },
            _ => None,
        },
    }
}

/// The number that groups spell, the first being the most significant.
pub open spec fn groups_value(groups: Seq<u16>) -> nat
    decreases groups.len(),
{
    if groups.len() == 0 {
        0
    } else {
        groups_value(groups.drop_last()) * 0x1_0000 + groups.last() as nat
    }
}

/// The address that `s` spells as an IPv6 literal.
pub open spec fn ipv6_value(s: Seq<u8>) -> Option<u128> {
    match ipv6_groups(s) {
        Some(groups) => Some(groups_value(groups) as u128),
        None => None,
    }
}

/// The address that `s` spells, if it is an IP literal.
pub open spec fn ip_address_value(s: Seq<u8>) -> Option<IpAddress> {
    match ipv4_value(s) {
        Some(v) => Some(IpAddress::V4(v)),
        None => match ipv6_value(s) {
            Some(v) => Some(IpAddress::V6(v)),
            None => None,
        },
    }
}

/// Whether `bounds` gives, for each field of `s` in order, the index of its
/// first byte and the index just past its last.
pub open spec fn bounds_match(s: Seq<u8>, sep: u8, bounds: Seq<(usize, usize)>) -> bool {
    &&& bounds.len() == fields(s, sep).len()
    &&& forall|k: int|
        0 <= k < bounds.len() ==> {
            &&& (#[trigger] bounds[k]).0 <= bounds[k].1 <= s.len()
            &&& s.subrange(bounds[k].0 as int, bounds[k].1 as int) == fields(s, sep)[k]
        }
}

/// Cuts `s` at every `sep` and returns, for each field in order, the index
/// of its first byte and the index just past its last.
pub fn field_bounds(s: &[u8], sep: u8) -> (bounds: Vec<(usize, usize)>)
    ensures
        bounds_match(s@, sep, bounds@),
{
    let mut bounds: Vec<(usize, usize)> = Vec::new();
    let mut start: usize = 0;
    let mut i: usize = 0;
    while i < s.len()
        invariant
            start <= i <= s.len(),
            bounds.len() + 1 == fields(s@.take(i as int), sep).len(),
            fields(s@.take(i as int), sep).last() == s@.subrange(start as int, i as int),
            forall|k: int|
                0 <= k < bounds.len() ==> {
                    &&& (#[trigger] bounds[k]).0 <= bounds[k].1 <= i
                    &&& s@.subrange(bounds[k].0 as int, bounds[k].1 as int) == fields(
                        s@.take(i as int),
                        sep,
                    )[k]
                },
        decreases s.len() - i,
    {
        assert(s@.take(i + 1).drop_last() =~= s@.take(i as int));
        if s[i] == sep {
            bounds.push((start, i));
            start = i + 1;
        }
        i = i + 1;
    }
    assert(s@.take(s.len() as int) =~= s@);
    bounds.push((start, i));
    bounds
}

/// Reads the bytes of `s` from `lo` up to `hi` as one octet of an IPv4
/// literal.
pub fn octet_at(s: &[u8], lo: usize, hi: usize) -> (r: Option<u8>)
    requires
        lo <= hi <= s.len(),
    ensures
        r == octet_value(s@.subrange(lo as int, hi as int)),
{
    let ghost t = s@.subrange(lo as int, hi as int);
    let len: usize = hi - lo;
    if len == 0 || len > 3 {
        return None;
    }
    if len > 1 && s[lo] == 0x30 {
        return None;
    }
    let mut acc: u16 = 0;
    let mut j: usize = 0;
    while j < len
        invariant
            lo + len == hi <= s.len(),
            len <= 3,
            j <= len,
            t == s@.subrange(lo as int, hi as int),
            acc as nat == decimal_value(t.take(j as int)),
            forall|k: int| 0 <= k < j ==> is_decimal_digit(#[trigger] t[k]),
            j == 0 ==> acc == 0,
            j == 1 ==> acc <= 9,
            j == 2 ==> acc <= 99,
            j == 3 ==> acc <= 999,
        decreases len - j,
    {
        let b: u8 = s[lo + j];
        if b < 0x30 || b > 0x39 {
            assert(!is_decimal_digit(t[j as int]));
            return None;
        }
        assert(t.take(j + 1).drop_last() =~= t.take(j as int));
        acc = acc * 10 + (b - 0x30) as u16;
        j = j + 1;
    }
    assert(t.take(len as int) =~= t);
    if acc > 255 {
        None
    } else {
        Some(acc as u8)
    }
}

/// Reads `s` as a dotted-decimal IPv4 literal.
pub fn parse_ipv4(s: &[u8]) -> (r: Option<u32>)
    ensures
        r == ipv4_value(s@),
{
    let bounds = field_bounds(s, DOT);
    if bounds.len() != 4 {
        return None;
    }
    let mut value: u32 = 0;
    let mut k: usize = 0;
    let ghost f = fields(s@, DOT);
    while k < 4
        invariant
            k <= 4,
            bounds.len() == 4,
            f == fields(s@, DOT),
            bounds_match(s@, DOT, bounds@),
            forall|m: int| 0 <= m < k ==> is_octet_text(#[trigger] f[m]),
            k == 0 ==> value == 0,
            k == 1 ==> value == decimal_value(f[0]),
            k == 2 ==> value == decimal_value(f[0]) * 0x100 + decimal_value(f[1]),
            k == 3 ==> value == decimal_value(f[0]) * 0x1_0000 + decimal_value(f[1]) * 0x100
                + decimal_value(f[2]),
            k == 4 ==> value == decimal_value(f[0]) * 0x100_0000 + decimal_value(f[1]) * 0x1_0000
                + decimal_value(f[2]) * 0x100 + decimal_value(f[3]),
        decreases 4 - k,
    {
        let (lo, hi) = bounds[k];
        match octet_at(s, lo, hi) {
            None => {
                return None;
            },
            Some(octet) => {
                value = value * 0x100 + octet as u32;
            },
        }
        k = k + 1;
    }
    Some(value)
}

/// The value of `b` as a hexadecimal digit.
pub fn hex_digit_of(b: u8) -> (r: Option<u8>)
    ensures
        match hex_digit(b) {
            Some(d) => r == Some(d as u8) && d < 16,
            None => r is None,
        },
{
    if 0x30 <= b && b <= 0x39 {
        Some(b - 0x30)
    } else if 0x41 <= b && b <= 0x46 {
        Some(b - 0x41 + 10)
    } else if 0x61 <= b && b <= 0x66 {
        Some(b - 0x61 + 10)
    } else {
        None
    }
}

/// Reads the bytes of `s` from `lo` up to `hi` as one group of an IPv6
/// literal.
pub fn group_at(s: &[u8], lo: usize, hi: usize) -> (r: Option<u16>)
    requires
        lo <= hi <= s.len(),
    ensures
        r == group_value(s@.subrange(lo as int, hi as int)),
{
    let ghost t = s@.subrange(lo as int, hi as int);
    let len: usize = hi - lo;
    if len == 0 || len > 4 {
        return None;
    }
    let mut acc: u32 = 0;
    let mut j: usize = 0;
    while j < len
        invariant
            lo + len == hi <= s.len(),
            len <= 4,
            j <= len,
            t == s@.subrange(lo as int, hi as int),
            acc as nat == hex_value(t.take(j as int)),
            forall|k: int| 0 <= k < j ==> hex_digit(#[trigger] t[k]) is Some,
            j == 0 ==> acc == 0,
            j == 1 ==> acc <= 0xf,
            j == 2 ==> acc <= 0xff,
            j == 3 ==> acc <= 0xfff,
            j == 4 ==> acc <= 0xffff,
        decreases len - j,
    {
        let b: u8 = s[lo + j];
        assert(t.take(j + 1).drop_last() =~= t.take(j as int));
        match hex_digit_of(b) {
            None => {
                return None;
            },
            Some(d) => {
                acc = acc * 16 + d as u32;
            },
        }
        j = j + 1;
    }
    assert(t.take(len as int) =~= t);
    Some(acc as u16)
}

/// A list of fields that starts with fields which are not all groups is not
/// a list of groups.
pub proof fn lemma_hex_groups_prefix(f: Seq<Seq<u8>>, k: int)
    requires
        0 <= k <= f.len(),
        hex_groups(f.take(k)) is None,
    ensures
        hex_groups(f) is None,
    decreases f.len(),
{
    if k == f.len() {
        assert(f.take(k) =~= f);
    } else {
        assert(f.drop_last().take(k) =~= f.take(k));
        lemma_hex_groups_prefix(f.drop_last(), k);
    }
}

/// Reads `s` as a list of groups separated by single colons, the last of
/// which may be an IPv4 literal if `quad` is set.
pub fn parse_group_list(s: &[u8], quad: bool) -> (r: Option<Vec<u16>>)
    ensures
        match group_list(s@, quad) {
            Some(groups) => r matches Some(read) && read@ == groups,
            None => r is None,
        },
{
    let mut groups: Vec<u16> = Vec::new();
    if s.len() == 0 {
        return Some(groups);
    }
    let bounds = field_bounds(s, COLON);
    let n: usize = bounds.len();
    let ghost f = fields(s@, COLON);
    let mut k: usize = 0;
    while k < n
        invariant
            k <= n,
            n == bounds.len(),
            n == f.len(),
            s.len() > 0,
            f == fields(s@, COLON),
            bounds_match(s@, COLON, bounds@),
            hex_groups(f.take(k as int)) == Some(groups@),
        decreases n - k,
    {
        let (lo, hi) = bounds[k];
        assert(f.take(k + 1).drop_last() =~= f.take(k as int));
        match group_at(s, lo, hi) {
            Some(group) => {
                groups.push(group);
            },
            None => {
                proof {
                    lemma_hex_groups_prefix(f, k + 1);
                }
                if quad && k + 1 == n {
                    let last = slice_subrange(s, lo, hi);
                    match parse_ipv4(last) {
                        Some(v4) => {
                            groups.push((v4 / 0x1_0000) as u16);
                            groups.push((v4 % 0x1_0000) as u16);
                            return Some(groups);
                        },
                        None => {
                            return None;
                        },
                    }
                } else {
                    proof {
                        if k + 1 < n {
                            lemma_hex_groups_prefix(f.drop_last(), k + 1);
                        }
                    }
                    return None;
                }
            },
        }
        k = k + 1;
    }
    assert(f.take(n as int) =~= f);
    Some(groups)
}

/// Finds the first place at which `s` holds two colons in a row.
pub fn find_double_colon(s: &[u8]) -> (r: Option<usize>)
    ensures
        match double_colon(s@, 0) {
            Some(at) => r == Some(at as usize) && 0 <= at && at + 2 <= s.len(),
            None => r is None,
        },
{
    if s.len() < 2 {
        return None;
    }
    let last: usize = s.len() - 1;
    let mut i: usize = 0;
    while i < last
        invariant
            i <= last,
            last + 1 == s.len(),
            double_colon(s@, 0) == double_colon(s@, i as int),
        decreases last - i,
    {
        if s[i] == COLON && s[i + 1] == COLON {
            return Some(i);
        }
        i = i + 1;
    }
    None
}

/// The number that eight groups spell.
pub fn pack_groups(groups: &Vec<u16>) -> (r: u128)
    requires
        groups.len() == 8,
    ensures
        r == groups_value(groups@),
{
    let mut value: u128 = 0;
    let mut j: usize = 0;
    while j < 8
        invariant
            j <= 8,
            groups.len() == 8,
            value as nat == groups_value(groups@.take(j as int)),
            j == 0 ==> value == 0,
            j == 1 ==> value <= 0xffff,
            j == 2 ==> value <= 0xffff_ffff,
            j == 3 ==> value <= 0xffff_ffff_ffff,
            j == 4 ==> value <= 0xffff_ffff_ffff_ffff,
            j == 5 ==> value <= 0xffff_ffff_ffff_ffff_ffff,
            j == 6 ==> value <= 0xffff_ffff_ffff_ffff_ffff_ffff,
            j == 7 ==> value <= 0xffff_ffff_ffff_ffff_ffff_ffff_ffff,
        decreases 8 - j,
    {
        assert(groups@.take(j + 1).drop_last() =~= groups@.take(j as int));
        value = value * 0x1_0000 + groups[j] as u128;
        j = j + 1;
    }
    assert(groups@.take(8) =~= groups@);
    value
}

/// Reads `s` as an IPv6 literal.
pub fn parse_ipv6(s: &[u8]) -> (r: Option<u128>)
    ensures
        r == ipv6_value(s@),
{
    match find_double_colon(s) {
        None => match parse_group_list(s, true) {
            Some(groups) => {
                if groups.len() == 8 {
                    Some(pack_groups(&groups))
                } else {
                    None
                }
            },
            None => None,
        },
        Some(at) => {
            let head = match parse_group_list(slice_subrange(s, 0, at), false) {
                Some(head) => head,
                None => {
                    return None;
                },
            };
            let tail = match parse_group_list(slice_subrange(s, at + 2, s.len()), true) {
                Some(tail) => tail,
                None => {
                    return None;
                },
            };
            if head.len() > 7 || tail.len() > 7 || head.len() + tail.len() > 7 {
                return None;
            }
            let missing: usize = 8 - head.len() - tail.len();
            let ghost before = head@;
            let mut groups = head;
            let mut j: usize = 0;
            while j < missing
                invariant
                    j <= missing,
                    groups@ == before + zero_groups(j as int),
                decreases missing - j,
            {
                groups.push(0);
                j = j + 1;
            }
            let mut j: usize = 0;
            while j < tail.len()
                invariant
                    j <= tail.len(),
                    groups@ == before + zero_groups(missing as int) + tail@.take(j as int),
                decreases tail.len() - j,
            {
                groups.push(tail[j]);
                j = j + 1;
            }
            assert(tail@.take(tail.len() as int) =~= tail@);
            Some(pack_groups(&groups))
        },
    }
}

/// Reads `text` as an IP literal.
pub fn parse_ip_address(text: &str) -> (r: Option<IpAddress>)
    ensures
        r == ip_address_value(text.spec_bytes()),
{
    let bytes = text.as_bytes();
    match parse_ipv4(bytes) {
        Some(v) => Some(IpAddress::V4(v)),
        None => match parse_ipv6(bytes) {
            Some(v) => Some(IpAddress::V6(v)),
            None => None,
        },
    }
}

} // verus!
