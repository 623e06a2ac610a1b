//! IP addresses as plain values, and their canonical text.
//!
//! An IPv4 address is written as four decimal octets separated by dots. An
//! IPv6 address is written as RFC 5952 asks: eight groups in lower-case
//! hexadecimal without leading zeros, separated by colons, with the longest
//! run of two or more zero groups (the first one, where several are equally
//! long) replaced by `::`; an IPv4-mapped address shows its last 32 bits in
//! dotted decimal.

use vstd::prelude::*;
use crate::numeral::{numeral, push_char, push_numeral};

verus! {

/// An IP address of either version.
#[derive(Clone, Copy, Debug, PartialEq, Eq, Hash)]
pub enum IpAddress {
    /// The four octets of an IPv4 address, in network order.
    V4([u8; 4]),
    /// The eight 16-bit groups of an IPv6 address, in network order.
    V6([u16; 8]),
}

/// Four octets in dotted decimal.
pub open spec fn ipv4_text(octets: Seq<u8>) -> Seq<char>
    recommends
        octets.len() == 4,
{
    numeral(octets[0] as nat, 10) + seq!['.'] + numeral(octets[1] as nat, 10) + seq!['.']
        + numeral(octets[2] as nat, 10) + seq!['.'] + numeral(octets[3] as nat, 10)
}

/// Groups in hexadecimal, with a colon between neighbours.
pub open spec fn groups_text(groups: Seq<u16>) -> Seq<char>
    decreases groups.len(),
{
    if groups.len() == 0 {
        Seq::empty()
    } else if groups.len() == 1 {
        numeral(groups[0] as nat, 16)
    } else {
        groups_text(groups.drop_last()) + seq![':'] + numeral(groups.last() as nat, 16)
    }
}

/// The `len` groups from `start` on exist, are at least one, and are all
/// zero.
pub open spec fn is_zero_run(groups: Seq<u16>, start: int, len: int) -> bool {
    &&& 0 <= start
    &&& 0 < len
    &&& start + len <= groups.len()
    &&& forall|k: int| start <= k < start + len ==> groups[k] == 0
}

/// The run that `::` replaces: a run of at least two zero groups that no
/// other run exceeds in length, and the first among those of its length.
pub open spec fn is_elided_run(groups: Seq<u16>, start: int, len: int) -> bool {
    &&& is_zero_run(groups, start, len)
    &&& len >= 2
    &&& forall|s: int, l: int| #[trigger]
        is_zero_run(groups, s, l) ==> l < len || (l == len && start <= s)
}

/// The address is an IPv4-mapped one: `::ffff:0:0/96`.
pub open spec fn is_ipv4_mapped(groups: Seq<u16>) -> bool {
    &&& groups.len() == 8
    &&& forall|k: int| 0 <= k < 5 ==> groups[k] == 0
    &&& groups[5] == 0xffff
}

/// The IPv4 address in the last two groups.
pub open spec fn embedded_ipv4(groups: Seq<u16>) -> Seq<u8>
    recommends
        groups.len() == 8,
{
    seq![
        (groups[6] / 256) as u8,
        (groups[6] % 256) as u8,
        (groups[7] / 256) as u8,
        (groups[7] % 256) as u8,
    ]
}

/// Eight groups in the canonical text of an IPv6 address.
pub open spec fn ipv6_text(groups: Seq<u16>) -> Seq<char>
    recommends
        groups.len() == 8,
{
    if is_ipv4_mapped(groups) {
        seq![':', ':', 'f', 'f', 'f', 'f', ':'] + ipv4_text(embedded_ipv4(groups))
    } else if exists|s: int, l: int| is_elided_run(groups, s, l) {
        let (start, len) = choose|s: int, l: int| is_elided_run(groups, s, l);
        groups_text(groups.subrange(0, start)) + seq![':', ':'] + groups_text(
            groups.subrange(start + len, groups.len() as int),
        )
    } else {
        groups_text(groups)
    }
}

impl IpAddress {
    /// The canonical text of the address.
    pub open spec fn text(self) -> Seq<char> {
        match self {
            IpAddress::V4(octets) => ipv4_text(octets@),
            IpAddress::V6(groups) => ipv6_text(groups@),
        }
    }

    /// Appends the canonical text of the address to `text`.
    pub fn push_text(&self, text: &mut String)
        ensures
            final(text)@ == old(text)@ + self.text(),
    {
        match self {
            IpAddress::V4(octets) => push_ipv4(text, octets),
            IpAddress::V6(groups) => push_ipv6(text, groups),
        }
    }
}

/// Groups have at most one elided run.
pub proof fn lemma_elided_run_is_unique(groups: Seq<u16>, s1: int, l1: int, s2: int, l2: int)
    requires
        is_elided_run(groups, s1, l1),
        is_elided_run(groups, s2, l2),
    ensures
        s1 == s2,
        l1 == l2,
{
}

/// The length of the zero run that ends just before position `end`.
spec fn zeros_before(groups: Seq<u16>, end: int) -> int
    decreases end,
{
    if end <= 0 || end > groups.len() || groups[end - 1] != 0 {
        0
    } else {
        zeros_before(groups, end - 1) + 1
    }
}

/// Start and length of the first of the longest zero runs among the first
/// `end` groups; the length is zero where none of them is zero.
spec fn first_longest_run(groups: Seq<u16>, end: int) -> (int, int)
    decreases end,
{
    if end <= 0 {
        (0, 0)
    } else {
        let (start, len) = first_longest_run(groups, end - 1);
        let here = zeros_before(groups, end);
        if here > len {
            (end - here, here)
        } else {
            (start, len)
        }
    }
}

proof fn lemma_first_longest_run(groups: Seq<u16>, end: int)
    requires
        0 <= end <= groups.len(),
    ensures
        ({
            let (start, len) = first_longest_run(groups, end);
            let here = zeros_before(groups, end);
            &&& 0 <= here <= len
            &&& here <= end
            &&& forall|k: int| end - here <= k < end ==> groups[k] == 0
            &&& here < end ==> groups[end - here - 1] != 0
            &&& len > 0 ==> is_zero_run(groups, start, len) && start + len <= end
            &&& forall|s: int, l: int| #[trigger]
                is_zero_run(groups, s, l) && s + l <= end ==> l < len || (l == len && start <= s)
        }),
    decreases end,
{
    if end > 0 {
        lemma_first_longest_run(groups, end - 1);
    }
}

/// Wherever two neighbouring groups are zero, there is a run to elide.
pub proof fn law_zero_pair_is_elided(groups: Seq<u16>, start: int, len: int)
    requires
        is_zero_run(groups, start, len),
        len >= 2,
    ensures
        exists|s: int, l: int| is_elided_run(groups, s, l),
{
    lemma_first_longest_run(groups, groups.len() as int);
    let (s, l) = first_longest_run(groups, groups.len() as int);
    assert(is_elided_run(groups, s, l));
}

fn push_ipv4(text: &mut String, octets: &[u8; 4])
    ensures
        final(text)@ == old(text)@ + ipv4_text(octets@),
{
    push_numeral(text, octets[0] as u16, 10);
    push_char(text, '.');
    push_numeral(text, octets[1] as u16, 10);
    push_char(text, '.');
    push_numeral(text, octets[2] as u16, 10);
    push_char(text, '.');
    push_numeral(text, octets[3] as u16, 10);
}

fn push_groups(text: &mut String, groups: &[u16; 8], from: usize, to: usize)
    requires
        from <= to <= 8,
    ensures
        final(text)@ == old(text)@ + groups_text(groups@.subrange(from as int, to as int)),
{
    let ghost before = text@;
    let mut i = from;
    while i < to
        invariant
            from <= i <= to <= 8,
            text@ == before + groups_text(groups@.subrange(from as int, i as int)),
        decreases to - i,
    {
        if i > from {
            push_char(text, ':');
        }
        push_numeral(text, groups[i], 16);
        assert(groups@.subrange(from as int, i + 1).drop_last() =~= groups@.subrange(
            from as int,
            i as int,
        ));
        i += 1;
    }
}

fn find_elided_run(groups: &[u16; 8]) -> (run: Option<(usize, usize)>)
    ensures
        match run {
            Some((start, len)) => is_elided_run(groups@, start as int, len as int),
            None => forall|s: int, l: int| !is_elided_run(groups@, s, l),
        },
{
    let mut best_start: usize = 0;
    let mut best_len: usize = 0;
    let mut run_len: usize = 0;
    let mut i: usize = 0;
    while i < 8
        invariant
            i <= 8,
            run_len <= i,
            run_len <= best_len,
            forall|k: int| i - run_len <= k < i ==> groups@[k] == 0,
            run_len < i ==> groups@[i - run_len - 1] != 0,
            best_len > 0 ==> is_zero_run(groups@, best_start as int, best_len as int) && best_start
                + best_len <= i,
            forall|s: int, l: int| #[trigger]
                is_zero_run(groups@, s, l) && s + l <= i ==> l < best_len || (l == best_len
                    && best_start <= s),
        decreases 8 - i,
    {
        if groups[i] == 0 {
            run_len += 1;
            if run_len > best_len {
                best_len = run_len;
                best_start = i + 1 - run_len;
            }
        } else {
            run_len = 0;
        }
        i += 1;
    }
    if best_len >= 2 {
        Some((best_start, best_len))
    } else {
        None
    }
}

fn is_mapped(groups: &[u16; 8]) -> (mapped: bool)
    ensures
        mapped == is_ipv4_mapped(groups@),
{
    groups[0] == 0 && groups[1] == 0 && groups[2] == 0 && groups[3] == 0 && groups[4] == 0
        && groups[5] == 0xffff
}

fn push_ipv6(text: &mut String, groups: &[u16; 8])
    ensures
        final(text)@ == old(text)@ + ipv6_text(groups@),
{
    if is_mapped(groups) {
        push_char(text, ':');
        push_char(text, ':');
        push_char(text, 'f');
        push_char(text, 'f');
        push_char(text, 'f');
        push_char(text, 'f');
        push_char(text, ':');
        let octets: [u8; 4] = [
            (groups[6] / 256) as u8,
            (groups[6] % 256) as u8,
            (groups[7] / 256) as u8,
            (groups[7] % 256) as u8,
        ];
        push_ipv4(text, &octets);
    } else {
        match find_elided_run(groups) {
            Some((start, len)) => {
                push_groups(text, groups, 0, start);
                push_char(text, ':');
                push_char(text, ':');
                push_groups(text, groups, start + len, 8);
                proof {
                    let (s, l) = choose|s: int, l: int| is_elided_run(groups@, s, l);
                    lemma_elided_run_is_unique(groups@, s, l, start as int, len as int);
                }
            },
            None => {
                push_groups(text, groups, 0, 8);
                assert(groups@.subrange(0, 8) =~= groups@);
            },
        }
    }
}

} // verus!
