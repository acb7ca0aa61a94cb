//! Internet addresses of both families: their values, the multicast ranges, and
//! their text.

use vstd::prelude::*;
use crate::number::{
    decimal_text, decimal_value, hex_group_of_text, hex_text, is_canonical_decimal, is_digit,
    parse_hex_group, parse_unsigned, push_decimal, push_hex,
};
use vstd::slice::slice_subrange;
use crate::text::{chars_of, fields, split, string_of, texts};

verus! {

/// The two address families.
#[derive(Clone, Copy, Debug, PartialEq, Eq, Structural)]
pub enum Family {
    V4,
    V6,
}

/// The mathematical value of an address: four octets, or eight groups of sixteen
/// bits, most significant first.
pub enum AddressValue {
    V4(Seq<u8>),
    V6(Seq<u16>),
}

/// An address of either family.
#[derive(Clone, Copy, Debug, PartialEq, Eq)]
pub enum IpAddress {
    V4([u8; 4]),
    V6([u16; 8]),
}

impl View for IpAddress {
    type V = AddressValue;

    open spec fn view(&self) -> AddressValue {
        match *self {
            IpAddress::V4(octets) => AddressValue::V4(octets@),
            IpAddress::V6(groups) => AddressValue::V6(groups@),
        }
    }
}

impl AddressValue {
    /// An address has as many parts as its family asks for.
    pub open spec fn well_formed(self) -> bool {
        match self {
            AddressValue::V4(octets) => octets.len() == 4,
            AddressValue::V6(groups) => groups.len() == 8,
        }
    }

    pub open spec fn family(self) -> Family {
        match self {
            AddressValue::V4(_) => Family::V4,
            AddressValue::V6(_) => Family::V6,
        }
    }

    /// The multicast ranges: 224.0.0.0/4 and ff00::/8.
    pub open spec fn is_multicast(self) -> bool {
        match self {
            AddressValue::V4(octets) => octets.len() == 4 && 224 <= octets[0] <= 239,
            AddressValue::V6(groups) => groups.len() == 8 && groups[0] >= 0xff00,
        }
    }

    /// The address of all zeros, which stands for "any local address".
    pub open spec fn unspecified(family: Family) -> AddressValue {
        match family {
            Family::V4 => AddressValue::V4(Seq::new(4, |i: int| 0u8)),
            Family::V6 => AddressValue::V6(Seq::new(8, |i: int| 0u16)),
        }
    }
}

impl IpAddress {
    pub fn family(&self) -> (f: Family)
        ensures
            f == self@.family(),
    {
        match self {
            IpAddress::V4(_) => Family::V4,
            IpAddress::V6(_) => Family::V6,
        }
    }

    /// Whether the address lies in the multicast range of its family.
    pub fn is_multicast(&self) -> (b: bool)
        ensures
            b == self@.is_multicast(),
    {
        match self {
            IpAddress::V4(octets) => 224 <= octets[0] && octets[0] <= 239,
            IpAddress::V6(groups) => groups[0] >= 0xff00,
        }
    }

    /// The address of all zeros in the given family.
    pub fn unspecified(family: Family) -> (a: IpAddress)
        ensures
            a@ == AddressValue::unspecified(family),
    {
        match family {
            Family::V4 => {
                let a = IpAddress::V4([0u8; 4]);
                assert(a@->V4_0 =~= Seq::new(4, |i: int| 0u8));
                a
            },
            Family::V6 => {
                let a = IpAddress::V6([0u16; 8]);
                assert(a@->V6_0 =~= Seq::new(8, |i: int| 0u16));
                a
            },
        }
    }
}

// ---------------------------------------------------------------------------
// Dotted text of the four-octet family
// ---------------------------------------------------------------------------

/// What a field means as an octet: a decimal number of at most 255 without
/// needless leading zeros.
pub open spec fn octet_of_text(f: Seq<char>) -> Option<nat> {
    if is_canonical_decimal(f) && decimal_value(f) <= 255 {
        Some(decimal_value(f))
    } else {
        None
    }
}

/// What a text means as an address of four octets: four octet fields separated
/// by single dots, and nothing else.
pub open spec fn ipv4_of_text(s: Seq<char>) -> Option<Seq<u8>> {
    let f = fields(s, '.');
    if f.len() == 4 && (forall|i: int| 0 <= i < 4 ==> (#[trigger] octet_of_text(f[i])) is Some) {
        Some(Seq::new(4, |i: int| octet_of_text(f[i]).unwrap() as u8))
    } else {
        None
    }
}

/// The dotted text of four octets.
pub open spec fn ipv4_text(octets: Seq<u8>) -> Seq<char> {
    decimal_text(octets[0] as nat) + seq!['.'] + decimal_text(octets[1] as nat) + seq!['.']
        + decimal_text(octets[2] as nat) + seq!['.'] + decimal_text(octets[3] as nat)
}

/// Reads one octet field.
pub fn parse_octet(f: &[char]) -> (r: Option<u8>)
    ensures
        match r {
            Some(v) => octet_of_text(f@) == Some(v as nat),
            None => octet_of_text(f@) is None,
        },
{
    if f.len() == 0 || f[0] == '+' || (f.len() > 1 && f[0] == '0') {
        assert(!is_canonical_decimal(f@)) by {
            if f@.len() > 0 && f@[0] == '+' {
                assert(!is_digit(f@[0]));
            }
        }
        return None;
    }
    match parse_unsigned(f, 255) {
        Some(v) => Some(v as u8),
        None => None,
    }
}

/// Reads the dotted text of an address of four octets.
pub fn parse_ipv4(s: &[char]) -> (r: Option<[u8; 4]>)
    ensures
        match r {
            Some(octets) => ipv4_of_text(s@) == Some(octets@),
            None => ipv4_of_text(s@) is None,
        },
{
    let f = split(s, '.');
    if f.len() != 4 {
        return None;
    }
    let mut octets = [0u8; 4];
    for i in 0..4
        invariant
            f@.len() == 4,
            texts(f@) == fields(s@, '.'),
            forall|k: int| 0 <= k < i ==> octet_of_text(#[trigger] texts(f@)[k]) == Some(octets@[k] as nat),
    {
        match parse_octet(f[i].as_slice()) {
            None => {
                assert(octet_of_text(texts(f@)[i as int]) is None);
                return None;
            },
            Some(v) => {
                octets[i] = v;
            },
        }
    }
    assert(ipv4_of_text(s@)->0 =~= octets@);
    Some(octets)
}

/// Appends the dotted text of four octets to `out`.
pub fn push_ipv4(out: &mut Vec<char>, octets: &[u8; 4])
    ensures
        final(out)@ == old(out)@ + ipv4_text(octets@),
{
    push_decimal(out, octets[0] as u64);
    out.push('.');
    push_decimal(out, octets[1] as u64);
    out.push('.');
    push_decimal(out, octets[2] as u64);
    out.push('.');
    push_decimal(out, octets[3] as u64);
    assert(final(out)@ =~= old(out)@ + ipv4_text(octets@));
}

// ---------------------------------------------------------------------------
// Colon text of the eight-group family
// ---------------------------------------------------------------------------

/// The position of the first doubled colon of `s` at or after `from`.
pub open spec fn gap_from(s: Seq<char>, from: int) -> Option<int>
    decreases s.len() - from,
{
    if from < 0 || from + 1 >= s.len() {
        None
    } else if s[from] == ':' && s[from + 1] == ':' {
        Some(from)
    } else {
        gap_from(s, from + 1)
    }
}

/// The two groups that a dotted address of four octets fills.
pub open spec fn groups_of_octets(octets: Seq<u8>) -> Seq<u16> {
    seq![
        (octets[0] as nat * 256 + octets[1] as nat) as u16,
        (octets[2] as nat * 256 + octets[3] as nat) as u16,
    ]
}

/// The groups that a list of fields writes: each field is a group of one to four
/// hexadecimal digits. With `dotted`, the last field may instead be a dotted
/// address of four octets, which fills two groups.
pub open spec fn groups_of_fields(f: Seq<Seq<char>>, dotted: bool) -> Option<Seq<u16>>
    decreases f.len(),
{
    if f.len() == 0 {
        Some(Seq::<u16>::empty())
    } else {
        match groups_of_fields(f.drop_last(), false) {
            None => None,
            Some(before) => match hex_group_of_text(f.last()) {
                Some(v) => Some(before.push(v as u16)),
                None => if dotted {
                    match ipv4_of_text(f.last()) {
                        Some(octets) => Some(before + groups_of_octets(octets)),
                        None => None,
                    }
                } else {
                    None
                },
            },
        }
    }
}

/// The groups that one side of a doubled colon writes, or the whole text where
/// there is none: nothing at all, or fields separated by single colons.
pub open spec fn groups_of_text(s: Seq<char>, dotted: bool) -> Option<Seq<u16>> {
    if s.len() == 0 {
        Some(Seq::<u16>::empty())
    } else {
        groups_of_fields(fields(s, ':'), dotted)
    }
}

/// What a text means as an address of eight groups. Without a doubled colon it
/// writes all eight. A doubled colon, which may occur once, stands for the one or
/// more zero groups that are missing between those before it and those after it.
/// A dotted address of four octets may take the place of the last two groups.
pub open spec fn ipv6_of_text(s: Seq<char>) -> Option<Seq<u16>> {
    match gap_from(s, 0) {
        None => match groups_of_text(s, true) {
            Some(groups) => if groups.len() == 8 {
                Some(groups)
            } else {
                None
            },
            None => None,
        },
        Some(p) => match (groups_of_text(s.take(p), false), groups_of_text(s.skip(p + 2), true)) {
            (Some(head), Some(tail)) => if head.len() + tail.len() <= 7 {
                Some(head + Seq::new((8 - head.len() - tail.len()) as nat, |i: int| 0u16) + tail)
            } else {
                None
            },
            _ => None,
        },
    }
}

/// What a text means as an address: the dotted form first, then the colon form.
pub open spec fn address_of_text(s: Seq<char>) -> Option<AddressValue> {
    match ipv4_of_text(s) {
        Some(octets) => Some(AddressValue::V4(octets)),
        None => match ipv6_of_text(s) {
            Some(groups) => Some(AddressValue::V6(groups)),
            None => None,
        },
    }
}

/// Finds the first doubled colon.
fn find_gap(s: &[char]) -> (r: Option<usize>)
    ensures
        match r {
            Some(p) => gap_from(s@, 0) == Some(p as int) && p + 2 <= s@.len(),
            None => gap_from(s@, 0) is None,
        },
{
    if s.len() < 2 {
        return None;
    }
    let mut i: usize = 0;
    while i + 1 < s.len()
        invariant
            i + 1 <= s.len(),
            gap_from(s@, 0) == gap_from(s@, i as int),
        decreases s.len() - i,
    {
        if s[i] == ':' && s[i + 1] == ':' {
            return Some(i);
        }
        i += 1;
    }
    None
}

/// Reads the groups on one side of a doubled colon.
fn parse_groups(s: &[char], dotted: bool) -> (r: Option<Vec<u16>>)
    ensures
        match r {
            Some(groups) => groups_of_text(s@, dotted) == Some(groups@),
            None => groups_of_text(s@, dotted) is None,
        },
{
    let mut groups: Vec<u16> = Vec::new();
    if s.len() == 0 {
        return Some(groups);
    }
    let f = split(s, ':');
    proof {
        crate::text::lemma_fields_nonempty(s@, ':');
    }
    let ghost all = texts(f@);
    let last = f.len() - 1;
    assert(all.take(0) =~= Seq::<Seq<char>>::empty());
    for i in 0..last
        invariant
            last + 1 == f@.len(),
            s@.len() > 0,
            all == texts(f@),
            all == fields(s@, ':'),
            groups_of_fields(all.take(i as int), false) == Some(groups@),
    {
        assert(all.take(i + 1).drop_last() =~= all.take(i as int));
        assert(all.take(i + 1).last() == f@[i as int]@);
        match parse_hex_group(f[i].as_slice()) {
            Some(v) => {
                groups.push(v);
            },
            None => {
                proof {
                    assert(groups_of_fields(all.take(i + 1), false) is None);
                    lemma_groups_prefix(all, i + 1, dotted);
                }
                return None;
            },
        }
    }
    assert(all.drop_last() =~= all.take(last as int));
    assert(all.last() == f@[last as int]@);
    match parse_hex_group(f[last].as_slice()) {
        Some(v) => {
            groups.push(v);
            Some(groups)
        },
        None => {
            if !dotted {
                return None;
            }
            match parse_ipv4(f[last].as_slice()) {
                None => None,
                Some(octets) => {
                    let ghost before = groups@;
                    groups.push(octets[0] as u16 * 256 + octets[1] as u16);
                    groups.push(octets[2] as u16 * 256 + octets[3] as u16);
                    assert(groups@ =~= before + groups_of_octets(octets@));
                    Some(groups)
                },
            }
        },
    }
}

/// A list of fields writes no groups when one of its fields but the last is no
/// group of hexadecimal digits.
proof fn lemma_groups_prefix(f: Seq<Seq<char>>, n: int, dotted: bool)
    requires
        0 <= n < f.len(),
        groups_of_fields(f.take(n), false) is None,
    ensures
        groups_of_fields(f, dotted) is None,
    decreases f.len(),
{
    if n == f.len() - 1 {
        assert(f.drop_last() =~= f.take(n));
    } else {
        assert(f.drop_last().take(n) =~= f.take(n));
        lemma_groups_prefix(f.drop_last(), n, false);
    }
}

/// Reads the colon text of an address of eight groups.
pub fn parse_ipv6(s: &[char]) -> (r: Option<[u16; 8]>)
    ensures
        match r {
            Some(groups) => ipv6_of_text(s@) == Some(groups@),
            None => ipv6_of_text(s@) is None,
        },
{
    let mut groups = [0u16; 8];
    match find_gap(s) {
        None => {
            match parse_groups(s, true) {
                None => None,
                Some(all) => {
                    if all.len() != 8 {
                        return None;
                    }
                    for i in 0..8
                        invariant
                            all@.len() == 8,
                            forall|k: int| 0 <= k < i ==> groups@[k] == all@[k],
                    {
                        groups[i] = all[i];
                    }
                    assert(groups@ =~= all@);
                    Some(groups)
                },
            }
        },
        Some(p) => {
            let n = s.len();
            let head = parse_groups(slice_subrange(s, 0, p), false);
            let tail = parse_groups(slice_subrange(s, p + 2, n), true);
            assert(s@.subrange(0, p as int) =~= s@.take(p as int));
            assert(s@.subrange(p + 2, s@.len() as int) =~= s@.skip(p + 2));
            match (head, tail) {
                (Some(head), Some(tail)) => {
                    if head.len() > 7 || tail.len() > 7 - head.len() {
                        return None;
                    }
                    let missing = 8 - head.len() - tail.len();
                    for i in 0..head.len()
                        invariant
                            head@.len() <= 7,
                            forall|k: int| 0 <= k < 8 ==> groups@[k] == if k < i {
                                head@[k]
                            } else {
                                0u16
                            },
                    {
                        groups[i] = head[i];
                    }
                    for i in 0..tail.len()
                        invariant
                            head@.len() + tail@.len() + missing == 8,
                            missing >= 1,
                            forall|k: int| 0 <= k < 8 ==> groups@[k] == if k < head@.len() {
                                head@[k]
                            } else if k < head@.len() + missing + i {
                                if k < head@.len() + missing {
                                    0u16
                                } else {
                                    tail@[k - head@.len() - missing]
                                }
                            } else {
                                0u16
                            },
                    {
                        groups[head.len() + missing + i] = tail[i];
                    }
                    assert(groups@ =~= head@ + Seq::new(missing as nat, |i: int| 0u16) + tail@);
                    Some(groups)
                },
                _ => None,
            }
        },
    }
}

/// Reads the text of an address of either family.
pub fn parse_address(s: &[char]) -> (r: Option<IpAddress>)
    ensures
        match r {
            Some(a) => address_of_text(s@) == Some(a@),
            None => address_of_text(s@) is None,
        },
{
    match parse_ipv4(s) {
        Some(octets) => Some(IpAddress::V4(octets)),
        None => match parse_ipv6(s) {
            Some(groups) => Some(IpAddress::V6(groups)),
            None => None,
        },
    }
}

// ---------------------------------------------------------------------------
// Writing addresses
// ---------------------------------------------------------------------------

/// The number of zero groups in a row that start at `from`.
pub open spec fn zero_run(groups: Seq<u16>, from: int) -> nat
    decreases groups.len() - from,
{
    if 0 <= from < groups.len() && groups[from] == 0 {
        1 + zero_run(groups, from + 1)
    } else {
        0
    }
}

/// The longest run of zero groups that starts at or after `from`, as its start
/// and its length; of several longest ones the first. The length is zero where
/// no group is zero.
pub open spec fn widest_zero_run(groups: Seq<u16>, from: int) -> (int, nat)
    decreases groups.len() - from,
{
    if from < 0 || from >= groups.len() {
        (from, 0)
    } else {
        let here = zero_run(groups, from);
        let later = widest_zero_run(groups, from + 1);
        if here > 0 && here >= later.1 {
            (from, here)
        } else {
            later
        }
    }
}

/// Groups in hexadecimal, separated by single colons.
pub open spec fn groups_text(groups: Seq<u16>) -> Seq<char>
    decreases groups.len(),
{
    if groups.len() == 0 {
        Seq::<char>::empty()
    } else if groups.len() == 1 {
        hex_text(groups[0] as nat)
    } else {
        groups_text(groups.drop_last()) + seq![':'] + hex_text(groups.last() as nat)
    }
}

/// The colon text of eight groups: lower-case hexadecimal without leading zeros,
/// with the longest run of two or more zero groups, the first of several, written
/// as a doubled colon.
pub open spec fn ipv6_text(groups: Seq<u16>) -> Seq<char> {
    let (start, len) = widest_zero_run(groups, 0);
    if len >= 2 {
        groups_text(groups.take(start)) + seq![':', ':'] + groups_text(groups.skip(start + len))
    } else {
        groups_text(groups)
    }
}

/// The text of an address.
pub open spec fn address_text(a: AddressValue) -> Seq<char> {
    match a {
        AddressValue::V4(octets) => ipv4_text(octets),
        AddressValue::V6(groups) => ipv6_text(groups),
    }
}

/// Finds the run of zero groups that the colon text leaves out.
fn find_widest_zero_run(groups: &[u16; 8]) -> (r: (usize, usize))
    ensures
        (r.0 as int, r.1 as nat) == widest_zero_run(groups@, 0),
        r.0 + r.1 <= 8,
{
    let mut run: usize = 0;
    let mut best: (usize, usize) = (8, 0);
    let mut i: usize = 8;
    while i > 0
        invariant
            i <= 8,
            run == zero_run(groups@, i as int),
            i + run <= 8,
            (best.0 as int, best.1 as nat) == widest_zero_run(groups@, i as int),
            best.0 + best.1 <= 8,
        decreases i,
    {
        i -= 1;
        if groups[i] == 0 {
            run += 1;
        } else {
            run = 0;
        }
        if run > 0 && run >= best.1 {
            best = (i, run);
        }
    }
    best
}

/// Appends groups in hexadecimal, separated by single colons.
fn push_groups(out: &mut Vec<char>, groups: &[u16])
    ensures
        final(out)@ == old(out)@ + groups_text(groups@),
{
    assert(groups@.take(0) =~= Seq::<u16>::empty());
    assert(out@ =~= old(out)@ + groups_text(groups@.take(0)));
    for i in 0..groups.len()
        invariant
            out@ == old(out)@ + groups_text(groups@.take(i as int)),
    {
        let ghost before = out@;
        let ghost next = groups@.take(i + 1);
        assert(next.drop_last() =~= groups@.take(i as int));
        assert(next.last() == groups@[i as int]);
        if i > 0 {
            out.push(':');
        }
        push_hex(out, groups[i]);
        assert(out@ =~= old(out)@ + groups_text(next));
    }
    assert(groups@.take(groups@.len() as int) =~= groups@);
}

/// Appends the colon text of eight groups to `out`.
pub fn push_ipv6(out: &mut Vec<char>, groups: &[u16; 8])
    ensures
        final(out)@ == old(out)@ + ipv6_text(groups@),
{
    let (start, len) = find_widest_zero_run(groups);
    let all = groups.as_slice();
    if len >= 2 {
        push_groups(out, slice_subrange(all, 0, start));
        out.push(':');
        out.push(':');
        push_groups(out, slice_subrange(all, start + len, 8));
        assert(groups@.subrange(0, start as int) =~= groups@.take(start as int));
        assert(groups@.subrange(start + len, 8) =~= groups@.skip(start + len));
        assert(final(out)@ =~= old(out)@ + ipv6_text(groups@));
    } else {
        push_groups(out, all);
    }
}

impl IpAddress {
    /// Appends the text of the address to `out`.
    pub fn push_text(&self, out: &mut Vec<char>)
        ensures
            final(out)@ == old(out)@ + address_text(self@),
    {
        match self {
            IpAddress::V4(octets) => push_ipv4(out, octets),
            IpAddress::V6(groups) => push_ipv6(out, groups),
        }
    }

    /// The text of the address.
    pub fn to_text(&self) -> (s: String)
        ensures
            s@ == address_text(self@),
    {
        let mut out: Vec<char> = Vec::new();
        self.push_text(&mut out);
        assert(out@ =~= address_text(self@));
        string_of(out.as_slice())
    }

    /// Reads the text of an address.
    pub fn from_text(s: &str) -> (r: Option<IpAddress>)
        ensures
            match r {
                Some(a) => address_of_text(s@) == Some(a@),
                None => address_of_text(s@) is None,
            },
    {
        let chars = chars_of(s);
        parse_address(chars.as_slice())
    }
}

} // verus!
