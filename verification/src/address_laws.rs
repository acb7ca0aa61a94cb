//! What holds of the text of addresses: every address is read back from its own
//! text, and the resolver accepts exactly the multicast addresses.

use vstd::prelude::*;
use crate::address::{
    address_of_text, address_text, gap_from, groups_of_fields, groups_of_text, groups_text,
    ipv4_of_text, ipv4_text, ipv6_of_text, ipv6_text, octet_of_text, widest_zero_run, zero_run,
    AddressValue,
};
use crate::error::Error;
use crate::group::group_of_text;
use crate::number::{
    decimal_text, hex_text, is_digit, is_hex_digit, lemma_canonical_is_text, lemma_decimal_text,
    lemma_hex_text,
};
use crate::text::{fields, joined, lemma_fields_joined, lemma_fields_rejoined, lemma_fields_single};

verus! {

/// A text of decimal digits holds neither a dot nor a colon.
proof fn lemma_decimal_text_plain(n: nat)
    ensures
        forall|i: int| 0 <= i < decimal_text(n).len() ==> decimal_text(n)[i] != '.',
        forall|i: int| 0 <= i < decimal_text(n).len() ==> decimal_text(n)[i] != ':',
{
    lemma_decimal_text(n);
    assert forall|i: int| 0 <= i < decimal_text(n).len() implies decimal_text(n)[i] != '.'
        && decimal_text(n)[i] != ':' by {
        assert(is_digit(decimal_text(n)[i]));
    }
}

/// The dotted text of four octets is read back as those octets.
pub proof fn lemma_ipv4_text_is_read_back(octets: Seq<u8>)
    requires
        octets.len() == 4,
    ensures
        ipv4_of_text(ipv4_text(octets)) == Some(octets),
{
    let a = decimal_text(octets[0] as nat);
    let b = decimal_text(octets[1] as nat);
    let c = decimal_text(octets[2] as nat);
    let d = decimal_text(octets[3] as nat);
    lemma_decimal_text_plain(octets[0] as nat);
    lemma_decimal_text_plain(octets[1] as nat);
    lemma_decimal_text_plain(octets[2] as nat);
    lemma_decimal_text_plain(octets[3] as nat);
    lemma_decimal_text(octets[0] as nat);
    lemma_decimal_text(octets[1] as nat);
    lemma_decimal_text(octets[2] as nat);
    lemma_decimal_text(octets[3] as nat);
    lemma_fields_single(a, '.');
    lemma_fields_single(b, '.');
    lemma_fields_single(c, '.');
    lemma_fields_single(d, '.');
    lemma_fields_joined(a, b, '.');
    lemma_fields_joined(a + seq!['.'] + b, c, '.');
    lemma_fields_joined(a + seq!['.'] + b + seq!['.'] + c, d, '.');
    let f = fields(ipv4_text(octets), '.');
    assert(f =~= seq![a, b, c, d]);
    assert forall|i: int| 0 <= i < 4 implies (#[trigger] octet_of_text(f[i])) == Some(
        octets[i] as nat,
    ) by {}
    assert(ipv4_of_text(ipv4_text(octets))->0 =~= octets);
}

/// An address of four octets has one text only: whatever text is read as four
/// octets is the dotted text of those octets.
pub proof fn lemma_ipv4_text_is_unique(s: Seq<char>)
    ensures
        ipv4_of_text(s) matches Some(octets) ==> s == ipv4_text(octets),
{
    if let Some(octets) = ipv4_of_text(s) {
        let f = fields(s, '.');
        lemma_fields_rejoined(s, '.');
        assert forall|i: int| 0 <= i < 4 implies f[i] == decimal_text(octets[i] as nat) by {
            assert(octet_of_text(f[i]) is Some);
            lemma_canonical_is_text(f[i]);
        }
        reveal_with_fuel(joined, 5);
        assert(f.drop_last().drop_last().drop_last() =~= seq![f[0]]);
        assert(f.drop_last().drop_last().last() == f[1]);
        assert(f.drop_last().last() == f[2]);
        assert(joined(f, '.') =~= f[0] + seq!['.'] + f[1] + seq!['.'] + f[2] + seq!['.'] + f[3]);
    }
}

// ---------------------------------------------------------------------------
// The colon text
// ---------------------------------------------------------------------------

/// The hexadecimal texts of a list of groups.
pub open spec fn hex_texts(groups: Seq<u16>) -> Seq<Seq<char>> {
    Seq::new(groups.len(), |i: int| hex_text(groups[i] as nat))
}

/// A text made of hexadecimal digits and single colons between them: it holds
/// no dot, no two colons are neighbours, and it neither starts nor ends with one.
pub open spec fn well_separated(t: Seq<char>) -> bool {
    &&& t.len() > 0
    &&& t[0] != ':'
    &&& t.last() != ':'
    &&& forall|i: int| 0 <= i < t.len() ==> #[trigger] t[i] != '.'
    &&& forall|i: int| 0 <= i && i + 1 < t.len() ==> !(#[trigger] t[i] == ':' && t[i + 1] == ':')
}

/// A text of hexadecimal digits holds neither a dot nor a colon.
proof fn lemma_hex_text_plain(n: nat)
    ensures
        hex_text(n).len() >= 1,
        forall|i: int| 0 <= i < hex_text(n).len() ==> hex_text(n)[i] != '.',
        forall|i: int| 0 <= i < hex_text(n).len() ==> hex_text(n)[i] != ':',
{
    lemma_hex_text(n);
    assert forall|i: int| 0 <= i < hex_text(n).len() implies hex_text(n)[i] != '.' && hex_text(
        n,
    )[i] != ':' by {
        assert(is_hex_digit(hex_text(n)[i]));
    }
}

/// Groups written with single colons between them are well separated.
proof fn lemma_groups_text_shape(groups: Seq<u16>)
    requires
        groups.len() >= 1,
    ensures
        well_separated(groups_text(groups)),
    decreases groups.len(),
{
    let last = hex_text(groups.last() as nat);
    lemma_hex_text_plain(groups.last() as nat);
    if groups.len() == 1 {
        assert(groups.last() == groups[0]);
    } else {
        let before = groups_text(groups.drop_last());
        lemma_groups_text_shape(groups.drop_last());
        let t = groups_text(groups);
        assert(t == before + seq![':'] + last);
        assert forall|i: int| 0 <= i < t.len() implies #[trigger] t[i] != '.' by {
            if i < before.len() {
                assert(t[i] == before[i]);
            } else if i > before.len() {
                assert(t[i] == last[i - before.len() - 1]);
            }
        }
        assert forall|i: int| 0 <= i && i + 1 < t.len() implies !(#[trigger] t[i] == ':' && t[i
            + 1] == ':') by {
            if i + 1 < before.len() {
                assert(t[i] == before[i]);
                assert(t[i + 1] == before[i + 1]);
            } else if i + 1 == before.len() {
                assert(t[i] == before.last());
            } else if i == before.len() {
                assert(t[i + 1] == last[0]);
            } else {
                assert(t[i] == last[i - before.len() - 1]);
            }
        }
        assert(t[0] == before[0]);
        assert(t.last() == last.last());
    }
}

/// The fields of groups written with single colons between them are the
/// hexadecimal texts of the groups.
proof fn lemma_groups_text_fields(groups: Seq<u16>)
    requires
        groups.len() >= 1,
    ensures
        fields(groups_text(groups), ':') == hex_texts(groups),
    decreases groups.len(),
{
    let last = hex_text(groups.last() as nat);
    lemma_hex_text_plain(groups.last() as nat);
    lemma_fields_single(last, ':');
    if groups.len() == 1 {
        assert(groups.last() == groups[0]);
        assert(hex_texts(groups) =~= seq![last]);
    } else {
        lemma_groups_text_fields(groups.drop_last());
        lemma_fields_joined(groups_text(groups.drop_last()), last, ':');
        assert(hex_texts(groups) =~= hex_texts(groups.drop_last()) + seq![last]);
    }
}

/// The hexadecimal texts of groups are read back as those groups.
proof fn lemma_hex_texts_are_read_back(groups: Seq<u16>, dotted: bool)
    ensures
        groups_of_fields(hex_texts(groups), dotted) == Some(groups),
    decreases groups.len(),
{
    if groups.len() == 0 {
        assert(groups =~= Seq::<u16>::empty());
    } else {
        lemma_hex_texts_are_read_back(groups.drop_last(), false);
        lemma_hex_text(groups.last() as nat);
        assert(hex_texts(groups).drop_last() =~= hex_texts(groups.drop_last()));
        assert(hex_texts(groups).last() == hex_text(groups.last() as nat));
        assert(groups.drop_last().push(groups.last()) =~= groups);
    }
}

/// Groups written with single colons between them are read back as those groups.
proof fn lemma_groups_text_is_read_back(groups: Seq<u16>, dotted: bool)
    ensures
        groups_of_text(groups_text(groups), dotted) == Some(groups),
{
    if groups.len() == 0 {
        assert(groups =~= Seq::<u16>::empty());
    } else {
        lemma_groups_text_shape(groups);
        lemma_groups_text_fields(groups);
        lemma_hex_texts_are_read_back(groups, dotted);
    }
}

/// A text in which no two colons are neighbours has no doubled colon.
proof fn lemma_no_gap(t: Seq<char>, from: int)
    requires
        forall|i: int| 0 <= i && i + 1 < t.len() ==> !(#[trigger] t[i] == ':' && t[i + 1] == ':'),
    ensures
        gap_from(t, from) is None,
    decreases t.len() - from,
{
    if from >= 0 && from + 1 < t.len() {
        lemma_no_gap(t, from + 1);
    }
}

/// The first doubled colon is found where no two colons are neighbours before it.
proof fn lemma_gap_found(t: Seq<char>, at: int, from: int)
    requires
        0 <= from <= at,
        at + 1 < t.len(),
        t[at] == ':',
        t[at + 1] == ':',
        forall|i: int| 0 <= i < at ==> !(#[trigger] t[i] == ':' && t[i + 1] == ':'),
    ensures
        gap_from(t, from) == Some(at),
    decreases at - from,
{
    if from < at {
        lemma_gap_found(t, at, from + 1);
    }
}

/// A run of zero groups lies within the groups, and all its groups are zero.
proof fn lemma_zero_run(groups: Seq<u16>, from: int)
    requires
        0 <= from,
    ensures
        zero_run(groups, from) > 0 ==> from + zero_run(groups, from) <= groups.len(),
        forall|i: int| from <= i < from + zero_run(groups, from) ==> groups[i] == 0,
    decreases groups.len() - from,
{
    if from < groups.len() && groups[from] == 0 {
        lemma_zero_run(groups, from + 1);
    }
}

/// The widest run of zero groups is a run of zero groups.
proof fn lemma_widest_zero_run(groups: Seq<u16>, from: int)
    requires
        0 <= from,
    ensures
        ({
            let (start, len) = widest_zero_run(groups, from);
            len > 0 ==> from <= start && zero_run(groups, start) == len
        }),
    decreases groups.len() - from,
{
    if from < groups.len() {
        lemma_widest_zero_run(groups, from + 1);
    }
}

/// The colon text of eight groups holds no dot, and is read back as those groups.
pub proof fn lemma_ipv6_text_is_read_back(groups: Seq<u16>)
    requires
        groups.len() == 8,
    ensures
        ipv6_of_text(ipv6_text(groups)) == Some(groups),
        forall|i: int| 0 <= i < ipv6_text(groups).len() ==> ipv6_text(groups)[i] != '.',
{
    let (start, len) = widest_zero_run(groups, 0);
    let text = ipv6_text(groups);
    if len >= 2 {
        lemma_widest_zero_run(groups, 0);
        lemma_zero_run(groups, start);
        let head = groups.take(start);
        let tail = groups.skip(start + len);
        let h = groups_text(head);
        let t = groups_text(tail);
        assert(text == h + seq![':', ':'] + t);
        if head.len() > 0 {
            lemma_groups_text_shape(head);
        }
        if tail.len() > 0 {
            lemma_groups_text_shape(tail);
        }
        let at = h.len() as int;
        assert(text[at] == ':');
        assert(text[at + 1] == ':');
        assert forall|i: int| 0 <= i < at implies !(#[trigger] text[i] == ':' && text[i + 1]
            == ':') by {
            assert(text[i] == h[i]);
            if i + 1 < at {
                assert(text[i + 1] == h[i + 1]);
            } else {
                assert(h[i] == h.last());
            }
        }
        lemma_gap_found(text, at, 0);
        assert(text.take(at) =~= h);
        assert(text.skip(at + 2) =~= t);
        lemma_groups_text_is_read_back(head, false);
        lemma_groups_text_is_read_back(tail, true);
        let zeros = Seq::new((8 - head.len() - tail.len()) as nat, |i: int| 0u16);
        assert(head + zeros + tail =~= groups);
        assert forall|i: int| 0 <= i < text.len() implies text[i] != '.' by {
            if i < at {
                assert(text[i] == h[i]);
            } else if i >= at + 2 {
                assert(text[i] == t[i - at - 2]);
            }
        }
    } else {
        lemma_groups_text_shape(groups);
        lemma_no_gap(text, 0);
        lemma_groups_text_is_read_back(groups, true);
    }
}

// ---------------------------------------------------------------------------
// Addresses and the resolver
// ---------------------------------------------------------------------------

/// Every address is read back from its own text: writing an address and reading
/// the text gives the address.
pub proof fn lemma_address_text_is_read_back(a: AddressValue)
    requires
        a.well_formed(),
    ensures
        address_of_text(address_text(a)) == Some(a),
{
    match a {
        AddressValue::V4(octets) => {
            lemma_ipv4_text_is_read_back(octets);
        },
        AddressValue::V6(groups) => {
            lemma_ipv6_text_is_read_back(groups);
            lemma_fields_single(ipv6_text(groups), '.');
        },
    }
}

/// Whatever text is read as an address, the address has as many parts as its
/// family asks for.
pub proof fn lemma_read_address_is_well_formed(s: Seq<char>)
    ensures
        address_of_text(s) matches Some(a) ==> a.well_formed(),
{
}

/// The resolver accepts exactly the multicast addresses. A text that is read as
/// an address in 224.0.0.0/4 or in ff00::/8 resolves to that address, and a text
/// that is read as any other address is refused as `NotMulticast`. No address
/// is out of reach of this: the own text of every multicast address resolves to
/// it, and the own text of every other address is refused as `NotMulticast`.
pub proof fn lemma_resolver_accepts_exactly_multicast(s: Seq<char>, a: AddressValue)
    requires
        a.well_formed(),
    ensures
        address_of_text(s) == Some(a) && a.is_multicast() ==> group_of_text(s) == Ok::<
            AddressValue,
            Error,
        >(a),
        address_of_text(s) == Some(a) && !a.is_multicast() ==> group_of_text(s) == Err::<
            AddressValue,
            Error,
        >(Error::NotMulticast),
        a.is_multicast() ==> group_of_text(address_text(a)) == Ok::<AddressValue, Error>(a),
        !a.is_multicast() ==> group_of_text(address_text(a)) == Err::<AddressValue, Error>(
            Error::NotMulticast,
        ),
        a.is_multicast() <==> match a {
            AddressValue::V4(octets) => 224 <= octets[0] <= 239,
            AddressValue::V6(groups) => groups[0] >= 0xff00,
        },
{
    lemma_address_text_is_read_back(a);
}

} // verus!
