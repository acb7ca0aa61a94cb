//! Unsigned numbers as text: decimal and hexadecimal notation, read and written.

use vstd::prelude::*;

verus! {

// ---------------------------------------------------------------------------
// Decimal notation
// ---------------------------------------------------------------------------

pub open spec fn is_digit(c: char) -> bool {
    '0' <= c <= '9'
}

/// The value of a decimal digit; zero for any other character.
pub open spec fn digit_value(c: char) -> nat {
    if is_digit(c) {
        (c as int - '0' as int) as nat
    } else {
        0
    }
}

/// The character that writes `d`, for `d` below ten.
pub open spec fn digit_char(d: nat) -> char {
    (d + '0' as nat) as char
}

pub open spec fn all_digits(s: Seq<char>) -> bool {
    forall|i: int| 0 <= i < s.len() ==> is_digit(#[trigger] s[i])
}

/// The number that the digits of `s` write, most significant first.
pub open spec fn decimal_value(s: Seq<char>) -> nat
    decreases s.len(),
{
    if s.len() == 0 {
        0
    } else {
        decimal_value(s.drop_last()) * 10 + digit_value(s.last())
    }
}

/// What a text means as an unsigned number of at most `max`: one or more decimal
/// digits, optionally after a single `+`. Signs other than that, blanks, an empty
/// text and values above `max` mean nothing.
pub open spec fn unsigned_of_text(s: Seq<char>, max: nat) -> Option<nat> {
    let digits = if s.len() > 0 && s[0] == '+' {
        s.skip(1)
    } else {
        s
    };
    if digits.len() > 0 && all_digits(digits) && decimal_value(digits) <= max {
        Some(decimal_value(digits))
    } else {
        None
    }
}

/// The decimal text of `n`, without sign and without leading zeros.
pub open spec fn decimal_text(n: nat) -> Seq<char>
    decreases n,
{
    if n < 10 {
        seq![digit_char(n)]
    } else {
        decimal_text(n / 10).push(digit_char(n % 10))
    }
}

/// A text is a canonical decimal when it is made of digits and does not start
/// with a needless zero.
pub open spec fn is_canonical_decimal(s: Seq<char>) -> bool {
    &&& s.len() > 0
    &&& all_digits(s)
    &&& (s.len() > 1 ==> s[0] != '0')
}

/// A number never shrinks when more digits follow.
pub proof fn lemma_decimal_prefix(s: Seq<char>, n: int)
    requires
        0 <= n <= s.len(),
    ensures
        decimal_value(s.take(n)) <= decimal_value(s),
    decreases s.len() - n,
{
    if n == s.len() {
        assert(s.take(n) =~= s);
    } else {
        lemma_decimal_prefix(s, n + 1);
        assert(s.take(n + 1).drop_last() =~= s.take(n));
    }
}

/// The decimal text of a number is canonical and writes that number.
pub proof fn lemma_decimal_text(n: nat)
    ensures
        is_canonical_decimal(decimal_text(n)),
        decimal_value(decimal_text(n)) == n,
        n > 0 ==> decimal_text(n)[0] != '0',
    decreases n,
{
    if n < 10 {
        let t = decimal_text(n);
        assert(t.drop_last() =~= Seq::<char>::empty());
        assert(decimal_value(t.drop_last()) == 0);
    } else {
        lemma_decimal_text(n / 10);
        let t = decimal_text(n);
        assert(t.drop_last() =~= decimal_text(n / 10));
        assert(t.last() == digit_char(n % 10));
    }
}

/// A canonical decimal is the decimal text of the number it writes: every number
/// has exactly one canonical text.
pub proof fn lemma_canonical_is_text(s: Seq<char>)
    requires
        is_canonical_decimal(s),
    ensures
        s == decimal_text(decimal_value(s)),
    decreases s.len(),
{
    if s.len() == 1 {
        assert(s.drop_last() =~= Seq::<char>::empty());
        assert(decimal_value(s.drop_last()) == 0);
        assert(s =~= seq![s[0]]);
    } else {
        let init = s.drop_last();
        assert(is_canonical_decimal(init));
        lemma_canonical_is_text(init);
        lemma_positive_value(init);
        let v = decimal_value(init);
        assert(decimal_value(s) == v * 10 + digit_value(s.last()));
        assert(decimal_value(s) / 10 == v);
        assert(decimal_value(s) % 10 == digit_value(s.last()));
        assert(s =~= init.push(s.last()));
    }
}

/// The decimal text of a number is read back as that number, whatever the limit
/// that the number keeps.
pub proof fn lemma_decimal_text_is_read_back(n: nat, max: nat)
    requires
        n <= max,
    ensures
        unsigned_of_text(decimal_text(n), max) == Some(n),
{
    lemma_decimal_text(n);
    assert(is_digit(decimal_text(n)[0]));
}

/// A text of digits that starts with a digit other than zero writes a number above zero.
proof fn lemma_positive_value(s: Seq<char>)
    requires
        s.len() > 0,
        all_digits(s),
        s[0] != '0',
    ensures
        decimal_value(s) > 0,
    decreases s.len(),
{
    if s.len() == 1 {
        assert(s.drop_last() =~= Seq::<char>::empty());
    } else {
        lemma_positive_value(s.drop_last());
    }
}

/// Reads a decimal digit.
pub fn digit_of(c: char) -> (d: Option<u8>)
    ensures
        d is Some <==> is_digit(c),
        d matches Some(v) ==> v < 10 && v == digit_value(c),
{
    if '0' <= c && c <= '9' {
        Some((c as u32 - '0' as u32) as u8)
    } else {
        None
    }
}

/// Reads an unsigned decimal number of at most `max`.
pub fn parse_unsigned(s: &[char], max: u64) -> (r: Option<u64>)
    ensures
        match r {
            Some(v) => unsigned_of_text(s@, max as nat) == Some(v as nat),
            None => unsigned_of_text(s@, max as nat) is None,
        },
{
    let start: usize = if s.len() > 0 && s[0] == '+' {
        1
    } else {
        0
    };
    let ghost digits = s@.skip(start as int);
    assert(s@.skip(0) =~= s@);
    if start == s.len() {
        return None;
    }
    let mut acc: u64 = 0;
    assert(digits.take(0) =~= Seq::<char>::empty());
    for i in start..s.len()
        invariant
            start < s.len(),
            digits == s@.skip(start as int),
            digits == if s@.len() > 0 && s@[0] == '+' {
                s@.skip(1)
            } else {
                s@
            },
            all_digits(digits.take(i - start)),
            acc == decimal_value(digits.take(i - start)),
            acc <= max,
    {
        let ghost seen = digits.take(i - start);
        let ghost next = digits.take(i - start + 1);
        assert(next.drop_last() =~= seen);
        assert(next.last() == s@[i as int]);
        match digit_of(s[i]) {
            None => {
                assert(!is_digit(digits[i - start]));
                return None;
            },
            Some(d) => {
                if acc > max / 10 || (acc == max / 10 && d as u64 > max % 10) {
                    proof {
                        assert(decimal_value(next) > max);
                        lemma_decimal_prefix(digits, i - start + 1);
                    }
                    return None;
                }
                acc = acc * 10 + d as u64;
                assert forall|k: int| 0 <= k < next.len() implies is_digit(#[trigger] next[k]) by {
                    if k < seen.len() {
                        assert(next[k] == seen[k]);
                    }
                }
            },
        }
    }
    assert(digits.take(s.len() - start) =~= digits);
    Some(acc)
}

/// Writes a decimal digit.
pub fn char_of_digit(d: u8) -> (c: char)
    requires
        d < 10,
    ensures
        c == digit_char(d as nat),
{
    (d + 48u8) as char
}

/// Appends the decimal text of `n` to `out`.
pub fn push_decimal(out: &mut Vec<char>, n: u64)
    ensures
        final(out)@ == old(out)@ + decimal_text(n as nat),
    decreases n,
{
    if n >= 10 {
        push_decimal(out, n / 10);
    }
    out.push(char_of_digit((n % 10) as u8));
    assert(final(out)@ =~= old(out)@ + decimal_text(n as nat));
}

// ---------------------------------------------------------------------------
// Hexadecimal notation
// ---------------------------------------------------------------------------

pub open spec fn is_hex_digit(c: char) -> bool {
    ('0' <= c <= '9') || ('a' <= c <= 'f') || ('A' <= c <= 'F')
}

/// The value of a hexadecimal digit of either case; zero for any other character.
pub open spec fn hex_digit_value(c: char) -> nat {
    if '0' <= c <= '9' {
        (c as int - '0' as int) as nat
    } else if 'a' <= c <= 'f' {
        (c as int - 'a' as int + 10) as nat
    } else if 'A' <= c <= 'F' {
        (c as int - 'A' as int + 10) as nat
    } else {
        0
    }
}

/// The lower-case character that writes `d`, for `d` below sixteen.
pub open spec fn hex_char(d: nat) -> char {
    if d < 10 {
        (d + '0' as nat) as char
    } else {
        (d - 10 + 'a' as nat) as char
    }
}

pub open spec fn all_hex_digits(s: Seq<char>) -> bool {
    forall|i: int| 0 <= i < s.len() ==> is_hex_digit(#[trigger] s[i])
}

/// The number that the hexadecimal digits of `s` write, most significant first.
pub open spec fn hex_value(s: Seq<char>) -> nat
    decreases s.len(),
{
    if s.len() == 0 {
        0
    } else {
        hex_value(s.drop_last()) * 16 + hex_digit_value(s.last())
    }
}

/// What a text means as a group of sixteen bits: one to four hexadecimal digits.
pub open spec fn hex_group_of_text(s: Seq<char>) -> Option<nat> {
    if 1 <= s.len() <= 4 && all_hex_digits(s) {
        Some(hex_value(s))
    } else {
        None
    }
}

/// The hexadecimal text of `n`, in lower case and without leading zeros.
pub open spec fn hex_text(n: nat) -> Seq<char>
    decreases n,
{
    if n < 16 {
        seq![hex_char(n)]
    } else {
        hex_text(n / 16).push(hex_char(n % 16))
    }
}

/// Up to four hexadecimal digits write a number below two to the sixteenth.
pub proof fn lemma_hex_value_bound(s: Seq<char>)
    ensures
        s.len() == 0 ==> hex_value(s) == 0,
        s.len() == 1 ==> hex_value(s) < 0x10,
        s.len() == 2 ==> hex_value(s) < 0x100,
        s.len() == 3 ==> hex_value(s) < 0x1000,
        s.len() == 4 ==> hex_value(s) < 0x10000,
    decreases s.len(),
{
    if 0 < s.len() <= 4 {
        lemma_hex_value_bound(s.drop_last());
    }
}

/// The hexadecimal text of a number writes that number, in hexadecimal digits
/// that contain no separator; below two to the sixteenth it is a group.
pub proof fn lemma_hex_text(n: nat)
    ensures
        hex_text(n).len() >= 1,
        all_hex_digits(hex_text(n)),
        hex_value(hex_text(n)) == n,
        n < 0x10000 ==> hex_text(n).len() <= 4,
        n < 0x10000 ==> hex_group_of_text(hex_text(n)) == Some(n),
    decreases n,
{
    let t = hex_text(n);
    if n < 16 {
        assert(t.drop_last() =~= Seq::<char>::empty());
        assert(hex_value(t.drop_last()) == 0);
    } else {
        lemma_hex_text(n / 16);
        assert(t.drop_last() =~= hex_text(n / 16));
        assert(t.last() == hex_char(n % 16));
        if n < 0x10000 {
            lemma_hex_text_length(n / 16);
        }
    }
}

proof fn lemma_hex_text_length(n: nat)
    ensures
        n < 0x10 ==> hex_text(n).len() == 1,
        0x10 <= n < 0x100 ==> hex_text(n).len() == 2,
        0x100 <= n < 0x1000 ==> hex_text(n).len() == 3,
    decreases n,
{
    if 16 <= n < 0x1000 {
        lemma_hex_text_length(n / 16);
    }
}

/// Reads a hexadecimal digit of either case.
pub fn hex_digit_of(c: char) -> (d: Option<u8>)
    ensures
        d is Some <==> is_hex_digit(c),
        d matches Some(v) ==> v < 16 && v == hex_digit_value(c),
{
    if '0' <= c && c <= '9' {
        Some((c as u32 - '0' as u32) as u8)
    } else if 'a' <= c && c <= 'f' {
        Some((c as u32 - 'a' as u32 + 10) as u8)
    } else if 'A' <= c && c <= 'F' {
        Some((c as u32 - 'A' as u32 + 10) as u8)
    } else {
        None
    }
}

/// Reads a group of one to four hexadecimal digits.
pub fn parse_hex_group(s: &[char]) -> (r: Option<u16>)
    ensures
        match r {
            Some(v) => hex_group_of_text(s@) == Some(v as nat),
            None => hex_group_of_text(s@) is None,
        },
{
    if s.len() < 1 || s.len() > 4 {
        return None;
    }
    let mut acc: u16 = 0;
    assert(s@.take(0) =~= Seq::<char>::empty());
    for i in 0..s.len()
        invariant
            s.len() <= 4,
            all_hex_digits(s@.take(i as int)),
            acc == hex_value(s@.take(i as int)),
    {
        let ghost seen = s@.take(i as int);
        let ghost next = s@.take(i + 1);
        assert(next.drop_last() =~= seen);
        assert(next.last() == s@[i as int]);
        proof {
            lemma_hex_value_bound(seen);
        }
        match hex_digit_of(s[i]) {
            None => {
                assert(!is_hex_digit(s@[i as int]));
                return None;
            },
            Some(d) => {
                acc = acc * 16 + d as u16;
                assert forall|k: int| 0 <= k < next.len() implies is_hex_digit(
                    #[trigger] next[k],
                ) by {
                    if k < seen.len() {
                        assert(next[k] == seen[k]);
                    }
                }
            },
        }
    }
    assert(s@.take(s@.len() as int) =~= s@);
    Some(acc)
}

/// Writes a hexadecimal digit in lower case.
pub fn char_of_hex_digit(d: u8) -> (c: char)
    requires
        d < 16,
    ensures
        c == hex_char(d as nat),
{
    if d < 10 {
        (d + 48u8) as char
    } else {
        (d - 10 + 97u8) as char
    }
}

/// Appends the hexadecimal text of `n` to `out`.
pub fn push_hex(out: &mut Vec<char>, n: u16)
    ensures
        final(out)@ == old(out)@ + hex_text(n as nat),
    decreases n,
{
    if n >= 16 {
        push_hex(out, n / 16);
    }
    out.push(char_of_hex_digit((n % 16) as u8));
    assert(final(out)@ =~= old(out)@ + hex_text(n as nat));
}

} // verus!
