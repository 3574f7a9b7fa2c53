//! The canonical text form of a 128-bit identifier value: 32 lower-case hex
//! digits in groups of 8-4-4-4-12, joined by hyphens.
use vstd::prelude::*;
use vstd::arithmetic::div_mod::{lemma_div_denominator, lemma_mod_breakdown, lemma_small_mod};

verus! {

/// 16 to the power `n`.
pub open spec fn pow16(n: nat) -> nat
    decreases n,
{
    if n == 0 {
        1
    } else {
        16 * pow16((n - 1) as nat)
    }
}

/// The lower-case hex digit of a nibble.
pub open spec fn hex_char(n: nat) -> char {
    seq!['0', '1', '2', '3', '4', '5', '6', '7', '8', '9', 'a', 'b', 'c', 'd', 'e', 'f'][n as int]
}

/// Whether `c` is a hex digit, in either case.
pub open spec fn is_hex_char(c: char) -> bool {
    ('0' <= c && c <= '9') || ('a' <= c && c <= 'f') || ('A' <= c && c <= 'F')
}

/// The value of a hex digit, in either case.
pub open spec fn hex_value(c: char) -> nat {
    if '0' <= c && c <= '9' {
        (c as int - '0' as int) as nat
    } else if 'a' <= c && c <= 'f' {
        (c as int - 'a' as int + 10) as nat
    } else {
        (c as int - 'A' as int + 10) as nat
    }
}

/// The last `n` hex digits of `v`, most significant first.
pub open spec fn hex_text(v: nat, n: nat) -> Seq<char>
    decreases n,
{
    if n == 0 {
        seq![]
    } else {
        hex_text(v / 16, (n - 1) as nat).push(hex_char(v % 16))
    }
}

/// The number that a sequence of hex digits spells, most significant first.
pub open spec fn hex_number(d: Seq<char>) -> nat
    decreases d.len(),
{
    if d.len() == 0 {
        0
    } else {
        hex_number(d.drop_last()) * 16 + hex_value(d.last())
    }
}

/// The positions of the four hyphens in the hyphenated form.
pub open spec fn is_hyphen_position(i: int) -> bool {
    i == 8 || i == 13 || i == 18 || i == 23
}

/// The lower-case hyphenated text of a 128-bit value.
pub open spec fn hyphenated_text(v: u128) -> Seq<char> {
    hex_text(v as nat / pow16(24), 8) + seq!['-'] + hex_text(v as nat / pow16(20), 4) + seq!['-']
        + hex_text(v as nat / pow16(16), 4) + seq!['-'] + hex_text(v as nat / pow16(12), 4)
        + seq!['-'] + hex_text(v as nat, 12)
}

/// Whether `s` is in hyphenated form: 36 characters, hyphens at the four
/// hyphen positions and hex digits of either case everywhere else.
pub open spec fn is_hyphenated(s: Seq<char>) -> bool {
    &&& s.len() == 36
    &&& forall|i: int|
        0 <= i < 36 ==> if is_hyphen_position(i) {
            s[i] == '-'
        } else {
            is_hex_char(#[trigger] s[i])
        }
}

/// The 32 digits of a hyphenated text, without its hyphens.
pub open spec fn hyphenated_digits(s: Seq<char>) -> Seq<char> {
    s.subrange(0, 8) + s.subrange(9, 13) + s.subrange(14, 18) + s.subrange(19, 23) + s.subrange(
        24,
        36,
    )
}

/// The value that a hyphenated text spells.
pub open spec fn hyphenated_value(s: Seq<char>) -> nat {
    hex_number(hyphenated_digits(s))
}

/// Whether every character is a hex digit, in either case.
pub open spec fn is_all_hex(s: Seq<char>) -> bool {
    forall|i: int| 0 <= i < s.len() ==> is_hex_char(#[trigger] s[i])
}

/// Whether `p` is `urn:uuid:` with its letters in either case.
pub open spec fn is_urn_prefix(p: Seq<char>) -> bool {
    &&& p.len() == 9
    &&& (p[0] == 'u' || p[0] == 'U') && (p[1] == 'r' || p[1] == 'R') && (p[2] == 'n' || p[2] == 'N')
    &&& p[3] == ':'
    &&& (p[4] == 'u' || p[4] == 'U') && (p[5] == 'u' || p[5] == 'U') && (p[6] == 'i' || p[6] == 'I')
    &&& (p[7] == 'd' || p[7] == 'D')
    &&& p[8] == ':'
}

/// The value of a text in one of the four forms that UUIDs are written in,
/// hex digits of either case throughout: 32 digits; the hyphenated form;
/// the hyphenated form in braces; `urn:uuid:` in either case followed by the
/// hyphenated form. `None` for every other text.
pub open spec fn uuid_text_value(s: Seq<char>) -> Option<u128> {
    if s.len() == 32 && is_all_hex(s) {
        Some(hex_number(s) as u128)
    } else if s.len() == 36 && is_hyphenated(s) {
        Some(hyphenated_value(s) as u128)
    } else if s.len() == 38 && s[0] == '{' && s[37] == '}' && is_hyphenated(s.subrange(1, 37)) {
        Some(hyphenated_value(s.subrange(1, 37)) as u128)
    } else if s.len() == 45 && is_urn_prefix(s.subrange(0, 9)) && is_hyphenated(s.subrange(9, 45)) {
        Some(hyphenated_value(s.subrange(9, 45)) as u128)
    } else {
        None
    }
}

proof fn lemma_pow16_positive(n: nat)
    ensures
        pow16(n) > 0,
    decreases n,
{
    if n > 0 {
        lemma_pow16_positive((n - 1) as nat);
    }
}

proof fn lemma_pow16_add(a: nat, b: nat)
    ensures
        pow16(a + b) == pow16(a) * pow16(b),
    decreases a,
{
    if a > 0 {
        lemma_pow16_add((a - 1) as nat, b);
        assert(pow16(a + b) == 16 * pow16((a - 1 + b) as nat));
        assert(16 * (pow16((a - 1) as nat) * pow16(b)) == (16 * pow16((a - 1) as nat)) * pow16(b))
            by (nonlinear_arith);
    } else {
        assert(a + b == b);
        assert(pow16(a) == 1);
    }
}

proof fn lemma_hex_text_len(v: nat, n: nat)
    ensures
        hex_text(v, n).len() == n,
    decreases n,
{
    if n > 0 {
        lemma_hex_text_len(v / 16, (n - 1) as nat);
    }
}

proof fn lemma_hex_text_digits(v: nat, n: nat)
    ensures
        forall|i: int| 0 <= i < n ==> is_hex_char(#[trigger] hex_text(v, n)[i]),
    decreases n,
{
    if n > 0 {
        lemma_hex_text_digits(v / 16, (n - 1) as nat);
        lemma_hex_text_len(v / 16, (n - 1) as nat);
        let d = v % 16;
        assert(is_hex_char(hex_char(d)));
    }
}

/// Splitting the digits of `v`: the first `a` of the last `a + b` digits are
/// the last `a` digits of `v / 16^b`.
proof fn lemma_hex_text_split(v: nat, a: nat, b: nat)
    ensures
        hex_text(v, a + b) == hex_text(v / pow16(b), a) + hex_text(v, b),
    decreases b,
{
    if b == 0 {
        assert(v / 1 == v);
        assert(hex_text(v, a) == hex_text(v, a) + Seq::<char>::empty());
    } else {
        lemma_hex_text_split(v / 16, a, (b - 1) as nat);
        lemma_pow16_positive((b - 1) as nat);
        lemma_div_denominator(v as int, 16, pow16((b - 1) as nat) as int);
        assert(hex_text(v, a + b) == hex_text(v / 16, (a + b - 1) as nat).push(hex_char(v % 16)));
        assert(hex_text(v, b) == hex_text(v / 16, (b - 1) as nat).push(hex_char(v % 16)));
        assert(hex_text(v, a + b) == hex_text(v / pow16(b), a) + hex_text(v, b));
    }
}

/// The digits of `v` spell `v` modulo `16^n`.
proof fn lemma_hex_number_of_text(v: nat, n: nat)
    ensures
        hex_number(hex_text(v, n)) == v % pow16(n),
    decreases n,
{
    if n == 0 {
        lemma_small_mod(0, 1);
    } else {
        let t = hex_text(v, n);
        lemma_hex_number_of_text(v / 16, (n - 1) as nat);
        lemma_pow16_positive((n - 1) as nat);
        assert(t.drop_last() == hex_text(v / 16, (n - 1) as nat));
        let d = v % 16;
        assert(hex_value(hex_char(d)) == d);
        lemma_mod_breakdown(v as int, 16, pow16((n - 1) as nat) as int);
    }
}

/// The hyphenated text of a value is in hyphenated form and spells that
/// value, so reading it back gives the value.
pub proof fn lemma_hyphenated_round_trip(v: u128)
    ensures
        is_hyphenated(hyphenated_text(v)),
        hyphenated_value(hyphenated_text(v)) == v,
        uuid_text_value(hyphenated_text(v)) == Some(v),
{
    let x = v as nat;
    let s = hyphenated_text(v);
    lemma_hex_text_len(x / pow16(24), 8);
    lemma_hex_text_len(x / pow16(20), 4);
    lemma_hex_text_len(x / pow16(16), 4);
    lemma_hex_text_len(x / pow16(12), 4);
    lemma_hex_text_len(x, 12);
    lemma_hex_text_digits(x / pow16(24), 8);
    lemma_hex_text_digits(x / pow16(20), 4);
    lemma_hex_text_digits(x / pow16(16), 4);
    lemma_hex_text_digits(x / pow16(12), 4);
    lemma_hex_text_digits(x, 12);
    assert(s.len() == 36);
    assert forall|i: int| 0 <= i < 36 implies if is_hyphen_position(i) {
        s[i] == '-'
    } else {
        is_hex_char(#[trigger] s[i])
    } by {
        if i < 8 {
            assert(s[i] == hex_text(x / pow16(24), 8)[i]);
        } else if i < 9 {
        } else if i < 13 {
            assert(s[i] == hex_text(x / pow16(20), 4)[i - 9]);
        } else if i < 14 {
        } else if i < 18 {
            assert(s[i] == hex_text(x / pow16(16), 4)[i - 14]);
        } else if i < 19 {
        } else if i < 23 {
            assert(s[i] == hex_text(x / pow16(12), 4)[i - 19]);
        } else if i < 24 {
        } else {
            assert(s[i] == hex_text(x, 12)[i - 24]);
        }
    }
    // the digits without hyphens are the last 32 hex digits of the value
    lemma_hex_text_split(x, 20, 12);
    lemma_hex_text_split(x / pow16(12), 16, 4);
    lemma_hex_text_split(x / pow16(16), 12, 4);
    lemma_hex_text_split(x / pow16(20), 8, 4);
    assert(x / pow16(12) / pow16(4) == x / pow16(16)) by {
        lemma_pow16_positive(12);
        lemma_pow16_positive(4);
        lemma_pow16_add(12, 4);
        lemma_div_denominator(x as int, pow16(12) as int, pow16(4) as int);
    }
    assert(x / pow16(16) / pow16(4) == x / pow16(20)) by {
        lemma_pow16_positive(16);
        lemma_pow16_positive(4);
        lemma_pow16_add(16, 4);
        lemma_div_denominator(x as int, pow16(16) as int, pow16(4) as int);
    }
    assert(x / pow16(20) / pow16(4) == x / pow16(24)) by {
        lemma_pow16_positive(20);
        lemma_pow16_positive(4);
        lemma_pow16_add(20, 4);
        lemma_div_denominator(x as int, pow16(20) as int, pow16(4) as int);
    }
    assert(hyphenated_digits(s) == hex_text(x, 32));
    lemma_hex_number_of_text(x, 32);
    reveal_with_fuel(pow16, 33);
    lemma_small_mod(x, pow16(32));
}

} // verus!
