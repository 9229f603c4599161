//! Fixed-width hexadecimal rendering of machine words.
//!
//! Session-token payloads carry their numeric fields (expiry, field
//! lengths) as exactly sixteen hexadecimal characters, so that a payload
//! can be taken apart again without any separator convention.  This
//! module provides the encoding, the parser, and the round-trip proof.

use vstd::prelude::*;
use vstd::arithmetic::div_mod::{lemma_breakdown, lemma_small_mod};

verus! {

/// Whether `c` is one of the sixteen lower-case hexadecimal digits.
pub open spec fn is_hex_char(c: char) -> bool {
    c == '0' || c == '1' || c == '2' || c == '3' || c == '4' || c == '5' || c == '6' || c == '7'
        || c == '8' || c == '9' || c == 'a' || c == 'b' || c == 'c' || c == 'd' || c == 'e'
        || c == 'f'
}

/// Numeric value of a hexadecimal digit character (zero if `c` is none).
pub open spec fn hex_char_val(c: char) -> u64 {
    if c == '0' {
        0
    } else if c == '1' {
        1
    } else if c == '2' {
        2
    } else if c == '3' {
        3
    } else if c == '4' {
        4
    } else if c == '5' {
        5
    } else if c == '6' {
        6
    } else if c == '7' {
        7
    } else if c == '8' {
        8
    } else if c == '9' {
        9
    } else if c == 'a' {
        10
    } else if c == 'b' {
        11
    } else if c == 'c' {
        12
    } else if c == 'd' {
        13
    } else if c == 'e' {
        14
    } else if c == 'f' {
        15
    } else {
        0
    }
}

/// The digit character for a value below sixteen.
pub open spec fn hex_char_of(v: u64) -> char
    recommends
        v < 16,
{
    if v == 0 {
        '0'
    } else if v == 1 {
        '1'
    } else if v == 2 {
        '2'
    } else if v == 3 {
        '3'
    } else if v == 4 {
        '4'
    } else if v == 5 {
        '5'
    } else if v == 6 {
        '6'
    } else if v == 7 {
        '7'
    } else if v == 8 {
        '8'
    } else if v == 9 {
        '9'
    } else if v == 10 {
        'a'
    } else if v == 11 {
        'b'
    } else if v == 12 {
        'c'
    } else if v == 13 {
        'd'
    } else if v == 14 {
        'e'
    } else {
        'f'
    }
}

/// `n` hexadecimal digits of `v`, most significant digit first;
/// `v` is taken modulo `16^n`.
pub open spec fn hex_seq_of(v: u64, n: nat) -> Seq<char>
    decreases n,
{
    if n == 0 {
        Seq::empty()
    } else {
        hex_seq_of(v / 16, (n - 1) as nat).push(hex_char_of(v % 16))
    }
}

/// Every character of `s` is a hexadecimal digit.
pub open spec fn is_hex_seq(s: Seq<char>) -> bool {
    forall|i: int| 0 <= i < s.len() ==> is_hex_char(#[trigger] s[i])
}

/// Value of a digit sequence, most significant digit first.
pub open spec fn hex_seq_val(s: Seq<char>) -> int
    decreases s.len(),
{
    if s.len() == 0 {
        0
    } else {
        hex_seq_val(s.drop_last()) * 16 + hex_char_val(s.last())
    }
}

/// `16^n`.
pub open spec fn pow16(n: nat) -> int
    decreases n,
{
    if n == 0 {
        1
    } else {
        16 * pow16((n - 1) as nat)
    }
}

pub proof fn lemma_pow16_positive(n: nat)
    ensures
        pow16(n) >= 1,
    decreases n,
{
    if n > 0 {
        lemma_pow16_positive((n - 1) as nat);
    }
}

pub proof fn lemma_pow16_increases(a: nat, b: nat)
    requires
        a <= b,
    ensures
        pow16(a) <= pow16(b),
    decreases b,
{
    lemma_pow16_positive(a);
    if a < b {
        lemma_pow16_increases(a, (b - 1) as nat);
        lemma_pow16_positive((b - 1) as nat);
    }
}

/// `16^16` is exactly one beyond `u64::MAX`.
pub proof fn lemma_pow16_16()
    ensures
        pow16(16) == 0x1_0000_0000_0000_0000,
{
    reveal_with_fuel(pow16, 17);
}

pub proof fn lemma_hex_seq_of_props(v: u64, n: nat)
    ensures
        hex_seq_of(v, n).len() == n,
        is_hex_seq(hex_seq_of(v, n)),
    decreases n,
{
    if n > 0 {
        lemma_hex_seq_of_props(v / 16, (n - 1) as nat);
        let s = hex_seq_of(v, n);
        let prefix = hex_seq_of(v / 16, (n - 1) as nat);
        assert forall|i: int| 0 <= i < s.len() implies is_hex_char(#[trigger] s[i]) by {
            if i < n - 1 {
                assert(s[i] == prefix[i]);
            } else {
                assert(s[i] == hex_char_of(v % 16));
            }
        }
    }
}

pub proof fn lemma_hex_seq_val_bound(s: Seq<char>)
    ensures
        0 <= hex_seq_val(s) < pow16(s.len()),
    decreases s.len(),
{
    if s.len() == 0 {
    } else {
        lemma_hex_seq_val_bound(s.drop_last());
    }
}

/// Parsing the rendering of `v` gives back `v` modulo `16^n`.
pub proof fn lemma_hex_roundtrip(v: u64, n: nat)
    ensures
        hex_seq_val(hex_seq_of(v, n)) == (v as int) % pow16(n),
    decreases n,
{
    if n == 0 {
        assert(pow16(0) == 1);
        assert((v as int) % 1 == 0) by (nonlinear_arith);
    } else {
        lemma_hex_roundtrip(v / 16, (n - 1) as nat);
        let s = hex_seq_of(v, n);
        let prefix = hex_seq_of(v / 16, (n - 1) as nat);
        assert(s.drop_last() =~= prefix);
        assert(s.last() == hex_char_of(v % 16));
        assert(hex_char_val(hex_char_of(v % 16)) == v % 16);
        lemma_pow16_positive((n - 1) as nat);
        lemma_breakdown(v as int, 16, pow16((n - 1) as nat));
        assert(pow16(n) == 16 * pow16((n - 1) as nat));
        assert((v as int) % pow16(n) == 16 * (((v as int) / 16) % pow16((n - 1) as nat)) + (
        v as int) % 16);
    }
}

/// Rendering a `u64` over sixteen digits loses nothing.
pub proof fn lemma_hex16_roundtrip(v: u64)
    ensures
        hex_seq_val(hex_seq_of(v, 16)) == v,
{
    lemma_hex_roundtrip(v, 16);
    lemma_pow16_16();
    lemma_small_mod(v as nat, 0x1_0000_0000_0000_0000 as nat);
}

/// The single-character string for one hexadecimal digit.
fn hex_char_str(d: u64) -> (r: &'static str)
    requires
        d < 16,
    ensures
        r@ =~= seq![hex_char_of(d)],
{
    proof {
        reveal_strlit("0");
        reveal_strlit("1");
        reveal_strlit("2");
        reveal_strlit("3");
        reveal_strlit("4");
        reveal_strlit("5");
        reveal_strlit("6");
        reveal_strlit("7");
        reveal_strlit("8");
        reveal_strlit("9");
        reveal_strlit("a");
        reveal_strlit("b");
        reveal_strlit("c");
        reveal_strlit("d");
        reveal_strlit("e");
        reveal_strlit("f");
    }
    if d == 0 {
        "0"
    } else if d == 1 {
        "1"
    } else if d == 2 {
        "2"
    } else if d == 3 {
        "3"
    } else if d == 4 {
        "4"
    } else if d == 5 {
        "5"
    } else if d == 6 {
        "6"
    } else if d == 7 {
        "7"
    } else if d == 8 {
        "8"
    } else if d == 9 {
        "9"
    } else if d == 10 {
        "a"
    } else if d == 11 {
        "b"
    } else if d == 12 {
        "c"
    } else if d == 13 {
        "d"
    } else if d == 14 {
        "e"
    } else {
        "f"
    }
}

fn hex_encode_digits(v: u64, n: u64) -> (s: String)
    ensures
        s@ == hex_seq_of(v, n as nat),
    decreases n,
{
    if n == 0 {
        String::new()
    } else {
        let mut s = hex_encode_digits(v / 16, n - 1);
        s.append(hex_char_str(v % 16));
        proof {
            assert(s@ =~= hex_seq_of(v, n as nat));
        }
        s
    }
}

/// Renders `v` as exactly sixteen hexadecimal characters.
pub fn hex16_encode(v: u64) -> (s: String)
    ensures
        s@ == hex_seq_of(v, 16),
        s@.len() == 16,
{
    proof {
        lemma_hex_seq_of_props(v, 16);
    }
    hex_encode_digits(v, 16)
}

/// Digit value of `c`, or `None` if `c` is not a hexadecimal digit.
fn hex_char_value(c: char) -> (r: Option<u64>)
    ensures
        r matches Some(d) ==> is_hex_char(c) && d == hex_char_val(c),
        r is None ==> !is_hex_char(c),
{
    match c {
        '0' => Some(0),
        '1' => Some(1),
        '2' => Some(2),
        '3' => Some(3),
        '4' => Some(4),
        '5' => Some(5),
        '6' => Some(6),
        '7' => Some(7),
        '8' => Some(8),
        '9' => Some(9),
        'a' => Some(10),
        'b' => Some(11),
        'c' => Some(12),
        'd' => Some(13),
        'e' => Some(14),
        'f' => Some(15),
        _ => None,
    }
}

/// Reads the sixteen characters of `s` starting at `start` as one
/// hexadecimal number.
pub fn hex16_parse(s: &str, start: usize) -> (r: Option<u64>)
    requires
        start + 16 <= s@.len(),
        start + 16 <= usize::MAX,
    ensures
        r matches Some(v) ==> is_hex_seq(s@.subrange(start as int, start + 16))
            && v == hex_seq_val(s@.subrange(start as int, start + 16)),
        r is None ==> !is_hex_seq(s@.subrange(start as int, start + 16)),
{
    let ghost whole = s@.subrange(start as int, start + 16);
    let mut acc: u64 = 0;
    let mut i: usize = 0;
    while i < 16
        invariant
            0 <= i <= 16,
            start + 16 <= s@.len(),
            start + 16 <= usize::MAX,
            whole == s@.subrange(start as int, start + 16),
            is_hex_seq(whole.take(i as int)),
            acc == hex_seq_val(whole.take(i as int)),
            acc < pow16(i as nat),
        decreases 16 - i,
    {
        let c = s.get_char(start + i);
        proof {
            assert(whole[i as int] == s@[start + i]);
        }
        match hex_char_value(c) {
            Some(d) => {
                proof {
                    assert(whole.take(i + 1).drop_last() =~= whole.take(i as int));
                    assert(whole.take(i + 1).last() == whole[i as int]);
                    lemma_pow16_increases((i + 1) as nat, 16);
                    lemma_pow16_16();
                    assert(pow16((i + 1) as nat) == 16 * pow16(i as nat));
                }
                acc = acc * 16 + d;
            },
            None => {
                proof {
                    assert(!is_hex_char(whole[i as int]));
                }
                return None;
            },
        }
        i += 1;
    }
    proof {
        assert(whole.take(16) =~= whole);
    }
    Some(acc)
}

} // verus!
