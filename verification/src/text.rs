//! Rendering of numbers into message text.
use vstd::prelude::*;

verus! {

/// The character of a digit value below sixteen (lower-case hexadecimal above nine).
pub open spec fn digit_char(d: int) -> char {
    if d == 0 { '0' }
    else if d == 1 { '1' }
    else if d == 2 { '2' }
    else if d == 3 { '3' }
    else if d == 4 { '4' }
    else if d == 5 { '5' }
    else if d == 6 { '6' }
    else if d == 7 { '7' }
    else if d == 8 { '8' }
    else if d == 9 { '9' }
    else if d == 10 { 'a' }
    else if d == 11 { 'b' }
    else if d == 12 { 'c' }
    else if d == 13 { 'd' }
    else if d == 14 { 'e' }
    else { 'f' }
}

/// Decimal digits of `n`, most significant first, without leading zeros.
pub open spec fn decimal(n: nat) -> Seq<char>
    decreases n,
{
    if n < 10 {
        seq![digit_char(n as int)]
    } else {
        decimal(n / 10).push(digit_char((n % 10) as int))
    }
}

/// The lowest `count` hexadecimal digits of `v`, most significant first, zero-padded.
pub open spec fn hex_digits(v: nat, count: nat) -> Seq<char>
    decreases count,
{
    if count == 0 {
        Seq::empty()
    } else {
        hex_digits(v / 16, (count - 1) as nat).push(digit_char((v % 16) as int))
    }
}

/// The value of a digit character: `0`-`9`, then `a`-`f` for ten to fifteen.
pub open spec fn char_value(c: char) -> int {
    if '0' <= c && c <= '9' {
        (c as int) - ('0' as int)
    } else {
        (c as int) - ('a' as int) + 10
    }
}

/// Whether `c` is a digit character of the given base (ten or sixteen).
pub open spec fn is_digit_of(c: char, base: int) -> bool {
    ('0' <= c && c <= '9') || (base == 16 && 'a' <= c && c <= 'f')
}

/// The number that `digits` write in `base`, most significant digit first.
pub open spec fn digits_value(digits: Seq<char>, base: int) -> int
    decreases digits.len(),
{
    if digits.len() == 0 {
        0
    } else {
        digits_value(digits.drop_last(), base) * base + char_value(digits.last())
    }
}

/// Each digit value below sixteen has a character that reads back as it.
pub proof fn lemma_digit_char_reads_back(d: int)
    requires
        0 <= d < 16,
    ensures
        is_digit_of(digit_char(d), 16),
        d < 10 ==> is_digit_of(digit_char(d), 10),
        char_value(digit_char(d)) == d,
{
}

/// The decimal rendering of `n` reads back as `n`: only decimal digits, no
/// leading zero but for zero itself.
pub proof fn lemma_decimal_reads_back(n: nat)
    ensures
        decimal(n).len() >= 1,
        forall|i: int| 0 <= i < decimal(n).len() ==> is_digit_of(#[trigger] decimal(n)[i], 10),
        digits_value(decimal(n), 10) == n,
        n > 0 ==> decimal(n)[0] != '0',
    decreases n,
{
    if n < 10 {
        lemma_digit_char_reads_back(n as int);
        assert(decimal(n).drop_last() =~= Seq::<char>::empty());
        assert(digits_value(Seq::<char>::empty(), 10) == 0);
        assert(digits_value(decimal(n), 10) == char_value(digit_char(n as int)));
    } else {
        lemma_decimal_reads_back(n / 10);
        lemma_digit_char_reads_back((n % 10) as int);
        let rest = decimal(n / 10);
        assert(decimal(n).drop_last() =~= rest);
        assert(decimal(n)[0] == rest[0]);
        assert(decimal(n).last() == digit_char((n % 10) as int));
        assert(digits_value(decimal(n), 10) == (n / 10) as int * 10 + (n % 10) as int);
    }
}

/// The hexadecimal rendering of `v` in `count` digits has exactly `count`
/// lower-case hexadecimal digits and reads back as `v` modulo sixteen to the
/// `count`.
pub proof fn lemma_hex_digits_read_back(v: nat, count: nat)
    ensures
        hex_digits(v, count).len() == count,
        forall|i: int|
            0 <= i < hex_digits(v, count).len() ==> is_digit_of(#[trigger] hex_digits(v, count)[i], 16),
        digits_value(hex_digits(v, count), 16) == (v as int) % vstd::arithmetic::power::pow(16, count),
    decreases count,
{
    vstd::arithmetic::power::lemma_pow0(16);
    if count > 0 {
        lemma_hex_digits_read_back(v / 16, (count - 1) as nat);
        lemma_digit_char_reads_back((v % 16) as int);
        let rest = hex_digits(v / 16, (count - 1) as nat);
        assert(hex_digits(v, count).drop_last() =~= rest);
        let p = vstd::arithmetic::power::pow(16, (count - 1) as nat);
        vstd::arithmetic::power::lemma_pow_positive(16, (count - 1) as nat);
        vstd::arithmetic::power::lemma_pow_adds(16, 1, (count - 1) as nat);
        vstd::arithmetic::power::lemma_pow1(16);
        lemma_mod_place(v as int, p);
    }
}

/// Peeling the lowest base-sixteen digit: `v mod 16p == (v/16 mod p) * 16 + v mod 16`.
proof fn lemma_mod_place(v: int, p: int)
    requires
        v >= 0,
        p > 0,
    ensures
        v % (16 * p) == (v / 16) % p * 16 + v % 16,
{
    vstd::arithmetic::div_mod::lemma_breakdown(v, 16, p);
}

/// The one-character text of a digit value below sixteen.
fn digit(d: u32) -> (c: &'static str)
    requires
        d < 16,
    ensures
        c@ == seq![digit_char(d as int)],
{
    match d {
        0 => {
            proof {
                reveal_strlit("0");
            }
            "0"
        },
        1 => {
            proof {
                reveal_strlit("1");
            }
            "1"
        },
        2 => {
            proof {
                reveal_strlit("2");
            }
            "2"
        },
        3 => {
            proof {
                reveal_strlit("3");
            }
            "3"
        },
        4 => {
            proof {
                reveal_strlit("4");
            }
            "4"
        },
        5 => {
            proof {
                reveal_strlit("5");
            }
            "5"
        },
        6 => {
            proof {
                reveal_strlit("6");
            }
            "6"
        },
        7 => {
            proof {
                reveal_strlit("7");
            }
            "7"
        },
        8 => {
            proof {
                reveal_strlit("8");
            }
            "8"
        },
        9 => {
            proof {
                reveal_strlit("9");
            }
            "9"
        },
        10 => {
            proof {
                reveal_strlit("a");
            }
            "a"
        },
        11 => {
            proof {
                reveal_strlit("b");
            }
            "b"
        },
        12 => {
            proof {
                reveal_strlit("c");
            }
            "c"
        },
        13 => {
            proof {
                reveal_strlit("d");
            }
            "d"
        },
        14 => {
            proof {
                reveal_strlit("e");
            }
            "e"
        },
        _ => {
            proof {
                reveal_strlit("f");
            }
            "f"
        },
    }
}

/// Appends the decimal rendering of `n`.
pub fn push_decimal(s: &mut String, n: u32)
    ensures
        final(s)@ == old(s)@ + decimal(n as nat),
    decreases n,
{
    if n >= 10 {
        push_decimal(s, n / 10);
    }
    s.append(digit(n % 10));
}

/// Appends the lowest `count` hexadecimal digits of `v`, zero-padded.
pub fn push_hex(s: &mut String, v: u32, count: u32)
    ensures
        final(s)@ == old(s)@ + hex_digits(v as nat, count as nat),
    decreases count,
{
    if count > 0 {
        push_hex(s, v / 16, count - 1);
        s.append(digit(v % 16));
    }
}

} // verus!
