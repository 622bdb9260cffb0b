//! Textual form of natural numbers in a radix, and the bit length of a
//! natural number. These spec functions are the model against which the
//! rendered decimal and hexadecimal key parameters are stated.

use vstd::prelude::*;

verus! {

/// The character for a single digit value below sixteen, lowercase.
pub open spec fn digit_char(d: nat) -> char {
    if d == 0 {
        '0'
    } else if d == 1 {
        '1'
    } else if d == 2 {
        '2'
    } else if d == 3 {
        '3'
    } else if d == 4 {
        '4'
    } else if d == 5 {
        '5'
    } else if d == 6 {
        '6'
    } else if d == 7 {
        '7'
    } else if d == 8 {
        '8'
    } else if d == 9 {
        '9'
    } else if d == 10 {
        'a'
    } else if d == 11 {
        'b'
    } else if d == 12 {
        'c'
    } else if d == 13 {
        'd'
    } else if d == 14 {
        'e'
    } else if d == 15 {
        'f'
    } else {
        '0'
    }
}

/// The digit value of a character, zero for anything that is not a
/// lowercase digit below sixteen.
pub open spec fn char_digit(c: char) -> nat {
    if c == '1' {
        1
    } else if c == '2' {
        2
    } else if c == '3' {
        3
    } else if c == '4' {
        4
    } else if c == '5' {
        5
    } else if c == '6' {
        6
    } else if c == '7' {
        7
    } else if c == '8' {
        8
    } else if c == '9' {
        9
    } else if c == 'a' {
        10
    } else if c == 'b' {
        11
    } else if c == 'c' {
        12
    } else if c == 'd' {
        13
    } else if c == 'e' {
        14
    } else if c == 'f' {
        15
    } else {
        0
    }
}

/// The rendering of `n` in base `base`: most significant digit first, no
/// leading zeros, and a single `'0'` for zero.
pub open spec fn radix_seq(n: nat, base: nat) -> Seq<char>
    recommends
        2 <= base <= 16,
    decreases n,
    when 2 <= base
    via radix_seq_decreases
{
    if n < base {
        seq![digit_char(n)]
    } else {
        radix_seq(n / base, base).push(digit_char(n % base))
    }
}

#[via_fn]
proof fn radix_seq_decreases(n: nat, base: nat) {
    if n >= base {
        vstd::arithmetic::div_mod::lemma_div_is_strictly_smaller(n as int, base as int);
    }
}

/// The value of a digit string read in base `base`; an empty string reads
/// as zero.
pub open spec fn parse_radix(s: Seq<char>, base: nat) -> nat
    decreases s.len(),
{
    if s.len() == 0 {
        0
    } else {
        parse_radix(s.drop_last(), base) * base + char_digit(s.last())
    }
}

/// The value of a digit string read as decimal.
pub open spec fn dec_val(s: Seq<char>) -> nat {
    parse_radix(s, 10)
}

/// The value of a digit string read as hexadecimal.
pub open spec fn hex_val(s: Seq<char>) -> nat {
    parse_radix(s, 16)
}

/// The number of bits needed to represent `n`; zero for zero.
pub open spec fn bit_len(n: nat) -> nat
    decreases n,
{
    if n == 0 {
        0
    } else {
        1 + bit_len(n / 2)
    }
}

/// Two to the power `k`.
pub open spec fn pow2(k: nat) -> nat
    decreases k,
{
    if k == 0 {
        1
    } else {
        2 * pow2((k - 1) as nat)
    }
}

/// The bit length brackets its number: a positive `n` lies between
/// `pow2(bit_len(n) - 1)` inclusive and `pow2(bit_len(n))` exclusive.
pub proof fn lemma_bit_len_brackets(n: nat)
    requires
        n >= 1,
    ensures
        bit_len(n) >= 1,
        pow2((bit_len(n) - 1) as nat) <= n < pow2(bit_len(n)),
    decreases n,
{
    if n == 1 {
        assert(bit_len(1) == 1 + bit_len(0));
        assert(bit_len(0) == 0);
        assert(pow2(0) == 1);
        assert(pow2(1) == 2);
        assert(pow2((bit_len(n) - 1) as nat) <= n < pow2(bit_len(n)));
    } else {
        lemma_bit_len_brackets(n / 2);
        let b = bit_len(n / 2);
        assert(n == 2 * (n / 2) + n % 2);
        assert(n / 2 <= pow2(b) - 1);
        assert(n <= 2 * pow2(b) - 1);
        assert(pow2(b + 1) == 2 * pow2(b));
        assert(pow2(b) == 2 * pow2((b - 1) as nat));
        assert(n >= 2 * pow2((b - 1) as nat));
        assert(bit_len(n) == 1 + b);
        assert(pow2((bit_len(n) - 1) as nat) == pow2(b));
        assert(pow2((bit_len(n) - 1) as nat) <= n < pow2(bit_len(n)));
    }
}

/// A number below `pow2(k)` has at most `k` bits.
pub proof fn lemma_bit_len_below(n: nat, k: nat)
    requires
        n < pow2(k),
    ensures
        bit_len(n) <= k,
    decreases n,
{
    if n >= 1 {
        assert(k >= 1) by {
            if k == 0 {
                assert(pow2(0) == 1);
            }
        }
        assert(pow2(k) == 2 * pow2((k - 1) as nat));
        assert(n / 2 < pow2((k - 1) as nat));
        lemma_bit_len_below(n / 2, (k - 1) as nat);
    }
}

/// A number at least `pow2(k)` has more than `k` bits.
pub proof fn lemma_bit_len_at_least(n: nat, k: nat)
    requires
        n >= pow2(k),
    ensures
        bit_len(n) >= k + 1,
    decreases k,
{
    if k == 0 {
        assert(n >= 1);
    } else {
        assert(pow2(k) == 2 * pow2((k - 1) as nat));
        assert(n / 2 >= pow2((k - 1) as nat));
        lemma_bit_len_at_least(n / 2, (k - 1) as nat);
        assert(n != 0);
    }
}

/// Powers of two multiply by adding exponents.
pub proof fn lemma_pow2_adds(a: nat, b: nat)
    ensures
        pow2(a) * pow2(b) == pow2(a + b),
    decreases a,
{
    if a == 0 {
        assert(pow2(0) == 1);
        assert(pow2(a + b) == pow2(b));
        assert(pow2(a) * pow2(b) == pow2(a + b));
    } else {
        lemma_pow2_adds((a - 1) as nat, b);
        assert(pow2(a) * pow2(b) == 2 * (pow2((a - 1) as nat) * pow2(b))) by (nonlinear_arith)
            requires
                pow2(a) == 2 * pow2((a - 1) as nat),
        ;
        assert(pow2(a + b) == 2 * pow2((a + b - 1) as nat));
        assert((a - 1) as nat + b == (a + b - 1) as nat);
        assert(pow2(a) * pow2(b) == pow2(a + b));
    }
}

/// The bit length of a product of two positive numbers is the sum of their
/// bit lengths, or one less.
pub proof fn lemma_bit_len_product(p: nat, q: nat)
    requires
        p >= 1,
        q >= 1,
    ensures
        bit_len(p) + bit_len(q) - 1 <= bit_len(p * q) <= bit_len(p) + bit_len(q),
{
    lemma_bit_len_brackets(p);
    lemma_bit_len_brackets(q);
    let bp = bit_len(p);
    let bq = bit_len(q);
    lemma_pow2_adds(bp, bq);
    lemma_pow2_adds((bp - 1) as nat, (bq - 1) as nat);
    assert(p * q < pow2(bp) * pow2(bq)) by (nonlinear_arith)
        requires
            1 <= p < pow2(bp),
            1 <= q < pow2(bq),
    ;
    lemma_bit_len_below(p * q, bp + bq);
    assert(p * q >= pow2((bp - 1) as nat) * pow2((bq - 1) as nat)) by (nonlinear_arith)
        requires
            p >= pow2((bp - 1) as nat),
            q >= pow2((bq - 1) as nat),
    ;
    lemma_bit_len_at_least(p * q, ((bp - 1) + (bq - 1)) as nat);
}

/// A digit below sixteen survives the round trip through its character.
pub proof fn lemma_digit_char_inverse(d: nat)
    requires
        d < 16,
    ensures
        char_digit(digit_char(d)) == d,
{
}

/// Reading the rendering of `n` back in the same base yields `n`: the
/// textual forms produced here denote exactly the numbers they came from.
pub proof fn lemma_radix_round_trip(n: nat, base: nat)
    requires
        2 <= base <= 16,
    ensures
        parse_radix(radix_seq(n, base), base) == n,
    decreases n,
{
    if n < base {
        lemma_digit_char_inverse(n);
        let s = radix_seq(n, base);
        assert(s =~= seq![digit_char(n)]);
        assert(s.drop_last() =~= Seq::<char>::empty());
        assert(parse_radix(s, base) == parse_radix(s.drop_last(), base) * base + char_digit(
            s.last(),
        ));
        assert(parse_radix(s.drop_last(), base) == 0);
        assert(s.last() == digit_char(n));
        assert(char_digit(s.last()) == n);
        assert(parse_radix(s, base) == 0 * base + n);
    } else {
        vstd::arithmetic::div_mod::lemma_div_is_strictly_smaller(n as int, base as int);
        lemma_radix_round_trip(n / base, base);
        lemma_digit_char_inverse(n % base);
        let s0 = radix_seq(n / base, base);
        let s = s0.push(digit_char(n % base));
        assert(radix_seq(n, base) == s);
        assert(s.drop_last() =~= s0);
        assert(s.last() == digit_char(n % base));
        assert(parse_radix(s, base) == parse_radix(s0, base) * base + char_digit(
            digit_char(n % base),
        ));
        assert(parse_radix(s, base) == (n / base) * base + (n % base));
        vstd::arithmetic::div_mod::lemma_fundamental_div_mod(n as int, base as int);
        assert(n == base * (n / base) + n % base);
    }
}

} // verus!
