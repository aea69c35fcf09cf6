//! Positional notation in a radix from 2 to 16: the digits of a natural number, most
//! significant first, and the digits of a fraction over `65536`, after the point.
use vstd::arithmetic::power::pow;
use vstd::prelude::*;

verus! {

/// Whether `radix` is one that digits exist for.
pub open spec fn valid_radix(radix: int) -> bool {
    2 <= radix <= 16
}

/// The character of the digit `d`: `0` to `9`, then `a` to `f`, or `A` to `F` where
/// `uppercase` is set.
pub open spec fn digit_char(d: int, uppercase: bool) -> char {
    if d < 10 {
        (0x30 + d) as char
    } else if uppercase {
        (0x41 + d - 10) as char
    } else {
        (0x61 + d - 10) as char
    }
}

/// The digits of `n` in `radix`, most significant first, without leading zeros; zero
/// has the one digit `0`.
pub open spec fn nat_digits(n: nat, radix: nat) -> Seq<int>
    recommends
        radix >= 2,
    decreases n,
    via nat_digits_decreases
{
    if n < radix || radix < 2 {
        seq![n as int]
    } else {
        nat_digits(n / radix, radix).push((n % radix) as int)
    }
}

#[via_fn]
proof fn nat_digits_decreases(n: nat, radix: nat) {
    if !(n < radix || radix < 2) {
        vstd::arithmetic::div_mod::lemma_div_decreases(n as int, radix as int);
    }
}

/// `n` written in `radix`.
pub open spec fn nat_text(n: nat, radix: nat, uppercase: bool) -> Seq<char> {
    nat_digits(n, radix).map_values(|d: int| digit_char(d, uppercase))
}

/// `v` written in decimal, with a minus sign before a negative value.
pub open spec fn int_text(v: int) -> Seq<char> {
    if v < 0 {
        seq!['-'] + nat_text((-v) as nat, 10, false)
    } else {
        nat_text(v as nat, 10, false)
    }
}

/// Digit `k` after the point (counted from zero) of `n / 65536` written in `radix`.
pub open spec fn fract_digit(n: int, radix: int, k: nat) -> int {
    (n * pow(radix, k + 1) / 0x1_0000) % radix
}

/// What is left to write of `n / 65536` after `k` digits: the remainder of the long
/// division at that place, a numerator over `65536`.
pub open spec fn fract_rest(n: int, radix: int, k: nat) -> int {
    (n * pow(radix, k)) % 0x1_0000
}

/// The first `len` digits after the point of `n / 65536` written in `radix`.
pub open spec fn fract_text(n: int, radix: int, uppercase: bool, len: nat) -> Seq<char> {
    Seq::new(len, |k: int| digit_char(fract_digit(n, radix, k as nat), uppercase))
}

/// Whether `n / 65536` is written out in full by exactly `len` digits after the point:
/// nothing is left after them, and something was left after any fewer.
pub open spec fn is_full_expansion(n: int, radix: int, len: nat) -> bool {
    &&& fract_rest(n, radix, len) == 0
    &&& forall|j: nat| j < len ==> fract_rest(n, radix, j) != 0
}

/// The number of digits after the point that write `n / 65536` out in full, where there
/// is such a number.
pub open spec fn expansion_len(n: int, radix: int) -> nat {
    choose|len: nat| is_full_expansion(n, radix, len)
}

/// What follows the point when `n / 65536` is written in `radix`.
///
/// With a limit of `max` it is the first `max` digits exactly, which cuts a longer
/// expansion short and fills a shorter one with zeros; nothing is rounded. Without a
/// limit the digits run until nothing is left to write, and zero is the single
/// digit `0`.
pub open spec fn fraction_text(
    n: int,
    radix: int,
    uppercase: bool,
    limit: Option<usize>,
) -> Seq<char> {
    match limit {
        Some(max) => fract_text(n, radix, uppercase, max as nat),
        None => if n == 0 {
            seq!['0']
        } else {
            fract_text(n, radix, uppercase, expansion_len(n, radix))
        },
    }
}

/// Whether `n / 65536` can be written in `radix` under the given limit. In an odd radix
/// the digits of a fraction other than zero never end, so there a limit is needed.
pub open spec fn can_write(n: int, radix: int, limit: Option<usize>) -> bool {
    valid_radix(radix) && (radix % 2 == 0 || limit is Some || n == 0)
}

/// Assumed of `String::push` of the standard library, not proved: it appends the
/// character to the end of the string.
pub assume_specification[ String::push ](s: &mut String, c: char)
    ensures
        final(s)@ == old(s)@.push(c),
;

/// The character of a digit.
pub fn digit_to_char(d: u32, uppercase: bool) -> (c: char)
    requires
        d < 16,
    ensures
        c == digit_char(d as int, uppercase),
{
    let d = d as u8;
    if d < 10 {
        (0x30u8 + d) as char
    } else if uppercase {
        (0x41u8 + d - 10) as char
    } else {
        (0x61u8 + d - 10) as char
    }
}

/// Appends `n` written in `radix` to `s`.
pub fn push_nat(s: &mut String, n: u64, radix: u32, uppercase: bool)
    requires
        valid_radix(radix as int),
    ensures
        final(s)@ == old(s)@ + nat_text(n as nat, radix as nat, uppercase),
    decreases n,
{
    let radix64 = radix as u64;
    if n >= radix64 {
        proof {
            vstd::arithmetic::div_mod::lemma_div_decreases(n as int, radix64 as int);
        }
        push_nat(s, n / radix64, radix, uppercase);
    }
    let ghost before = s@;
    s.push(digit_to_char((n % radix64) as u32, uppercase));
    proof {
        let f = |d: int| digit_char(d, uppercase);
        let last = (n % radix64) as int;
        if n >= radix64 {
            let head = nat_digits((n / radix64) as nat, radix as nat);
            assert(before == old(s)@ + head.map_values(f));
            assert(nat_digits(n as nat, radix as nat) == head.push(last));
            assert(head.push(last).map_values(f) =~= head.map_values(f).push(f(last)));
            assert(s@ =~= old(s)@ + nat_text(n as nat, radix as nat, uppercase));
        } else {
            vstd::arithmetic::div_mod::lemma_small_mod(n as nat, radix64 as nat);
            assert(seq![last].map_values(f) =~= seq![f(last)]);
            assert(s@ =~= old(s)@ + nat_text(n as nat, radix as nat, uppercase));
        }
    }
}

/// Long division, one place at a time: the next digit is the whole part of the rest
/// times the radix, and the new rest is its fractional part.
pub proof fn lemma_fract_step(n: int, radix: int, k: nat)
    requires
        0 <= n < 0x1_0000,
        valid_radix(radix),
    ensures
        fract_rest(n, radix, 0) == n,
        0 <= fract_rest(n, radix, k) < 0x1_0000,
        0 <= fract_digit(n, radix, k) < radix,
        fract_digit(n, radix, k) == fract_rest(n, radix, k) * radix / 0x1_0000,
        fract_rest(n, radix, k + 1) == (fract_rest(n, radix, k) * radix) % 0x1_0000,
{
    vstd::arithmetic::power::lemma_pow0(radix);
    vstd::arithmetic::power::lemma_pow_positive(radix, k);
    let p = pow(radix, k);
    let whole = n * p;
    assert(whole >= 0) by (nonlinear_arith)
        requires
            whole == n * p,
            n >= 0,
            p > 0,
    ;
    let q = whole / 0x1_0000;
    let rest = whole % 0x1_0000;
    assert(pow(radix, k + 1) == radix * p) by {
        reveal(pow);
    }
    let next = n * pow(radix, k + 1);
    let scaled = rest * radix;
    assert(next == 0x1_0000 * (q * radix) + scaled && 0 <= scaled <= 0xFFFF * radix)
        by (nonlinear_arith)
        requires
            next == n * (radix * p),
            whole == n * p,
            whole == 0x1_0000 * q + rest,
            scaled == rest * radix,
            0 <= rest <= 0xFFFF,
            radix >= 2,
    ;
    let digit = scaled / 0x1_0000;
    assert(next / 0x1_0000 == q * radix + digit);
    assert(next % 0x1_0000 == scaled % 0x1_0000);
    vstd::arithmetic::div_mod::lemma_mod_multiples_vanish(q, digit, radix);
    vstd::arithmetic::div_mod::lemma_small_mod(digit as nat, radix as nat);
    assert(q * radix == radix * q) by (nonlinear_arith);
}

/// Once nothing is left, nothing is left at any later place, and every later digit is
/// zero.
pub proof fn lemma_fract_ended(n: int, radix: int, k: nat, j: nat)
    requires
        0 <= n < 0x1_0000,
        valid_radix(radix),
        fract_rest(n, radix, k) == 0,
        k <= j,
    ensures
        fract_rest(n, radix, j) == 0,
        fract_digit(n, radix, j) == 0,
    decreases j - k,
{
    if k < j {
        lemma_fract_ended(n, radix, k, (j - 1) as nat);
        lemma_fract_step(n, radix, (j - 1) as nat);
    }
    lemma_fract_step(n, radix, j);
    assert(0 * radix == 0);
}

/// In an even radix, sixteen digits after the point write any `n / 65536` out in full.
pub proof fn lemma_fract_ends_even(n: int, radix: int)
    requires
        0 <= n < 0x1_0000,
        valid_radix(radix),
        radix % 2 == 0,
    ensures
        fract_rest(n, radix, 16) == 0,
{
    let half = radix / 2;
    vstd::arithmetic::power::lemma_pow_distributes(2, half, 16);
    assert(pow(2, 16) == 0x1_0000) by {
        vstd::arithmetic::power2::lemma_pow2(16);
        vstd::arithmetic::power2::lemma2_to64();
    }
    let rest = pow(half, 16);
    assert(n * pow(radix, 16) == 0x1_0000 * (n * rest)) by (nonlinear_arith)
        requires
            pow(radix, 16) == 0x1_0000 * rest,
    ;
    vstd::arithmetic::div_mod::lemma_mod_multiples_basic(n * rest, 0x1_0000);
    assert(0x1_0000 * (n * rest) == (n * rest) * 0x1_0000) by (nonlinear_arith);
}

/// Where something is left after each of the first `k` digits, and nothing after
/// sixteen, the expansion ends at some place from `k` to sixteen.
proof fn lemma_first_end(n: int, radix: int, k: nat)
    requires
        k <= 16,
        fract_rest(n, radix, 16) == 0,
        forall|j: nat| j < k ==> fract_rest(n, radix, j) != 0,
    ensures
        exists|len: nat| len <= 16 && is_full_expansion(n, radix, len),
    decreases 16 - k,
{
    if fract_rest(n, radix, k) == 0 {
        assert(is_full_expansion(n, radix, k));
    } else {
        lemma_first_end(n, radix, k + 1);
    }
}

/// In an even radix every fraction has a full expansion, of at most sixteen digits.
pub proof fn lemma_expansion_exists(n: int, radix: int)
    requires
        0 <= n < 0x1_0000,
        valid_radix(radix),
        radix % 2 == 0,
    ensures
        is_full_expansion(n, radix, expansion_len(n, radix)),
        expansion_len(n, radix) <= 16,
{
    lemma_fract_ends_even(n, radix);
    lemma_first_end(n, radix, 0);
    let len = choose|len: nat| len <= 16 && is_full_expansion(n, radix, len);
    lemma_expansion_len(n, radix, len);
}

/// There is at most one number of digits that writes a fraction out in full.
pub proof fn lemma_expansion_len(n: int, radix: int, len: nat)
    requires
        is_full_expansion(n, radix, len),
    ensures
        expansion_len(n, radix) == len,
{
    let chosen = expansion_len(n, radix);
    assert(is_full_expansion(n, radix, chosen));
    if chosen < len {
        assert(fract_rest(n, radix, chosen) != 0);
    } else if len < chosen {
        assert(fract_rest(n, radix, len) != 0);
    }
}

/// The text of the first `len + 1` digits is that of the first `len` with the next
/// digit's character after it.
pub proof fn lemma_fract_text_push(n: int, radix: int, uppercase: bool, len: nat)
    ensures
        fract_text(n, radix, uppercase, len + 1) == fract_text(n, radix, uppercase, len).push(
            digit_char(fract_digit(n, radix, len), uppercase),
        ),
{
    assert(fract_text(n, radix, uppercase, len + 1) =~= fract_text(n, radix, uppercase, len).push(
        digit_char(fract_digit(n, radix, len), uppercase),
    ));
}

} // verus!
