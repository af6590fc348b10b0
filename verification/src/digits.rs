//! Decimal rendering of unsigned counters, used by the percent status
//! formatter.
use vstd::prelude::*;

verus! {

/// The character for a single decimal digit.
pub open spec fn digit_char(d: nat) -> char {
    if d == 0 {
        '0'
    } else if d == 1 {
        '1'
    } else if d == 2 {
        '2'
    } else if d == 3 {
        '3'
    } else if d == 4 {
        '4'
    } else if d == 5 {
        '5'
    } else if d == 6 {
        '6'
    } else if d == 7 {
        '7'
    } else if d == 8 {
        '8'
    } else {
        '9'
    }
}

/// The decimal digit string of `n`, most significant digit first, with no
/// leading zeros (a single `'0'` for zero).
pub open spec fn dec_seq(n: nat) -> Seq<char>
    decreases n,
{
    if n < 10 {
        seq![digit_char(n)]
    } else {
        dec_seq(n / 10).push(digit_char(n % 10))
    }
}

/// The one-character string for a decimal digit.
fn digit_str(d: u64) -> (r: &'static str)
    requires
        d < 10,
    ensures
        r@ == seq![digit_char(d as nat)],
{
    proof {
        reveal_strlit("0");
        reveal_strlit("1");
        reveal_strlit("2");
        reveal_strlit("3");
        reveal_strlit("4");
        reveal_strlit("5");
        reveal_strlit("6");
        reveal_strlit("7");
        reveal_strlit("8");
        reveal_strlit("9");
    }
    if d == 0 {
        "0"
    } else if d == 1 {
        "1"
    } else if d == 2 {
        "2"
    } else if d == 3 {
        "3"
    } else if d == 4 {
        "4"
    } else if d == 5 {
        "5"
    } else if d == 6 {
        "6"
    } else if d == 7 {
        "7"
    } else if d == 8 {
        "8"
    } else {
        "9"
    }
}

/// The status text of the percent formatter: the truncating integer percent
/// of `c` out of `t`, followed by `%`.
pub open spec fn percent_seq(c: nat, t: nat) -> Seq<char> {
    dec_seq(c * 100 / t) + seq!['%']
}

/// Renders the truncating integer percent of `count` out of `total`, with a
/// trailing `%`.
pub fn percent_text(count: u64, total: u64) -> (r: String)
    requires
        0 < total,
        count <= total,
    ensures
        r@ == percent_seq(count as nat, total as nat),
{
    proof {
        reveal_strlit("%");
        vstd::arithmetic::mul::lemma_mul_inequality(count as int, total as int, 100);
        vstd::arithmetic::div_mod::lemma_div_is_ordered(
            count as int * 100,
            total as int * 100,
            total as int,
        );
        vstd::arithmetic::div_mod::lemma_div_multiples_vanish(100, total as int);
        assert(total as int * 100 == (total as int) * 100);
        assert((total as int) * 100 == 100 * (total as int)) by (nonlinear_arith);
        assert(count as int * 100 / (total as int) <= 100);
    }
    let p128: u128 = (count as u128) * 100 / (total as u128);
    let p: u64 = p128 as u64;
    let mut s = dec_string(p);
    s.append("%");
    assert(s@ =~= percent_seq(count as nat, total as nat));
    s
}

/// Renders `n` in decimal.
pub fn dec_string(n: u64) -> (r: String)
    ensures
        r@ == dec_seq(n as nat),
    decreases n,
{
    if n < 10 {
        String::from_str(digit_str(n))
    } else {
        let mut s = dec_string(n / 10);
        s.append(digit_str(n % 10));
        assert(s@ =~= dec_seq(n as nat));
        s
    }
}

} // verus!
