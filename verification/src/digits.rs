//! Decimal rendering of the numeric fields of a timestamp: an unbounded
//! hour count and zero-padded two- and three-digit fields, together with
//! the value-recovery lemmas that make the rendering parseable.

use vstd::prelude::*;

verus! {

use vstd::arithmetic::div_mod::lemma_fundamental_div_mod;
use vstd::arithmetic::div_mod::lemma_small_mod;

/// The character for one decimal digit (digits ten and above never arise).
pub open spec fn digit_char_spec(d: nat) -> char {
    if d == 0 {
        '0'
    } else if d == 1 {
        '1'
    } else if d == 2 {
        '2'
    } else if d == 3 {
        '3'
    } else if d == 4 {
        '4'
    } else if d == 5 {
        '5'
    } else if d == 6 {
        '6'
    } else if d == 7 {
        '7'
    } else if d == 8 {
        '8'
    } else {
        '9'
    }
}

/// Whether `c` is a decimal digit character.
pub open spec fn is_digit_char(c: char) -> bool {
    c == '0' || c == '1' || c == '2' || c == '3' || c == '4' || c == '5' || c == '6' || c == '7'
        || c == '8' || c == '9'
}

/// The numeric value of a digit character.
pub open spec fn digit_val(c: char) -> nat {
    if c == '0' {
        0
    } else if c == '1' {
        1
    } else if c == '2' {
        2
    } else if c == '3' {
        3
    } else if c == '4' {
        4
    } else if c == '5' {
        5
    } else if c == '6' {
        6
    } else if c == '7' {
        7
    } else if c == '8' {
        8
    } else {
        9
    }
}

/// The decimal representation of `n`, most significant digit first,
/// with no leading zero except for `n == 0` itself.
pub open spec fn dec_rep(n: nat) -> Seq<char>
    decreases n,
{
    if n < 10 {
        seq![digit_char_spec(n)]
    } else {
        dec_rep(n / 10).push(digit_char_spec(n % 10))
    }
}

/// A two-digit zero-padded field; intended for `n < 100`.
pub open spec fn two_digit_rep(n: nat) -> Seq<char> {
    seq![digit_char_spec(n / 10 % 10), digit_char_spec(n % 10)]
}

/// A three-digit zero-padded field; intended for `n < 1000`.
pub open spec fn three_digit_rep(n: nat) -> Seq<char> {
    seq![digit_char_spec(n / 100 % 10), digit_char_spec(n / 10 % 10), digit_char_spec(n % 10)]
}

/// The number a sequence of digit characters denotes, most significant first.
pub open spec fn dec_val(s: Seq<char>) -> nat
    decreases s.len(),
{
    if s.len() == 0 {
        0
    } else {
        dec_val(s.drop_last()) * 10 + digit_val(s.last())
    }
}

/// Appends the single digit `d` to `s`.
pub fn append_digit(s: &mut String, d: u64)
    requires
        d < 10,
    ensures
        final(s)@ == old(s)@ + seq![digit_char_spec(d as nat)],
{
    let t: &'static str = if d == 0 {
        "0"
    } else if d == 1 {
        "1"
    } else if d == 2 {
        "2"
    } else if d == 3 {
        "3"
    } else if d == 4 {
        "4"
    } else if d == 5 {
        "5"
    } else if d == 6 {
        "6"
    } else if d == 7 {
        "7"
    } else if d == 8 {
        "8"
    } else {
        "9"
    };
    proof {
        reveal_strlit("0");
        reveal_strlit("1");
        reveal_strlit("2");
        reveal_strlit("3");
        reveal_strlit("4");
        reveal_strlit("5");
        reveal_strlit("6");
        reveal_strlit("7");
        reveal_strlit("8");
        reveal_strlit("9");
        assert(t@ =~= seq![digit_char_spec(d as nat)]);
    }
    s.append(t);
}

/// Appends the decimal representation of `n` to `s`.
pub fn append_dec(s: &mut String, n: u64)
    ensures
        final(s)@ == old(s)@ + dec_rep(n as nat),
    decreases n,
{
    if n < 10 {
        append_digit(s, n);
    } else {
        append_dec(s, n / 10);
        append_digit(s, n % 10);
        proof {
            assert(final(s)@ =~= old(s)@ + dec_rep(n as nat));
        }
    }
}

/// Appends the two-digit zero-padded representation of `n` to `s`.
pub fn append_two_digits(s: &mut String, n: u64)
    requires
        n < 100,
    ensures
        final(s)@ == old(s)@ + two_digit_rep(n as nat),
{
    append_digit(s, n / 10);
    append_digit(s, n % 10);
    proof {
        assert(final(s)@ =~= old(s)@ + two_digit_rep(n as nat));
    }
}

/// Appends the three-digit zero-padded representation of `n` to `s`.
pub fn append_three_digits(s: &mut String, n: u64)
    requires
        n < 1000,
    ensures
        final(s)@ == old(s)@ + three_digit_rep(n as nat),
{
    append_digit(s, n / 100);
    append_digit(s, n / 10 % 10);
    append_digit(s, n % 10);
    proof {
        assert(final(s)@ =~= old(s)@ + three_digit_rep(n as nat));
    }
}

/// Every character of `dec_rep(n)` is a decimal digit, and the
/// representation is never empty.
pub proof fn lemma_dec_rep_digits(n: nat)
    ensures
        dec_rep(n).len() >= 1,
        forall|i: int| 0 <= i < dec_rep(n).len() ==> is_digit_char(#[trigger] dec_rep(n)[i]),
    decreases n,
{
    if n >= 10 {
        lemma_dec_rep_digits(n / 10);
    }
}

/// Reading the digits of `dec_rep(n)` back yields `n`.
pub proof fn lemma_dec_rep_val(n: nat)
    ensures
        dec_val(dec_rep(n)) == n,
    decreases n,
{
    reveal_with_fuel(dec_val, 3);
    if n < 10 {
        assert(dec_rep(n).drop_last() =~= Seq::<char>::empty());
    } else {
        lemma_dec_rep_val(n / 10);
        assert(dec_rep(n).drop_last() =~= dec_rep(n / 10));
        lemma_fundamental_div_mod(n as int, 10);
    }
}

/// Reading the two-digit field back yields `n`.
pub proof fn lemma_two_digit_val(n: nat)
    requires
        n < 100,
    ensures
        dec_val(two_digit_rep(n)) == n,
        two_digit_rep(n).len() == 2,
        forall|i: int|
            0 <= i < two_digit_rep(n).len() ==> is_digit_char(#[trigger] two_digit_rep(n)[i]),
{
    reveal_with_fuel(dec_val, 4);
    let s = two_digit_rep(n);
    assert(s.drop_last() =~= seq![digit_char_spec(n / 10 % 10)]);
    assert(s.drop_last().drop_last() =~= Seq::<char>::empty());
    lemma_fundamental_div_mod(n as int, 10);
    lemma_small_mod(n / 10, 10);
}

/// Reading the three-digit field back yields `n`.
pub proof fn lemma_three_digit_val(n: nat)
    requires
        n < 1000,
    ensures
        dec_val(three_digit_rep(n)) == n,
        three_digit_rep(n).len() == 3,
        forall|i: int|
            0 <= i < three_digit_rep(n).len() ==> is_digit_char(#[trigger] three_digit_rep(n)[i]),
{
    reveal_with_fuel(dec_val, 5);
    let s = three_digit_rep(n);
    assert(s.drop_last() =~= seq![
        digit_char_spec(n / 100 % 10),
        digit_char_spec(n / 10 % 10),
    ]);
    assert(s.drop_last().drop_last() =~= seq![digit_char_spec(n / 100 % 10)]);
    assert(s.drop_last().drop_last().drop_last() =~= Seq::<char>::empty());
    lemma_fundamental_div_mod(n as int, 10);
    lemma_fundamental_div_mod(n as int / 10, 10);
    lemma_small_mod(n / 100, 10);
    lemma_small_mod(n / 10 / 10, 10);
    assert(n / 10 / 10 == n / 100) by {
        vstd::arithmetic::div_mod::lemma_div_denominator(n as int, 10, 10);
    }
}

} // verus!
