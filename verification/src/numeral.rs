//! Decimal numerals for collision suffixes, with the injectivity fact the
//! allocator's uniqueness argument rests on.

use vstd::prelude::*;
use crate::chars::push_char;

verus! {

/// The decimal digit character for `d`; meaningful for 0 through 9.
pub open spec fn digit_char(d: int) -> char {
    if d == 0 {
        '0'
    } else if d == 1 {
        '1'
    } else if d == 2 {
        '2'
    } else if d == 3 {
        '3'
    } else if d == 4 {
        '4'
    } else if d == 5 {
        '5'
    } else if d == 6 {
        '6'
    } else if d == 7 {
        '7'
    } else if d == 8 {
        '8'
    } else {
        '9'
    }
}

/// The decimal numeral of `n`, most significant digit first, without leading
/// zeros; the numeral of 0 is the single digit `0`.
pub open spec fn spec_decimal(n: nat) -> Seq<char>
    decreases n,
{
    if n < 10 {
        seq![digit_char(n as int)]
    } else {
        spec_decimal(n / 10) + seq![digit_char((n % 10) as int)]
    }
}

/// Every numeral has at least one digit; a number of two or more digits has a
/// numeral of at least two characters.
pub proof fn lemma_decimal_len(n: nat)
    ensures
        spec_decimal(n).len() >= 1,
        n >= 10 ==> spec_decimal(n).len() >= 2,
    decreases n,
{
    if n >= 10 {
        lemma_decimal_len(n / 10);
    }
}

/// Distinct numbers have distinct numerals.
pub proof fn lemma_decimal_injective(a: nat, b: nat)
    requires
        spec_decimal(a) == spec_decimal(b),
    ensures
        a == b,
    decreases a,
{
    lemma_decimal_len(a);
    lemma_decimal_len(b);
    if a < 10 && b < 10 {
        assert(spec_decimal(a)[0] == digit_char(a as int));
        assert(spec_decimal(b)[0] == digit_char(b as int));
    } else if a < 10 {
        assert(spec_decimal(b).len() >= 2);
        assert(false);
    } else if b < 10 {
        assert(spec_decimal(a).len() >= 2);
        assert(false);
    } else {
        let da = spec_decimal(a / 10);
        let db = spec_decimal(b / 10);
        assert(spec_decimal(a).last() == digit_char((a % 10) as int));
        assert(spec_decimal(b).last() == digit_char((b % 10) as int));
        assert(a % 10 == b % 10);
        assert(da =~= spec_decimal(a).drop_last());
        assert(db =~= spec_decimal(b).drop_last());
        lemma_decimal_injective(a / 10, b / 10);
        assert(a == (a / 10) * 10 + a % 10);
        assert(b == (b / 10) * 10 + b % 10);
    }
}

/// Renders `n` exactly as `spec_decimal` states it.
pub fn decimal_string(n: u64) -> (r: String)
    ensures
        r@ == spec_decimal(n as nat),
    decreases n,
{
    if n < 10 {
        let mut s = String::new();
        push_char(&mut s, digit_of(n));
        proof {
            assert(s@ =~= seq![digit_char(n as int)]);
        }
        s
    } else {
        let mut s = decimal_string(n / 10);
        push_char(&mut s, digit_of(n % 10));
        proof {
            assert(s@ =~= spec_decimal((n / 10) as nat) + seq![digit_char((n % 10) as int)]);
        }
        s
    }
}

/// The digit character of a value below ten.
fn digit_of(d: u64) -> (c: char)
    requires
        d < 10,
    ensures
        c == digit_char(d as int),
{
    if d == 0 {
        '0'
    } else if d == 1 {
        '1'
    } else if d == 2 {
        '2'
    } else if d == 3 {
        '3'
    } else if d == 4 {
        '4'
    } else if d == 5 {
        '5'
    } else if d == 6 {
        '6'
    } else if d == 7 {
        '7'
    } else if d == 8 {
        '8'
    } else {
        '9'
    }
}

} // verus!
