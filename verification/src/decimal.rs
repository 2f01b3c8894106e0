//! Integers written in decimal.

use vstd::prelude::*;
use crate::text::push_char;

verus! {

/// The character of one decimal digit.
pub open spec fn digit_char(digit: nat) -> char {
    if digit == 0 {
        '0'
    } else if digit == 1 {
        '1'
    } else if digit == 2 {
        '2'
    } else if digit == 3 {
        '3'
    } else if digit == 4 {
        '4'
    } else if digit == 5 {
        '5'
    } else if digit == 6 {
        '6'
    } else if digit == 7 {
        '7'
    } else if digit == 8 {
        '8'
    } else {
        '9'
    }
}

/// The decimal digits of a natural number, without leading zeros; `0` is one
/// digit.
pub open spec fn digits(number: nat) -> Seq<char>
    decreases number,
{
    if number < 10 {
        seq![digit_char(number)]
    } else {
        digits(number / 10).push(digit_char(number % 10))
    }
}

/// An integer in decimal, with a minus sign in front where it is negative.
pub open spec fn decimal(number: int) -> Seq<char> {
    if number < 0 {
        seq!['-'] + digits((-number) as nat)
    } else {
        digits(number as nat)
    }
}

/// The digits that stand before the last one: those of the number without its
/// last digit, and none where nothing is left.
spec fn leading(rest: nat) -> Seq<char> {
    if rest == 0 {
        Seq::empty()
    } else {
        digits(rest)
    }
}

proof fn lemma_digits_step(number: nat)
    ensures
        digits(number) == leading(number / 10).push(digit_char(number % 10)),
{
    if number < 10 {
        assert(number / 10 == 0);
        assert(number % 10 == number);
        assert(digits(number) =~= Seq::<char>::empty().push(digit_char(number)));
    }
}

/// The character of a digit.
fn digit_to_char(digit: u64) -> (character: char)
    requires
        digit < 10,
    ensures
        character == digit_char(digit as nat),
{
    if digit == 0 {
        '0'
    } else if digit == 1 {
        '1'
    } else if digit == 2 {
        '2'
    } else if digit == 3 {
        '3'
    } else if digit == 4 {
        '4'
    } else if digit == 5 {
        '5'
    } else if digit == 6 {
        '6'
    } else if digit == 7 {
        '7'
    } else if digit == 8 {
        '8'
    } else {
        '9'
    }
}

/// Appends the decimal digits of `number` to `text`.
pub fn push_digits(text: &mut String, number: u64)
    ensures
        final(text)@ == old(text)@ + digits(number as nat),
{
    let ghost before = text@;
    let mut reversed: Vec<char> = Vec::new();
    reversed.push(digit_to_char(number % 10));
    let mut rest: u64 = number / 10;
    proof {
        lemma_digits_step(number as nat);
        assert(digits(number as nat) =~= leading(rest as nat) + reversed@.reverse());
    }
    while rest > 0
        invariant
            reversed@.len() > 0,
            digits(number as nat) == leading(rest as nat) + reversed@.reverse(),
        decreases rest,
    {
        let ghost old_reversed = reversed@;
        let ghost old_rest = rest;
        reversed.push(digit_to_char(rest % 10));
        rest = rest / 10;
        proof {
            lemma_digits_step(old_rest as nat);
            assert(reversed@.reverse() =~= seq![digit_char((old_rest % 10) as nat)] + old_reversed.reverse());
            assert(digits(number as nat) =~= leading(rest as nat) + reversed@.reverse());
        }
    }
    let ghost all = reversed@.reverse();
    assert(digits(number as nat) =~= all);
    let mut i: usize = reversed.len();
    while i > 0
        invariant
            i <= reversed.len(),
            all == reversed@.reverse(),
            text@ == before + all.take(reversed.len() - i),
        decreases i,
    {
        i -= 1;
        push_char(text, reversed[i]);
        proof {
            let done = reversed.len() - i;
            assert(all.take(done) =~= all.take(done - 1).push(all[done - 1]));
            assert(all[done - 1] == reversed@[i as int]);
            assert(text@ =~= before + all.take(done));
        }
    }
    assert(all.take(reversed.len() as int) =~= all);
}

/// Appends `number` in decimal to `text`.
pub fn push_decimal(text: &mut String, number: i32)
    ensures
        final(text)@ == old(text)@ + decimal(number as int),
{
    let ghost before = text@;
    if number < 0 {
        push_char(text, '-');
        let magnitude: u64 = (-(number as i64)) as u64;
        push_digits(text, magnitude);
        assert(text@ =~= before + decimal(number as int));
    } else {
        push_digits(text, number as u64);
    }
}

/// `number` in decimal.
pub fn to_decimal(number: i32) -> (text: String)
    ensures
        text@ == decimal(number as int),
{
    let mut text = String::new();
    push_decimal(&mut text, number);
    assert(text@ =~= decimal(number as int));
    text
}

} // verus!
