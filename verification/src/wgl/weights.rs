//! Weights written and read back.
use super::parser::{digit, digits_value, six_digits as filled_up, weight_of};
use super::scan::find_from;
use crate::sound_system::display::{decimal, digit_char, six_digits, weight_text, without_zeros};
use vstd::prelude::*;

verus! {

/// A digit written and read back is the same digit, and no digit is
/// written as a point.
pub proof fn lemma_digit(d: int)
    requires
        0 <= d < 10,
    ensures
        digit(digit_char(d)) == Some(d as u64),
        digit_char(d) != '.',
{
}

/// What a row of digits spells up to a place does not depend on what
/// follows the place.
pub proof fn lemma_digits_prefix(one: Seq<char>, other: Seq<char>, upto: int)
    requires
        0 <= upto <= one.len(),
        upto <= other.len(),
        one.take(upto) == other.take(upto),
    ensures
        digits_value(one, upto) == digits_value(other, upto),
    decreases upto,
{
    if upto > 0 {
        assert(one.take(upto - 1) =~= one.take(upto).take(upto - 1));
        assert(other.take(upto - 1) =~= other.take(upto).take(upto - 1));
        lemma_digits_prefix(one, other, upto - 1);
        assert(one[upto - 1] == one.take(upto)[upto - 1]);
        assert(other[upto - 1] == other.take(upto)[upto - 1]);
    }
}

/// A number written in decimal digits has no point in it, and read back it
/// is the same number.
pub proof fn lemma_decimal(number: nat)
    requires
        number <= u64::MAX,
    ensures
        decimal(number).len() >= 1,
        forall|i: int| 0 <= i < decimal(number).len() ==> (#[trigger] decimal(number)[i]) != '.',
        digits_value(decimal(number), decimal(number).len() as int) == Some(number as u64),
    decreases number,
{
    if number < 10 {
        lemma_digit(number as int);
        let text = decimal(number);
        assert(text.len() == 1);
        assert(digits_value(text, 0) == Some(0u64));
    } else {
        lemma_decimal(number / 10);
        lemma_digit((number % 10) as int);
        let shorter = decimal(number / 10);
        let text = decimal(number);
        assert(text == shorter.push(digit_char((number % 10) as int)));
        assert(text.take(shorter.len() as int) =~= shorter.take(shorter.len() as int));
        lemma_digits_prefix(text, shorter, shorter.len() as int);
        assert forall|i: int| 0 <= i < text.len() implies (#[trigger] text[i]) != '.' by {
            if i < shorter.len() {
                assert(text[i] == shorter[i]);
            }
        }
    }
}

/// Where a character stands at a place and nowhere before it, it is found
/// there.
pub proof fn lemma_found(text: Seq<char>, c: char, at: int, from: int)
    requires
        0 <= from <= at <= text.len(),
        forall|i: int| from <= i < at ==> text[i] != c,
        at < text.len() ==> text[at] == c,
    ensures
        find_from(text, c, from) == at,
    decreases at - from,
{
    if from < at {
        lemma_found(text, c, at, from + 1);
    }
}

/// Six digits spell, up to each place, the number without its last digits.
pub proof fn lemma_six_digits(before: Seq<char>, value: u64, part: nat)
    requires
        part < 1000000,
        digits_value(before, before.len() as int) == Some(value),
        value * 1000000 + part <= u64::MAX,
    ensures
        digits_value(before + six_digits(part), (before.len() + 6) as int) == Some(
            (value * 1000000 + part) as u64,
        ),
{
    let text = before + six_digits(part);
    let n = before.len() as int;
    assert(text.take(n) =~= before.take(n));
    lemma_digits_prefix(text, before, n);
    lemma_digit((part / 100000 % 10) as int);
    lemma_digit((part / 10000 % 10) as int);
    lemma_digit((part / 1000 % 10) as int);
    lemma_digit((part / 100 % 10) as int);
    lemma_digit((part / 10 % 10) as int);
    lemma_digit((part % 10) as int);
    assert(text[n] == digit_char((part / 100000 % 10) as int));
    assert(text[n + 1] == digit_char((part / 10000 % 10) as int));
    assert(text[n + 2] == digit_char((part / 1000 % 10) as int));
    assert(text[n + 3] == digit_char((part / 100 % 10) as int));
    assert(text[n + 4] == digit_char((part / 10 % 10) as int));
    assert(text[n + 5] == digit_char((part % 10) as int));
    assert(digits_value(text, n + 1) == Some((value * 10 + part / 100000) as u64));
    assert(digits_value(text, n + 2) == Some((value * 100 + part / 10000) as u64));
    assert(digits_value(text, n + 3) == Some((value * 1000 + part / 1000) as u64));
    assert(digits_value(text, n + 4) == Some((value * 10000 + part / 100) as u64));
    assert(digits_value(text, n + 5) == Some((value * 100000 + part / 10) as u64));
    assert(digits_value(text, n + 6) == Some((value * 1000000 + part) as u64));
}

/// Digits without the zeros at their end are the first of the digits, and
/// what was left out were zeros.
pub proof fn lemma_without_zeros(digits: Seq<char>)
    ensures
        without_zeros(digits).len() <= digits.len(),
        without_zeros(digits) == digits.take(without_zeros(digits).len() as int),
        forall|i: int|
            without_zeros(digits).len() <= i < digits.len() ==> #[trigger] digits[i] == '0',
    decreases digits.len(),
{
    if digits.len() > 0 && digits.last() == '0' {
        let shorter = digits.drop_last();
        lemma_without_zeros(shorter);
        let kept = without_zeros(digits);
        assert(kept == without_zeros(shorter));
        assert(kept =~= digits.take(kept.len() as int));
        assert forall|i: int| kept.len() <= i < digits.len() implies #[trigger] digits[i]
            == '0' by {
            if i < shorter.len() {
                assert(shorter[i] == digits[i]);
            }
        }
    } else {
        assert(digits =~= digits.take(digits.len() as int));
    }
}

/// A text of digits without a point is read as a whole number of units.
pub proof fn lemma_reads_whole(whole: Seq<char>, value: u64)
    requires
        whole.len() >= 1,
        forall|i: int| 0 <= i < whole.len() ==> (#[trigger] whole[i]) != '.',
        digits_value(whole, whole.len() as int) == Some(value),
        value * 1000000 <= u64::MAX,
    ensures
        weight_of(whole) == Some((value * 1000000) as u64),
{
    let n = whole.len() as int;
    lemma_found(whole, '.', n, 0);
    assert(whole.subrange(0, n) =~= whole);
    let none = Seq::<char>::empty();
    assert(digits_value(none, 0) == Some(0u64));
    assert(filled_up(none) =~= six_digits(0));
    lemma_six_digits(whole, value, 0);
}

/// A text of digits, a point and more digits is read as units and
/// millionths.
pub proof fn lemma_reads_parts(whole: Seq<char>, value: u64, behind: Seq<char>, part: nat)
    requires
        whole.len() >= 1,
        forall|i: int| 0 <= i < whole.len() ==> (#[trigger] whole[i]) != '.',
        digits_value(whole, whole.len() as int) == Some(value),
        part < 1000000,
        value * 1000000 + part <= u64::MAX,
        digits_value(behind, behind.len() as int) is Some,
        filled_up(behind) == six_digits(part),
    ensures
        weight_of(whole + seq!['.'] + behind) == Some((value * 1000000 + part) as u64),
{
    let text = whole + seq!['.'] + behind;
    let n = whole.len() as int;
    assert forall|i: int| 0 <= i < n implies text[i] != '.' by {
        assert(text[i] == whole[i]);
    }
    assert(text[n] == '.');
    lemma_found(text, '.', n, 0);
    assert(text.subrange(0, n) =~= whole);
    assert(text.subrange(n + 1, text.len() as int) =~= behind);
    lemma_six_digits(whole, value, part);
}

/// The digits of the millionths of a weight, without the zeros at their
/// end, are digits, and filled up with zeros they are the six digits again.
pub proof fn lemma_millionths(part: nat)
    requires
        part < 1000000,
    ensures
        digits_value(
            without_zeros(six_digits(part)),
            without_zeros(six_digits(part)).len() as int,
        ) is Some,
        filled_up(without_zeros(six_digits(part))) == six_digits(part),
{
    let all = six_digits(part);
    let kept = without_zeros(all);
    lemma_without_zeros(all);
    let m = kept.len() as int;
    assert forall|i: int| 0 <= i < 6 implies filled_up(kept)[i] == all[i] by {
        if i < m {
            assert(kept[i] == all.take(m)[i]);
        } else {
            assert(all[i] == '0');
        }
    }
    assert(filled_up(kept) =~= all);
    let none = Seq::<char>::empty();
    assert(digits_value(none, 0) == Some(0u64));
    assert(none + all =~= all);
    lemma_six_digits(none, 0, part);
    lemma_digits_known(all, m, 6);
    assert(all.take(m) =~= kept.take(m));
    lemma_digits_prefix(all, kept, m);
}

/// A weight written as a decimal number and read back is the same weight.
pub proof fn lemma_weight_read_back(weight: u64)
    ensures
        weight_of(weight_text(weight)) == Some(weight),
{
    let units = weight / 1000000;
    let part = (weight % 1000000) as nat;
    lemma_decimal(units as nat);
    if part == 0 {
        lemma_reads_whole(decimal(units as nat), units);
    } else {
        lemma_millionths(part);
        lemma_reads_parts(decimal(units as nat), units, without_zeros(six_digits(part)), part);
    }
}

/// Where digits spell a number up to a place, they spell one up to every
/// place before it.
pub proof fn lemma_digits_known(text: Seq<char>, fewer: int, upto: int)
    requires
        0 <= fewer <= upto <= text.len(),
        digits_value(text, upto) is Some,
    ensures
        digits_value(text, fewer) is Some,
    decreases upto - fewer,
{
    if fewer < upto {
        lemma_digits_known(text, fewer, upto - 1);
    }
}

} // verus!
