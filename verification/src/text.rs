//! Facts about sequences of characters that the message contracts rest on.

use vstd::prelude::*;

verus! {

/// `needle` occurs in `hay` as a contiguous run of characters.
pub open spec fn contains(hay: Seq<char>, needle: Seq<char>) -> bool {
    exists|i: int|
        0 <= i && i + needle.len() <= hay.len() && #[trigger] hay.subrange(
            i,
            i + needle.len(),
        ) == needle
}

/// The character of a decimal digit.
pub open spec fn digit_char(d: nat) -> char
    recommends
        d < 10,
{
    if d == 0 {
        '0'
    } else if d == 1 {
        '1'
    } else if d == 2 {
        '2'
    } else if d == 3 {
        '3'
    } else if d == 4 {
        '4'
    } else if d == 5 {
        '5'
    } else if d == 6 {
        '6'
    } else if d == 7 {
        '7'
    } else if d == 8 {
        '8'
    } else {
        '9'
    }
}

/// The decimal numeral of `n`, without sign or leading zeros.
pub open spec fn decimal(n: nat) -> Seq<char>
    decreases n,
{
    if n < 10 {
        seq![digit_char(n)]
    } else {
        decimal(n / 10).push(digit_char(n % 10))
    }
}

/// A text contains the middle of any three parts it is made of.
pub proof fn lemma_contains_middle(before: Seq<char>, needle: Seq<char>, after: Seq<char>)
    ensures
        contains(before + needle + after, needle),
{
    let hay = before + needle + after;
    let i = before.len() as int;
    assert(hay.subrange(i, i + needle.len()) =~= needle);
}

/// What a part of a text contains, the text contains.
pub proof fn lemma_contains_within(
    before: Seq<char>,
    part: Seq<char>,
    after: Seq<char>,
    needle: Seq<char>,
)
    requires
        contains(part, needle),
    ensures
        contains(before + part + after, needle),
{
    let hay = before + part + after;
    let j = choose|j: int|
        0 <= j && j + needle.len() <= part.len() && #[trigger] part.subrange(j, j + needle.len())
            == needle;
    let i = before.len() + j;
    assert(hay.subrange(i, i + needle.len()) =~= part.subrange(j, j + needle.len()));
}

/// The numeral of a three-digit number is its three digits.
pub proof fn lemma_decimal_three_digits(n: nat)
    requires
        100 <= n < 1000,
    ensures
        decimal(n) == seq![digit_char(n / 100), digit_char((n / 10) % 10), digit_char(n % 10)],
{
    reveal_with_fuel(decimal, 3);
    assert(decimal(n) =~= seq![
        digit_char(n / 100),
        digit_char((n / 10) % 10),
        digit_char(n % 10),
    ]);
}

} // verus!
