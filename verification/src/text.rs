//! The texts that diagnostics are made of: decimal numerals, and what it
//! means for one text to occur in another.

use vstd::prelude::*;

verus! {

/// The character that stands for the decimal digit `d`.
pub open spec fn digit_char(d: int) -> char
    recommends
        0 <= d < 10,
{
    if d == 0 {
        '0'
    } else if d == 1 {
        '1'
    } else if d == 2 {
        '2'
    } else if d == 3 {
        '3'
    } else if d == 4 {
        '4'
    } else if d == 5 {
        '5'
    } else if d == 6 {
        '6'
    } else if d == 7 {
        '7'
    } else if d == 8 {
        '8'
    } else {
        '9'
    }
}

/// The decimal numeral of a natural number, without leading zeros.
pub open spec fn decimal_nat(n: nat) -> Seq<char>
    decreases n,
{
    if n < 10 {
        seq![digit_char(n as int)]
    } else {
        decimal_nat(n / 10).push(digit_char((n % 10) as int))
    }
}

/// The decimal numeral of an integer: a minus sign before the numeral of the
/// magnitude where the integer is negative.
pub open spec fn decimal(n: int) -> Seq<char> {
    if n < 0 {
        seq!['-'] + decimal_nat((-n) as nat)
    } else {
        decimal_nat(n as nat)
    }
}

/// The digit that a character stands for, or -1 where it stands for none.
pub open spec fn digit_value(c: char) -> int {
    if c == '0' {
        0
    } else if c == '1' {
        1
    } else if c == '2' {
        2
    } else if c == '3' {
        3
    } else if c == '4' {
        4
    } else if c == '5' {
        5
    } else if c == '6' {
        6
    } else if c == '7' {
        7
    } else if c == '8' {
        8
    } else if c == '9' {
        9
    } else {
        -1
    }
}

/// The number that a run of digits is the numeral of.
pub open spec fn natural_of(numeral: Seq<char>) -> int
    decreases numeral.len(),
{
    if numeral.len() == 0 {
        0
    } else {
        natural_of(numeral.drop_last()) * 10 + digit_value(numeral.last())
    }
}

/// The integer that a numeral stands for, with or without a minus sign.
pub open spec fn integer_of(numeral: Seq<char>) -> int {
    if numeral.len() > 0 && numeral[0] == '-' {
        -natural_of(numeral.subrange(1, numeral.len() as int))
    } else {
        natural_of(numeral)
    }
}

/// The numeral of a natural number is made of digits, at least one, and read
/// back it gives the number.
pub proof fn lemma_decimal_nat_read_back(n: nat)
    ensures
        decimal_nat(n).len() > 0,
        forall|i: int|
            0 <= i < decimal_nat(n).len() ==> digit_value(#[trigger] decimal_nat(n)[i]) >= 0,
        natural_of(decimal_nat(n)) == n,
    decreases n,
{
    let numeral = decimal_nat(n);
    if n < 10 {
        assert(natural_of(numeral.drop_last()) == 0);
    } else {
        lemma_decimal_nat_read_back(n / 10);
        assert(numeral.drop_last() =~= decimal_nat(n / 10));
    }
}

/// The numeral of an integer states it exactly: read back it gives the
/// integer, so that no two integers share a numeral.
pub proof fn lemma_decimal_read_back(n: int)
    ensures
        decimal(n).len() > 0,
        integer_of(decimal(n)) == n,
{
    if n < 0 {
        let magnitude: nat = (-n) as nat;
        let numeral = decimal(n);
        lemma_decimal_nat_read_back(magnitude);
        assert(numeral.subrange(1, numeral.len() as int) =~= decimal_nat(magnitude));
    } else {
        lemma_decimal_nat_read_back(n as nat);
    }
}

/// The one-character text of a decimal digit.
fn digit_str(d: u64) -> (s: &'static str)
    requires
        d < 10,
    ensures
        s@ == seq![digit_char(d as int)],
{
    proof {
        reveal_strlit("0");
        reveal_strlit("1");
        reveal_strlit("2");
        reveal_strlit("3");
        reveal_strlit("4");
        reveal_strlit("5");
        reveal_strlit("6");
        reveal_strlit("7");
        reveal_strlit("8");
        reveal_strlit("9");
    }
    let s = if d == 0 {
        "0"
    } else if d == 1 {
        "1"
    } else if d == 2 {
        "2"
    } else if d == 3 {
        "3"
    } else if d == 4 {
        "4"
    } else if d == 5 {
        "5"
    } else if d == 6 {
        "6"
    } else if d == 7 {
        "7"
    } else if d == 8 {
        "8"
    } else {
        "9"
    };
    s
}

/// Appends the decimal numeral of `n` to `out`.
pub fn push_decimal_nat(out: &mut String, n: u64)
    ensures
        final(out)@ == old(out)@ + decimal_nat(n as nat),
    decreases n,
{
    if n >= 10 {
        push_decimal_nat(out, n / 10);
    }
    out.append(digit_str(n % 10));
}

/// Appends the decimal numeral of `n` to `out`, with a minus sign where `n`
/// is negative.
pub fn push_decimal(out: &mut String, n: i64)
    ensures
        final(out)@ == old(out)@ + decimal(n as int),
{
    if n < 0 {
        out.append("-");
        // the magnitude of the least integer is not an `i64`
        let magnitude: u64 = if n == i64::MIN {
            9223372036854775808u64
        } else {
            (-n) as u64
        };
        push_decimal_nat(out, magnitude);
        proof {
            reveal_strlit("-");
        }
    } else {
        push_decimal_nat(out, n as u64);
    }
}

/// `needle` stands in `text` from position `at` on.
pub open spec fn occurs_at(needle: Seq<char>, text: Seq<char>, at: int) -> bool {
    &&& 0 <= at
    &&& at + needle.len() <= text.len()
    &&& text.subrange(at, at + needle.len()) == needle
}

/// `needle` stands somewhere in `text`, as one unbroken run of characters.
pub open spec fn occurs_in(needle: Seq<char>, text: Seq<char>) -> bool {
    exists|at: int| occurs_at(needle, text, at)
}

/// A text occurs in whatever is written around it.
pub proof fn lemma_occurs_between(before: Seq<char>, needle: Seq<char>, after: Seq<char>)
    ensures
        occurs_in(needle, before + needle + after),
{
    let text = before + needle + after;
    let at: int = before.len() as int;
    assert(text.subrange(at, at + needle.len()) =~= needle);
    assert(occurs_at(needle, text, at));
}

/// In a sentence of an opening, a name, a middle, a number and an ending, both
/// the name and the number occur.
pub proof fn lemma_occurs_in_sentence(
    opening: Seq<char>,
    name: Seq<char>,
    middle: Seq<char>,
    number: Seq<char>,
    ending: Seq<char>,
)
    ensures
        occurs_in(name, opening + name + middle + number + ending),
        occurs_in(number, opening + name + middle + number + ending),
{
    let sentence = opening + name + middle + number + ending;
    lemma_occurs_between(opening, name, middle + number + ending);
    assert(opening + name + (middle + number + ending) =~= sentence);
    lemma_occurs_between(opening + name + middle, number, ending);
}

} // verus!
