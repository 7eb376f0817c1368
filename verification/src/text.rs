//! Text that the library cuts apart or puts together: the tokens of a message
//! and the decimal form of a number.

use vstd::prelude::*;

verus! {

/// `String::push` of the standard library appends the character to the end
/// of the string.
pub assume_specification[ String::push ](s: &mut String, c: char)
    ensures
        final(s)@ == old(s)@.push(c),
;

/// The parts of `text` between its separators, from left to right. A text
/// with `n` separators has `n + 1` parts, some of which may be empty.
pub open spec fn split(text: Seq<char>, separator: char) -> Seq<Seq<char>>
    decreases text.len(),
{
    if text.len() == 0 {
        seq![Seq::empty()]
    } else {
        let before = split(text.drop_last(), separator);
        if text.last() == separator {
            before.push(Seq::empty())
        } else {
            before.drop_last().push(before.last().push(text.last()))
        }
    }
}

/// The parts put together again, with one separator between neighbours.
pub open spec fn join(parts: Seq<Seq<char>>, separator: char) -> Seq<char>
    decreases parts.len(),
{
    if parts.len() == 0 {
        Seq::empty()
    } else if parts.len() == 1 {
        parts[0]
    } else {
        join(parts.drop_last(), separator).push(separator) + parts.last()
    }
}

/// How often `separator` stands in `text`.
pub open spec fn occurrences(text: Seq<char>, separator: char) -> nat
    decreases text.len(),
{
    if text.len() == 0 {
        0
    } else {
        occurrences(text.drop_last(), separator) + if text.last() == separator {
            1nat
        } else {
            0nat
        }
    }
}

/// Cutting a text gives one part more than it has separators, no part holds
/// a separator, and the parts joined by the separator are the text again.
pub proof fn lemma_split(text: Seq<char>, separator: char)
    ensures
        split(text, separator).len() == occurrences(text, separator) + 1,
        forall|i: int|
            0 <= i < split(text, separator).len() ==> !(#[trigger] split(text, separator)[i]).contains(
                separator,
            ),
        join(split(text, separator), separator) == text,
    decreases text.len(),
{
    let parts = split(text, separator);
    if text.len() == 0 {
        assert(join(parts, separator) =~= text);
    } else {
        let shorter = text.drop_last();
        let before = split(shorter, separator);
        lemma_split(shorter, separator);
        if text.last() == separator {
            assert(parts.drop_last() =~= before);
            assert(join(parts, separator) =~= text);
        } else {
            let grown = before.last().push(text.last());
            assert forall|i: int| 0 <= i < parts.len() implies !(#[trigger] parts[i]).contains(
                separator,
            ) by {
                if i == parts.len() - 1 {
                    if grown.contains(separator) {
                        let k = choose|k: int| 0 <= k < grown.len() && grown[k] == separator;
                        assert(before.last()[k] == separator);
                        assert(before.last().contains(separator));
                        assert(!before[before.len() - 1].contains(separator));
                    }
                } else {
                    assert(parts[i] == before[i]);
                }
            }
            if before.len() == 1 {
                assert(join(parts, separator) =~= text);
            } else {
                assert(parts.drop_last() =~= before.drop_last());
                assert(join(parts, separator) =~= join(before, separator).push(text.last()));
                assert(join(parts, separator) =~= text);
            }
        }
    }
}

/// The parts of `text` between its separators.
pub fn split_text(text: &str, separator: char) -> (parts: Vec<String>)
    ensures
        parts.deep_view() == split(text@, separator),
{
    let mut parts: Vec<String> = Vec::new();
    let mut current = String::new();
    proof {
        assert(text@.take(0) =~= Seq::<char>::empty());
        assert(parts.deep_view().push(current@) =~= seq![Seq::<char>::empty()]);
    }
    for c in it: text.chars()
        invariant
            it.seq() == text@,
            split(text@.take(it.index() as int), separator) == parts.deep_view().push(current@),
    {
        let ghost done = it.index() as int;
        let ghost before = parts.deep_view();
        let ghost word = current@;
        proof {
            assert(text@.take(done + 1).drop_last() =~= text@.take(done));
            assert(text@.take(done + 1).last() == c);
        }
        if c == separator {
            parts.push(current);
            current = String::new();
            proof {
                assert(parts.deep_view() =~= before.push(word));
            }
        } else {
            current.push(c);
            proof {
                assert(before.push(word).drop_last() =~= before);
            }
        }
    }
    proof {
        assert(text@.take(text@.len() as int) =~= text@);
    }
    let ghost before = parts.deep_view();
    parts.push(current);
    proof {
        assert(parts.deep_view() =~= before.push(current@));
    }
    parts
}

/// Whether two texts hold the same characters.
pub fn same_text(a: &str, b: &str) -> (same: bool)
    ensures
        same == (a@ == b@),
{
    a.to_owned() == b.to_owned()
}

/// A copy of `texts`.
pub fn copy_texts(texts: &Vec<String>) -> (copy: Vec<String>)
    ensures
        copy.deep_view() == texts.deep_view(),
{
    let mut copy: Vec<String> = Vec::new();
    let mut i: usize = 0;
    while i < texts.len()
        invariant
            i <= texts.len(),
            copy.len() == i,
            forall|j: int| 0 <= j < i ==> copy[j]@ == texts[j]@,
        decreases texts.len() - i,
    {
        copy.push(texts[i].clone());
        i = i + 1;
    }
    assert(copy.deep_view() =~= texts.deep_view());
    copy
}

/// The character that stands for a digit.
pub open spec fn digit(d: nat) -> char {
    if d == 0 {
        '0'
    } else if d == 1 {
        '1'
    } else if d == 2 {
        '2'
    } else if d == 3 {
        '3'
    } else if d == 4 {
        '4'
    } else if d == 5 {
        '5'
    } else if d == 6 {
        '6'
    } else if d == 7 {
        '7'
    } else if d == 8 {
        '8'
    } else {
        '9'
    }
}

/// The decimal form of a number, without leading zeros.
pub open spec fn decimal(n: nat) -> Seq<char>
    decreases n,
{
    if n < 10 {
        seq![digit(n)]
    } else {
        decimal(n / 10).push(digit(n % 10))
    }
}

/// The digit that a character stands for; zero for any other character.
pub open spec fn digit_value(c: char) -> nat {
    if c == '1' {
        1
    } else if c == '2' {
        2
    } else if c == '3' {
        3
    } else if c == '4' {
        4
    } else if c == '5' {
        5
    } else if c == '6' {
        6
    } else if c == '7' {
        7
    } else if c == '8' {
        8
    } else if c == '9' {
        9
    } else {
        0
    }
}

/// The number that a row of digits stands for.
pub open spec fn number(digits: Seq<char>) -> nat
    decreases digits.len(),
{
    if digits.len() == 0 {
        0
    } else {
        number(digits.drop_last()) * 10 + digit_value(digits.last())
    }
}

/// The decimal form of a number reads back as the number, and begins with a
/// zero only where the number is zero.
pub proof fn lemma_decimal_reads_back(n: nat)
    ensures
        number(decimal(n)) == n,
        decimal(n).len() >= 1,
        decimal(n)[0] == '0' <==> n == 0,
    decreases n,
{
    if n < 10 {
        assert(decimal(n).drop_last() =~= Seq::<char>::empty());
        assert(number(decimal(n).drop_last()) == 0);
    } else {
        lemma_decimal_reads_back(n / 10);
        assert(decimal(n).drop_last() =~= decimal(n / 10));
    }
}

/// The character that stands for the digit `d`.
fn digit_char(d: u16) -> (c: char)
    requires
        d < 10,
    ensures
        c == digit(d as nat),
{
    if d == 0 {
        '0'
    } else if d == 1 {
        '1'
    } else if d == 2 {
        '2'
    } else if d == 3 {
        '3'
    } else if d == 4 {
        '4'
    } else if d == 5 {
        '5'
    } else if d == 6 {
        '6'
    } else if d == 7 {
        '7'
    } else if d == 8 {
        '8'
    } else {
        '9'
    }
}

/// The decimal form of `n`.
pub fn decimal_text(n: u16) -> (text: String)
    ensures
        text@ == decimal(n as nat),
    decreases n,
{
    if n < 10 {
        let mut text = String::new();
        text.push(digit_char(n));
        assert(text@ =~= seq![digit(n as nat)]);
        text
    } else {
        let mut text = decimal_text(n / 10);
        text.push(digit_char(n % 10));
        text
    }
}

} // verus!
