//! Texts: numbers in decimal, and words joined by spaces.

use vstd::prelude::*;
use vstd::string::*;

verus! {

/// The texts of a list of strings.
pub open spec fn texts(strings: Seq<String>) -> Seq<Seq<char>> {
    strings.map_values(|string: String| string@)
}

/// The text of a string, where there is one.
pub open spec fn text_of(string: Option<String>) -> Option<Seq<char>> {
    match string {
        Some(string) => Some(string@),
        None => None,
    }
}

/// The text of a borrowed string, where there is one.
pub open spec fn text_of_ref(string: Option<&str>) -> Option<Seq<char>> {
    match string {
        Some(string) => Some(string@),
        None => None,
    }
}

/// The character of a decimal digit.
pub open spec fn digit(value: nat) -> char {
    (48 + value) as char
}

/// A number in decimal, without leading zeros.
pub open spec fn decimal(value: nat) -> Seq<char>
    decreases value,
{
    if value < 10 {
        seq![digit(value)]
    } else {
        decimal(value / 10).push(digit(value % 10))
    }
}

/// The words, one space between each and the next.
pub open spec fn joined(words: Seq<Seq<char>>) -> Seq<char>
    decreases words.len(),
{
    if words.len() == 0 {
        Seq::empty()
    } else if words.len() == 1 {
        words[0]
    } else {
        joined(words.drop_last()).push(' ') + words.last()
    }
}

fn digit_text(value: usize) -> (text: &'static str)
    requires
        value < 10,
    ensures
        text@ == seq![digit(value as nat)],
{
    proof {
        reveal_strlit("0");
        reveal_strlit("1");
        reveal_strlit("2");
        reveal_strlit("3");
        reveal_strlit("4");
        reveal_strlit("5");
        reveal_strlit("6");
        reveal_strlit("7");
        reveal_strlit("8");
        reveal_strlit("9");
    }
    match value {
        0 => "0",
        1 => "1",
        2 => "2",
        3 => "3",
        4 => "4",
        5 => "5",
        6 => "6",
        7 => "7",
        8 => "8",
        _ => "9",
    }
}

/// Writes `value` in decimal at the end of `text`.
pub fn append_decimal(text: &mut String, value: usize)
    ensures
        final(text)@ == old(text)@ + decimal(value as nat),
    decreases value,
{
    if value >= 10 {
        append_decimal(text, value / 10);
    }
    text.append(digit_text(value % 10));
    assert(text@ =~= old(text)@ + decimal(value as nat));
}

/// The words joined by single spaces.
pub fn join(words: &[String]) -> (text: String)
    ensures
        text@ == joined(texts(words@)),
{
    let mut text = String::new();
    let mut at: usize = 0;
    proof {
        reveal_strlit(" ");
    }
    assert(texts(words@).take(0) =~= Seq::<Seq<char>>::empty());
    while at < words.len()
        invariant
            at <= words@.len(),
            " "@ =~= seq![' '],
            text@ == joined(texts(words@).take(at as int)),
        decreases words@.len() - at,
    {
        let ghost next = texts(words@).take(at + 1);
        assert(next.drop_last() =~= texts(words@).take(at as int));
        assert(next.last() == words@[at as int]@);
        if at > 0 {
            text.append(" ");
        }
        text.append(words[at].as_str());
        assert(text@ =~= joined(next));
        at += 1;
    }
    assert(texts(words@).take(at as int) =~= texts(words@));
    text
}

/// A digit put behind a number is written behind it, and a number below ten is
/// one character, counted from `'0'`.
pub proof fn law_digits_are_written_in_order(number: nat, last: nat)
    requires
        last < 10,
    ensures
        decimal(last).len() == 1,
        decimal(last)[0] as int == '0' as int + last,
        number > 0 ==> decimal(number * 10 + last) == decimal(number) + decimal(last),
{
    if number > 0 {
        assert((number * 10 + last) / 10 == number);
        assert((number * 10 + last) % 10 == last);
        assert(decimal(number * 10 + last) =~= decimal(number) + decimal(last));
    }
}

/// Two numbers are never written alike.
pub proof fn law_numbers_are_told_apart(a: nat, b: nat)
    ensures
        decimal(a) == decimal(b) <==> a == b,
    decreases a,
{
    lemma_decimal_is_not_empty(a / 10);
    lemma_decimal_is_not_empty(b / 10);
    if decimal(a) == decimal(b) {
        assert(decimal(a).last() == digit(a % 10));
        assert(decimal(b).last() == digit(b % 10));
        assert(digit(a % 10) as int == 48 + a % 10);
        assert(digit(b % 10) as int == 48 + b % 10);
        if a >= 10 && b >= 10 {
            assert(decimal(a).drop_last() =~= decimal(a / 10));
            assert(decimal(b).drop_last() =~= decimal(b / 10));
            law_numbers_are_told_apart(a / 10, b / 10);
        }
    }
}

proof fn lemma_decimal_is_not_empty(value: nat)
    ensures
        decimal(value).len() > 0,
{
}

/// Words joined in two parts are the parts with a space between them, one word
/// is itself, and no words are nothing.
pub proof fn law_words_are_joined_by_single_spaces(
    front: Seq<Seq<char>>,
    back: Seq<Seq<char>>,
    word: Seq<char>,
)
    requires
        front.len() > 0,
        back.len() > 0,
    ensures
        joined(front + back) == joined(front) + seq![' '] + joined(back),
        joined(seq![word]) == word,
        joined(Seq::<Seq<char>>::empty()) == Seq::<char>::empty(),
    decreases back.len(),
{
    assert((front + back).drop_last() =~= front + back.drop_last());
    if back.len() == 1 {
        assert(front + back.drop_last() =~= front);
        assert(joined(front + back) =~= joined(front) + seq![' '] + joined(back));
    } else {
        law_words_are_joined_by_single_spaces(front, back.drop_last(), word);
        assert(joined(front + back) =~= joined(front) + seq![' '] + joined(back));
    }
}

/// Each string of a list is read as its own text, and so is a single one.
pub proof fn law_strings_are_read_as_they_stand(strings: Seq<String>, at: int, string: String)
    requires
        0 <= at < strings.len(),
    ensures
        texts(strings).len() == strings.len(),
        texts(strings)[at] == strings[at]@,
        text_of(Some(string)) == Some(string@),
        text_of(None) is None,
{
}

} // verus!
