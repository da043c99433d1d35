//! The name of the next note.
//!
//! The notes of a folder are the entries named by a number and the suffix
//! `.md`. The next note gets the number after the highest one in the folder,
//! written with two digits. Entries that are not named so do not count.
//!
//! A name counts as a number when what stands before the suffix is an
//! optional `+` and then one or more decimal digits whose value is at most
//! `MAX_SEQUENCE_NUMBER`: leading zeros are read, a value that two digits
//! cannot show is not. When the folder already holds `MAX_SEQUENCE_NUMBER`,
//! no name is left and the sequencer fails with
//! `PipelineError::CapacityExceeded`: it never widens the format.

use vstd::prelude::*;
use crate::error::PipelineError;
use crate::text::{chars_of, ends_with, matches_at, string_of};

verus! {

/// The suffix of a note's file name.
pub const NOTE_SUFFIX: &'static str = ".md";

/// The highest number a note can have: the highest that two digits show.
pub const MAX_SEQUENCE_NUMBER: u8 = 99;

/// Whether `c` is one of the ten decimal digits.
pub open spec fn is_digit(c: char) -> bool {
    '0' <= c && c <= '9'
}

/// The value of the digit `c`; 0 for any other character.
pub open spec fn digit_value(c: char) -> nat {
    if is_digit(c) {
        (c as int - '0' as int) as nat
    } else {
        0
    }
}

/// The digit that shows `value`, for a value below ten.
pub open spec fn digit_char(value: nat) -> char {
    (value + '0' as nat) as char
}

/// Whether `text` holds decimal digits only.
pub open spec fn all_digits(text: Seq<char>) -> bool {
    forall|i: int| 0 <= i < text.len() ==> is_digit(#[trigger] text[i])
}

/// The number that the decimal digits `digits` write.
pub open spec fn decimal_value(digits: Seq<char>) -> nat
    decreases digits.len(),
{
    if digits.len() == 0 {
        0
    } else {
        10 * decimal_value(digits.drop_last()) + digit_value(digits.last())
    }
}

/// `text` without its leading `+`, if it has one.
pub open spec fn without_sign(text: Seq<char>) -> Seq<char> {
    if text.len() > 0 && text[0] == '+' {
        text.skip(1)
    } else {
        text
    }
}

/// The number that `text` writes, if it writes one: an optional `+`, then one
/// or more decimal digits, with a value of at most `MAX_SEQUENCE_NUMBER`.
pub open spec fn written_number(text: Seq<char>) -> Option<nat> {
    let digits = without_sign(text);
    if digits.len() > 0 && all_digits(digits) && decimal_value(digits) <= MAX_SEQUENCE_NUMBER {
        Some(decimal_value(digits))
    } else {
        None
    }
}

/// Whether `name` is something in front of the suffix `.md`.
pub open spec fn has_note_suffix(name: Seq<char>) -> bool {
    name.len() > NOTE_SUFFIX@.len() && ends_with(name, NOTE_SUFFIX@)
}

/// The number of the note that the entry `name` holds, if it holds one.
pub open spec fn note_number(name: Seq<char>) -> Option<nat> {
    if has_note_suffix(name) {
        written_number(name.take(name.len() - NOTE_SUFFIX@.len()))
    } else {
        None
    }
}

/// The highest note number among `names`; 0 where none of them is a note.
pub open spec fn highest_number(names: Seq<Seq<char>>) -> nat
    decreases names.len(),
{
    if names.len() == 0 {
        0
    } else {
        let before = highest_number(names.drop_last());
        match note_number(names.last()) {
            Some(number) if number > before => number,
            _ => before,
        }
    }
}

/// Whether `number` is the highest note number among `names`: no note has a
/// higher one, and one has this one, unless it is 0.
pub open spec fn is_highest_number(names: Seq<Seq<char>>, number: nat) -> bool {
    &&& forall|i: int|
        0 <= i < names.len() ==> (#[trigger] note_number(names[i]) matches Some(other)
            ==> other <= number)
    &&& number == 0 || exists|i: int|
        0 <= i < names.len() && #[trigger] note_number(names[i]) == Some(number)
}

/// The file name of the note with the number `number`: its two digits and the
/// suffix.
pub open spec fn note_file_name(number: nat) -> Seq<char> {
    seq![digit_char(number / 10), digit_char(number % 10)] + NOTE_SUFFIX@
}

/// A longer row of digits writes no smaller number than its beginning.
proof fn lemma_decimal_value_grows(digits: Seq<char>, len: int)
    requires
        0 <= len <= digits.len(),
    ensures
        decimal_value(digits.take(len)) <= decimal_value(digits),
    decreases digits.len() - len,
{
    if len == digits.len() {
        assert(digits.take(len) =~= digits);
    } else {
        lemma_decimal_value_grows(digits, len + 1);
        assert(digits.take(len + 1).drop_last() =~= digits.take(len));
    }
}

/// Reads the number that `text` writes, if it writes one.
pub fn parse_number(text: &Vec<char>) -> (number: Option<u8>)
    ensures
        match number {
            Some(n) => written_number(text@) == Some(n as nat),
            None => written_number(text@) is None,
        },
{
    let start: usize = if text.len() > 0 && text[0] == '+' {
        1
    } else {
        0
    };
    let ghost digits = without_sign(text@);
    assert(digits =~= text@.skip(start as int));
    if start == text.len() {
        return None;
    }
    let mut value: u32 = 0;
    let mut i: usize = start;
    while i < text.len()
        invariant
            start <= i <= text.len(),
            digits == without_sign(text@),
            digits == text@.skip(start as int),
            all_digits(digits.take(i - start)),
            value == decimal_value(digits.take(i - start)),
            value <= MAX_SEQUENCE_NUMBER,
        decreases text.len() - i,
    {
        let c = text[i];
        assert(digits[i - start] == c);
        if !(c >= '0' && c <= '9') {
            assert(!is_digit(digits[i - start]));
            return None;
        }
        let digit: u32 = (c as u32) - ('0' as u32);
        assert(digits.take(i - start + 1).drop_last() =~= digits.take(i - start));
        value = value * 10 + digit;
        if value > MAX_SEQUENCE_NUMBER as u32 {
            proof {
                lemma_decimal_value_grows(digits, i - start + 1);
            }
            return None;
        }
        i += 1;
    }
    assert(digits.take(i - start) =~= digits);
    Some(value as u8)
}

/// Reads the number of the note that the entry `name` holds, if it holds one.
pub fn parse_note_number(name: &str) -> (number: Option<u8>)
    ensures
        match number {
            Some(n) => note_number(name@) == Some(n as nat),
            None => note_number(name@) is None,
        },
{
    let mut chars = chars_of(name);
    let suffix = chars_of(NOTE_SUFFIX);
    if chars.len() <= suffix.len() {
        return None;
    }
    let stem_len: usize = chars.len() - suffix.len();
    if !matches_at(&chars, stem_len, &suffix) {
        return None;
    }
    chars.truncate(stem_len);
    parse_number(&chars)
}

/// The highest note number among the entries `names`; 0 where none of them
/// is a note.
pub fn highest_note_number(names: &[String]) -> (highest: u8)
    ensures
        highest == highest_number(names.deep_view()),
        highest <= MAX_SEQUENCE_NUMBER,
{
    let ghost all = names.deep_view();
    let mut highest: u8 = 0;
    let mut i: usize = 0;
    while i < names.len()
        invariant
            i <= names.len(),
            all == names.deep_view(),
            highest == highest_number(all.take(i as int)),
            highest <= MAX_SEQUENCE_NUMBER,
        decreases names.len() - i,
    {
        assert(all.take(i + 1).drop_last() =~= all.take(i as int));
        assert(all.take(i + 1).last() == names[i as int]@);
        match parse_note_number(names[i].as_str()) {
            Some(number) => {
                if number > highest {
                    highest = number;
                }
            },
            None => {},
        }
        i += 1;
    }
    assert(all.take(i as int) =~= all);
    highest
}

/// The file name of the note with the number `number`. There is none for a
/// number that two digits cannot show.
pub fn format_file_name(number: u8) -> (result: Result<String, PipelineError>)
    ensures
        match result {
            Ok(name) => number <= MAX_SEQUENCE_NUMBER && name@ == note_file_name(number as nat),
            Err(error) => number > MAX_SEQUENCE_NUMBER && error
                == PipelineError::CapacityExceeded,
        },
{
    if number > MAX_SEQUENCE_NUMBER {
        return Err(PipelineError::CapacityExceeded);
    }
    let mut digits: Vec<char> = Vec::new();
    digits.push((number / 10 + ('0' as u8)) as char);
    digits.push((number % 10 + ('0' as u8)) as char);
    let mut name = string_of(&digits);
    name.append(NOTE_SUFFIX);
    assert(name@ =~= note_file_name(number as nat));
    Ok(name)
}

/// The number of the next note in a folder whose entries are `names`: the
/// number after the highest note number among them, or 1 where the folder
/// holds no note. Where the highest number is already `MAX_SEQUENCE_NUMBER`,
/// no number is left.
pub fn next_sequence_number(names: &[String]) -> (result: Result<u8, PipelineError>)
    ensures
        match result {
            Ok(number) => {
                &&& highest_number(names.deep_view()) < MAX_SEQUENCE_NUMBER
                &&& number == highest_number(names.deep_view()) + 1
            },
            Err(error) => {
                &&& highest_number(names.deep_view()) == MAX_SEQUENCE_NUMBER
                &&& error == PipelineError::CapacityExceeded
            },
        },
{
    let highest = highest_note_number(names);
    if highest < MAX_SEQUENCE_NUMBER {
        Ok(highest + 1)
    } else {
        Err(PipelineError::CapacityExceeded)
    }
}

/// The file name of the next note in a folder whose entries are `names`: the
/// number after the highest note number among them, or 1 where the folder
/// holds no note, with two digits and the suffix `.md`. No entry of the
/// folder has this name. Where the highest number is already
/// `MAX_SEQUENCE_NUMBER`, no name is left.
pub fn get_next_file_name(names: &[String]) -> (result: Result<String, PipelineError>)
    ensures
        match result {
            Ok(name) => {
                &&& highest_number(names.deep_view()) < MAX_SEQUENCE_NUMBER
                &&& name@ == note_file_name(highest_number(names.deep_view()) + 1)
                &&& forall|i: int| 0 <= i < names.len() ==> names[i]@ != name@
            },
            Err(error) => {
                &&& highest_number(names.deep_view()) == MAX_SEQUENCE_NUMBER
                &&& error == PipelineError::CapacityExceeded
            },
        },
{
    match next_sequence_number(names) {
        Ok(number) => {
            proof {
                let all = names.deep_view();
                lemma_next_name_is_new(all);
                assert forall|i: int| 0 <= i < names.len() implies names[i]@ != note_file_name(
                    number as nat,
                ) by {
                    assert(all[i] == names[i]@);
                }
            }
            format_file_name(number)
        },
        Err(error) => Err(error),
    }
}

/// `highest_number` is the maximum of the note numbers, and 0 when there is
/// no note.
pub proof fn lemma_highest_number_is_maximum(names: Seq<Seq<char>>)
    ensures
        is_highest_number(names, highest_number(names)),
    decreases names.len(),
{
    if names.len() > 0 {
        let before = names.drop_last();
        lemma_highest_number_is_maximum(before);
        let highest = highest_number(names);
        assert forall|i: int| 0 <= i < names.len() implies (#[trigger] note_number(
            names[i],
        ) matches Some(other) ==> other <= highest) by {
            if i < before.len() {
                assert(before[i] == names[i]);
            }
        }
        if highest != 0 {
            if highest == highest_number(before) {
                let i = choose|i: int|
                    0 <= i < before.len() && #[trigger] note_number(before[i]) == Some(highest);
                assert(names[i] == before[i]);
            } else {
                assert(note_number(names[names.len() - 1]) == Some(highest));
            }
        }
    }
}

/// A list of names has one highest note number only.
pub proof fn lemma_highest_number_is_unique(names: Seq<Seq<char>>, a: nat, b: nat)
    requires
        is_highest_number(names, a),
        is_highest_number(names, b),
    ensures
        a == b,
{
    if a != 0 {
        let i = choose|i: int| 0 <= i < names.len() && #[trigger] note_number(names[i]) == Some(a);
        assert(a <= b);
    }
    if b != 0 {
        let i = choose|i: int| 0 <= i < names.len() && #[trigger] note_number(names[i]) == Some(b);
        assert(b <= a);
    }
}

/// An entry that is not a note, wherever it stands among the others, does not
/// change the highest number, and so not the name of the next note.
pub proof fn lemma_other_entries_are_ignored(names: Seq<Seq<char>>, at: int, entry: Seq<char>)
    requires
        0 <= at <= names.len(),
        note_number(entry) is None,
    ensures
        highest_number(names.insert(at, entry)) == highest_number(names),
{
    let with_entry = names.insert(at, entry);
    let highest = highest_number(names);
    lemma_highest_number_is_maximum(names);
    lemma_highest_number_is_maximum(with_entry);
    assert forall|i: int| 0 <= i < with_entry.len() implies (#[trigger] note_number(
        with_entry[i],
    ) matches Some(other) ==> other <= highest) by {
        if i < at {
            assert(with_entry[i] == names[i]);
        } else if i > at {
            assert(with_entry[i] == names[i - 1]);
        }
    }
    if highest != 0 {
        let i = choose|i: int|
            0 <= i < names.len() && #[trigger] note_number(names[i]) == Some(highest);
        if i < at {
            assert(with_entry[i] == names[i]);
        } else {
            assert(with_entry[i + 1] == names[i]);
        }
    }
    lemma_highest_number_is_unique(with_entry, highest_number(with_entry), highest);
}

/// The highest number depends on which names the folder holds, not on the
/// order in which they are listed nor on how often one is listed.
pub proof fn lemma_listing_order_is_irrelevant(first: Seq<Seq<char>>, second: Seq<Seq<char>>)
    requires
        first.to_set() == second.to_set(),
    ensures
        highest_number(first) == highest_number(second),
{
    let highest = highest_number(first);
    lemma_highest_number_is_maximum(first);
    lemma_highest_number_is_maximum(second);
    assert forall|i: int| 0 <= i < second.len() implies (#[trigger] note_number(
        second[i],
    ) matches Some(other) ==> other <= highest) by {
        assert(second.to_set().contains(second[i]));
        assert(first.contains(second[i]));
        let j = choose|j: int| 0 <= j < first.len() && first[j] == second[i];
        assert(note_number(first[j]) == note_number(second[i]));
    }
    if highest != 0 {
        let i = choose|i: int|
            0 <= i < first.len() && #[trigger] note_number(first[i]) == Some(highest);
        assert(first.to_set().contains(first[i]));
        assert(second.contains(first[i]));
        let j = choose|j: int| 0 <= j < second.len() && second[j] == first[i];
        assert(note_number(second[j]) == Some(highest));
    }
    lemma_highest_number_is_unique(second, highest_number(second), highest);
}

/// The file name of a note holds the note's number.
pub proof fn lemma_file_name_holds_its_number(number: nat)
    requires
        number <= MAX_SEQUENCE_NUMBER,
    ensures
        note_number(note_file_name(number)) == Some(number),
{
    reveal_strlit(".md");
    let name = note_file_name(number);
    let stem = seq![digit_char(number / 10), digit_char(number % 10)];
    assert(name.len() == 5);
    assert(name.subrange(2, 5) =~= NOTE_SUFFIX@);
    assert(name.take(2) =~= stem);
    assert(without_sign(stem) == stem);
    assert(stem.drop_last() =~= seq![digit_char(number / 10)]);
    assert(stem.drop_last().drop_last() =~= Seq::<char>::empty());
    reveal_with_fuel(decimal_value, 3);
    assert(decimal_value(stem) == number);
}

/// The name of the next note is the name of no entry of the folder.
pub proof fn lemma_next_name_is_new(names: Seq<Seq<char>>)
    requires
        highest_number(names) < MAX_SEQUENCE_NUMBER,
    ensures
        forall|i: int|
            0 <= i < names.len() ==> #[trigger] names[i] != note_file_name(
                highest_number(names) + 1,
            ),
{
    let next = highest_number(names) + 1;
    lemma_highest_number_is_maximum(names);
    lemma_file_name_holds_its_number(next as nat);
    assert forall|i: int| 0 <= i < names.len() implies #[trigger] names[i] != note_file_name(
        next as nat,
    ) by {
        if names[i] == note_file_name(next as nat) {
            assert(note_number(names[i]) == Some(next as nat));
        }
    }
}

} // verus!
