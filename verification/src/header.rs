//! The header of a note: a template, filled with the note's title and the
//! time of writing.
//!
//! A template is any text. Where it holds the token `$TITLE` the title is put,
//! where it holds `$DATE` the timestamp; everything else is kept as it is. The
//! template is read once from left to right: what has been put in for a token
//! is not searched for tokens again.

use vstd::prelude::*;
use crate::sequencer::{
    all_digits, digit_char, is_digit, note_file_name, MAX_SEQUENCE_NUMBER, NOTE_SUFFIX,
};
use crate::text::{chars_of, ends_with, matches_at, occurs_at, string_of};

verus! {

/// The token that stands for the note's title.
pub const TITLE_TOKEN: &'static str = "$TITLE";

/// The token that stands for the time of writing.
pub const DATE_TOKEN: &'static str = "$DATE";

/// How the time of writing is written: year, month and day, a `T`, then hour,
/// minute and second, as in `2024-01-01T00:00:00`.
pub const TIMESTAMP_FORMAT: &'static str = "%Y-%m-%dT%H:%M:%S";

/// The title under which the note in the file `file_name` is shown: the file
/// name without the suffix `.md`, if it has it.
pub open spec fn display_title(file_name: Seq<char>) -> Seq<char> {
    if ends_with(file_name, NOTE_SUFFIX@) {
        file_name.take(file_name.len() - NOTE_SUFFIX@.len())
    } else {
        file_name
    }
}

/// What the part of `template` from index `from` on becomes when `title`
/// is put for each `$TITLE` and `timestamp` for each `$DATE`.
pub open spec fn rendered_from(
    template: Seq<char>,
    from: int,
    title: Seq<char>,
    timestamp: Seq<char>,
) -> Seq<char>
    decreases template.len() - from,
    via rendered_from_ends
{
    if from < 0 || from >= template.len() {
        Seq::empty()
    } else if occurs_at(template, from, TITLE_TOKEN@) {
        title + rendered_from(template, from + TITLE_TOKEN@.len(), title, timestamp)
    } else if occurs_at(template, from, DATE_TOKEN@) {
        timestamp + rendered_from(template, from + DATE_TOKEN@.len(), title, timestamp)
    } else {
        seq![template[from]] + rendered_from(template, from + 1, title, timestamp)
    }
}

/// Each token has at least one character, so each step moves on.
#[via_fn]
proof fn rendered_from_ends(
    template: Seq<char>,
    from: int,
    title: Seq<char>,
    timestamp: Seq<char>,
) {
    reveal_strlit("$TITLE");
    reveal_strlit("$DATE");
}

/// What `template` becomes when `title` is put for each `$TITLE` and
/// `timestamp` for each `$DATE`.
pub open spec fn rendered(template: Seq<char>, title: Seq<char>, timestamp: Seq<char>) -> Seq<
    char,
> {
    rendered_from(template, 0, title, timestamp)
}

/// The header of the note in the file `file_name`, written at `timestamp`.
pub open spec fn rendered_header(
    template: Seq<char>,
    file_name: Seq<char>,
    timestamp: Seq<char>,
) -> Seq<char> {
    rendered(template, display_title(file_name), timestamp)
}

/// Whether `text` writes a year as a timestamp does: with four digits, or,
/// where four digits cannot show it, with a sign and at least four digits.
pub open spec fn is_year_text(text: Seq<char>) -> bool {
    ||| text.len() == 4 && all_digits(text)
    ||| text.len() >= 5 && (text[0] == '+' || text[0] == '-') && all_digits(text.skip(1))
}

/// Whether `text` is what follows the year in a timestamp: month, day, hour,
/// minute and second, of two digits each, as in `-01-01T00:00:00`.
pub open spec fn is_time_of_year_text(text: Seq<char>) -> bool {
    &&& text.len() == 15
    &&& text[0] == '-' && is_digit(text[1]) && is_digit(text[2])
    &&& text[3] == '-' && is_digit(text[4]) && is_digit(text[5])
    &&& text[6] == 'T' && is_digit(text[7]) && is_digit(text[8])
    &&& text[9] == ':' && is_digit(text[10]) && is_digit(text[11])
    &&& text[12] == ':' && is_digit(text[13]) && is_digit(text[14])
}

/// Whether `text` has the form of a timestamp, as in `2024-01-01T00:00:00`.
pub open spec fn is_timestamp_text(text: Seq<char>) -> bool {
    &&& text.len() >= 19
    &&& is_year_text(text.take(text.len() - 15))
    &&& is_time_of_year_text(text.skip(text.len() - 15))
}

/// The local time of the moment of the call, read from the machine's clock by
/// `chrono::Local::now` and written by `chrono::DateTime::format` in the
/// pattern `TIMESTAMP_FORMAT`.
///
/// Nothing is claimed of which moment it is. What is claimed is the form that
/// the pattern gives to every moment: the year with four digits, or with a
/// sign and at least four digits where it is not between 0 and 9999, then
/// month, day, hour, minute and second with two digits each, and the marks of
/// the pattern between them.
///
/// `chrono` panics where the machine's clock stands before 1970, or after the
/// last year that it can count.
#[verifier::external_body]
pub(crate) fn local_timestamp() -> (timestamp: String)
    ensures
        is_timestamp_text(timestamp@),
{
    chrono::Local::now().format(TIMESTAMP_FORMAT).to_string()
}

/// The title under which the note in the file `file_name` is shown.
pub fn title_of(file_name: &str) -> (title: String)
    ensures
        title@ == display_title(file_name@),
{
    let mut chars = chars_of(file_name);
    let suffix = chars_of(NOTE_SUFFIX);
    if chars.len() >= suffix.len() {
        let stem_len: usize = chars.len() - suffix.len();
        if matches_at(&chars, stem_len, &suffix) {
            chars.truncate(stem_len);
        }
    }
    string_of(&chars)
}

/// Fills `template`: `title` for each `$TITLE`, `timestamp` for each `$DATE`.
pub fn render(template: &str, title: &str, timestamp: &str) -> (text: String)
    ensures
        text@ == rendered(template@, title@, timestamp@),
{
    let source = chars_of(template);
    let title_token = chars_of(TITLE_TOKEN);
    let date_token = chars_of(DATE_TOKEN);
    proof {
        reveal_strlit("$TITLE");
        reveal_strlit("$DATE");
    }
    let mut text = String::new();
    let mut i: usize = 0;
    while i < source.len()
        invariant
            i <= source.len(),
            source@ == template@,
            title_token@ == TITLE_TOKEN@,
            date_token@ == DATE_TOKEN@,
            title_token@.len() == 6,
            date_token@.len() == 5,
            text@ + rendered_from(template@, i as int, title@, timestamp@) == rendered(
                template@,
                title@,
                timestamp@,
            ),
        decreases source.len() - i,
    {
        let ghost before = text@;
        let ghost rest = rendered_from(template@, i as int, title@, timestamp@);
        if matches_at(&source, i, &title_token) {
            text.append(title);
            i += title_token.len();
        } else if matches_at(&source, i, &date_token) {
            text.append(timestamp);
            i += date_token.len();
        } else {
            text.push(source[i]);
            i += 1;
        }
        assert(text@ + rendered_from(template@, i as int, title@, timestamp@) =~= before + rest);
    }
    assert(text@ + Seq::<char>::empty() =~= text@);
    text
}

/// The header of the note in the file `file_name`, written at `timestamp`:
/// `template` with the note's title for each `$TITLE` and `timestamp` for each
/// `$DATE`.
pub fn render_header(template: &str, file_name: &str, timestamp: &str) -> (header: String)
    ensures
        header@ == rendered_header(template@, file_name@, timestamp@),
{
    let title = title_of(file_name);
    render(template, title.as_str(), timestamp)
}

/// The header of the note in the file `filename`, written now: `template`
/// with the note's title for each `$TITLE` and the local time of the call for
/// each `$DATE`.
pub fn update_prepend_content(template: &str, filename: &str) -> (header: String)
    ensures
        exists|timestamp: Seq<char>|
            is_timestamp_text(timestamp) && header@ == #[trigger] rendered_header(
                template@,
                filename@,
                timestamp,
            ),
{
    let timestamp = local_timestamp();
    render_header(template, filename, timestamp.as_str())
}

/// Whether one of the two tokens stands in `text` at index `at`.
pub open spec fn token_at(text: Seq<char>, at: int) -> bool {
    occurs_at(text, at, TITLE_TOKEN@) || occurs_at(text, at, DATE_TOKEN@)
}

/// Whether one of the two tokens stands somewhere in `text`.
pub open spec fn holds_token(text: Seq<char>) -> bool {
    exists|at: int| token_at(text, at)
}

/// Whether `c` is a character of one of the two tokens.
pub open spec fn is_token_char(c: char) -> bool {
    TITLE_TOKEN@.contains(c) || DATE_TOKEN@.contains(c)
}

/// Whether `value`, put in for a token, can neither be nor complete a token:
/// it is not empty, it begins with a character that stands in no token, and
/// it holds no `$`.
pub open spec fn brings_no_token(value: Seq<char>) -> bool {
    &&& value.len() > 0
    &&& !is_token_char(value[0])
    &&& forall|i: int| 0 <= i < value.len() ==> #[trigger] value[i] != '$'
}

/// From an index on at which and after which no token stands, the template
/// is kept as it is.
proof fn lemma_kept_from(template: Seq<char>, from: int, title: Seq<char>, timestamp: Seq<char>)
    requires
        0 <= from <= template.len(),
        forall|at: int| from <= at ==> !token_at(template, at),
    ensures
        rendered_from(template, from, title, timestamp) == template.skip(from),
    decreases template.len() - from,
{
    if from < template.len() {
        assert(!token_at(template, from));
        lemma_kept_from(template, from + 1, title, timestamp);
        assert(seq![template[from]] + template.skip(from + 1) =~= template.skip(from));
    } else {
        assert(template.skip(from) =~= Seq::<char>::empty());
    }
}

/// If what is rendered from `from` on begins with the part of `token` after
/// its first `done` characters, that part stands in the template at `from`.
proof fn lemma_tail_comes_from_template(
    template: Seq<char>,
    from: int,
    title: Seq<char>,
    timestamp: Seq<char>,
    token: Seq<char>,
    done: int,
)
    requires
        0 <= from <= template.len(),
        token == TITLE_TOKEN@ || token == DATE_TOKEN@,
        1 <= done <= token.len(),
        brings_no_token(title),
        brings_no_token(timestamp),
        occurs_at(rendered_from(template, from, title, timestamp), 0, token.skip(done)),
    ensures
        occurs_at(template, from, token.skip(done)),
    decreases token.len() - done,
{
    reveal_strlit("$TITLE");
    reveal_strlit("$DATE");
    let tail = token.skip(done);
    let text = rendered_from(template, from, title, timestamp);
    if done == token.len() {
        assert(template.subrange(from, from + 0) =~= tail);
    } else {
        assert(text.subrange(0, tail.len() as int)[0] == tail[0]);
        assert(tail[0] == token[done]);
        assert(is_token_char(token[done])) by {
            assert(token.contains(token[done]));
        }
        assert(tail[0] != '$');
        assert(from < template.len());
        if occurs_at(template, from, TITLE_TOKEN@) {
            assert(text[0] == title[0]);
            assert(false);
        } else if occurs_at(template, from, DATE_TOKEN@) {
            assert(text[0] == timestamp[0]);
            assert(false);
        } else {
            let after = rendered_from(template, from + 1, title, timestamp);
            assert(text == seq![template[from]] + after);
            assert(template[from] == tail[0]);
            let next_tail = token.skip(done + 1);
            assert(after.subrange(0, next_tail.len() as int) =~= next_tail) by {
                assert forall|k: int| 0 <= k < next_tail.len() implies after[k] == next_tail[k] by {
                    assert(text.subrange(0, tail.len() as int)[k + 1] == tail[k + 1]);
                }
            }
            lemma_tail_comes_from_template(template, from + 1, title, timestamp, token, done + 1);
            assert(template.subrange(from, from + tail.len()) =~= tail) by {
                assert forall|k: int| 0 <= k < tail.len() implies template[from + k]
                    == tail[k] by {
                    if k > 0 {
                        assert(template.subrange(from + 1, from + 1 + next_tail.len())[k - 1]
                            == next_tail[k - 1]);
                    }
                }
            }
        }
    }
}

/// No token stands in what is rendered from `from` on.
proof fn lemma_no_token_from(
    template: Seq<char>,
    from: int,
    title: Seq<char>,
    timestamp: Seq<char>,
    token: Seq<char>,
    at: int,
)
    requires
        0 <= from <= template.len(),
        token == TITLE_TOKEN@ || token == DATE_TOKEN@,
        brings_no_token(title),
        brings_no_token(timestamp),
    ensures
        !occurs_at(rendered_from(template, from, title, timestamp), at, token),
    decreases template.len() - from,
{
    reveal_strlit("$TITLE");
    reveal_strlit("$DATE");
    let text = rendered_from(template, from, title, timestamp);
    if occurs_at(text, at, token) {
        let found = text.subrange(at, at + token.len());
        assert(found[0] == token[0]);
        assert(text[at] == '$');
        assert(from < template.len());
        let in_title = occurs_at(template, from, TITLE_TOKEN@);
        let in_date = occurs_at(template, from, DATE_TOKEN@);
        if in_title || in_date {
            let value = if in_title {
                title
            } else {
                timestamp
            };
            let next = if in_title {
                from + TITLE_TOKEN@.len()
            } else {
                from + DATE_TOKEN@.len()
            };
            let after = rendered_from(template, next, title, timestamp);
            assert(text == value + after);
            if at < value.len() {
                assert(text[at] == value[at]);
                assert(false);
            } else {
                assert(after.subrange(at - value.len(), at - value.len() + token.len()) =~= found);
                lemma_no_token_from(template, next, title, timestamp, token, at - value.len());
            }
        } else {
            let after = rendered_from(template, from + 1, title, timestamp);
            assert(text == seq![template[from]] + after);
            if at > 0 {
                assert(after.subrange(at - 1, at - 1 + token.len()) =~= found);
                lemma_no_token_from(template, from + 1, title, timestamp, token, at - 1);
            } else {
                let tail = token.skip(1);
                assert(after.subrange(0, tail.len() as int) =~= tail) by {
                    assert forall|k: int| 0 <= k < tail.len() implies after[k] == tail[k] by {
                        assert(found[k + 1] == token[k + 1]);
                    }
                }
                lemma_tail_comes_from_template(template, from + 1, title, timestamp, token, 1);
                assert(template.subrange(from, from + token.len()) =~= token) by {
                    assert forall|k: int| 0 <= k < token.len() implies template[from + k]
                        == token[k] by {
                        if k > 0 {
                            assert(template.subrange(from + 1, from + 1 + tail.len())[k - 1]
                                == tail[k - 1]);
                        }
                    }
                }
                assert(occurs_at(template, from, token));
                assert(false);
            }
        }
    }
}

/// A text in which no token stands is rendered as it is, whatever the title
/// and the timestamp.
pub proof fn lemma_text_without_token_is_kept(
    text: Seq<char>,
    title: Seq<char>,
    timestamp: Seq<char>,
)
    requires
        !holds_token(text),
    ensures
        rendered(text, title, timestamp) == text,
{
    lemma_kept_from(text, 0, title, timestamp);
    assert(text.skip(0) =~= text);
}

/// Where neither the title nor the timestamp can be or complete a token, no
/// token is left in what is rendered.
pub proof fn lemma_rendered_holds_no_token(
    template: Seq<char>,
    title: Seq<char>,
    timestamp: Seq<char>,
)
    requires
        brings_no_token(title),
        brings_no_token(timestamp),
    ensures
        !holds_token(rendered(template, title, timestamp)),
{
    let text = rendered(template, title, timestamp);
    assert forall|at: int| !token_at(text, at) by {
        lemma_no_token_from(template, 0, title, timestamp, TITLE_TOKEN@, at);
        lemma_no_token_from(template, 0, title, timestamp, DATE_TOKEN@, at);
    }
}

/// Rendering is idempotent on tokens already substituted: where neither the
/// title nor the timestamp can be or complete a token, rendering what was
/// rendered changes nothing.
pub proof fn lemma_rendering_twice_changes_nothing(
    template: Seq<char>,
    title: Seq<char>,
    timestamp: Seq<char>,
)
    requires
        brings_no_token(title),
        brings_no_token(timestamp),
    ensures
        rendered(rendered(template, title, timestamp), title, timestamp) == rendered(
            template,
            title,
            timestamp,
        ),
{
    lemma_rendered_holds_no_token(template, title, timestamp);
    lemma_text_without_token_is_kept(rendered(template, title, timestamp), title, timestamp);
}

/// A timestamp can neither be nor complete a token.
pub proof fn lemma_timestamp_brings_no_token(timestamp: Seq<char>)
    requires
        is_timestamp_text(timestamp),
    ensures
        brings_no_token(timestamp),
{
    reveal_strlit("$TITLE");
    reveal_strlit("$DATE");
    let split = timestamp.len() - 15;
    let year = timestamp.take(split);
    let rest = timestamp.skip(split);
    assert forall|i: int| 0 <= i < timestamp.len() implies #[trigger] timestamp[i] != '$' by {
        if i < split {
            assert(year[i] == timestamp[i]);
            if i > 0 && year.len() >= 5 {
                assert(year.skip(1)[i - 1] == year[i]);
            }
        } else {
            assert(rest[i - split] == timestamp[i]);
        }
    }
    assert(year[0] == timestamp[0]);
    assert(is_digit(timestamp[0]) || timestamp[0] == '+' || timestamp[0] == '-');
}

/// The header of a note is stable: for a note named by its number, rendering
/// its header once more, with the same title and timestamp, changes nothing.
pub proof fn lemma_header_of_a_note_is_stable(
    template: Seq<char>,
    number: nat,
    timestamp: Seq<char>,
)
    requires
        number <= MAX_SEQUENCE_NUMBER,
        is_timestamp_text(timestamp),
    ensures
        rendered_header(
            rendered_header(template, note_file_name(number), timestamp),
            note_file_name(number),
            timestamp,
        ) == rendered_header(template, note_file_name(number), timestamp),
{
    reveal_strlit("$TITLE");
    reveal_strlit("$DATE");
    reveal_strlit(".md");
    let name = note_file_name(number);
    let title = display_title(name);
    assert(name.subrange(2, 5) =~= NOTE_SUFFIX@);
    assert(title =~= seq![digit_char(number / 10), digit_char(number % 10)]);
    lemma_timestamp_brings_no_token(timestamp);
    lemma_rendering_twice_changes_nothing(template, title, timestamp);
}

} // verus!
