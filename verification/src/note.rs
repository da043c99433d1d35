//! A note, and what is written into its file.
//!
//! The file of a note holds the header, a separator and the body, in this
//! order. The separator is a space, a line break and a space. The file is
//! created anew, and a file that lies at the path already is overwritten: the
//! sequencer picks a name that the folder does not hold, so there is one only
//! when something else wrote into the folder in between.

use vstd::prelude::*;
use crate::config::{join_path, joined_path};
use crate::sequencer::{format_file_name, note_file_name, MAX_SEQUENCE_NUMBER};
use crate::text::join_texts;

verus! {

/// What stands between the header and the body in the file of a note.
pub const SEPARATOR: &'static str = " \n ";

/// One note: its number, the file it is kept in, and what it says. A note is
/// made once in a run, written, and then published; it is never changed.
#[derive(Clone, Debug, PartialEq, Eq)]
pub struct Note {
    pub sequence_number: u8,
    pub file_name: String,
    pub file_path: String,
    pub header: String,
    pub body: String,
}

/// A `Note` as plain values.
pub struct NoteView {
    pub sequence_number: nat,
    pub file_name: Seq<char>,
    pub file_path: Seq<char>,
    pub header: Seq<char>,
    pub body: Seq<char>,
}

impl View for Note {
    type V = NoteView;

    open spec fn view(&self) -> NoteView {
        NoteView {
            sequence_number: self.sequence_number as nat,
            file_name: self.file_name@,
            file_path: self.file_path@,
            header: self.header@,
            body: self.body@,
        }
    }
}

impl NoteView {
    /// Whether the note is as a note has to be: its number is between 1 and
    /// `MAX_SEQUENCE_NUMBER`, its file is named by the number, and the file
    /// lies in some folder under that name.
    pub open spec fn wf(self) -> bool {
        &&& 1 <= self.sequence_number <= MAX_SEQUENCE_NUMBER
        &&& self.file_name == note_file_name(self.sequence_number)
        &&& exists|folder: Seq<char>| self.file_path == #[trigger] joined_path(folder, self.file_name)
    }
}

/// What the file of a note with this header and body holds.
pub open spec fn note_content(header: Seq<char>, body: Seq<char>) -> Seq<char> {
    header + SEPARATOR@ + body
}

/// The note with the number `number` in `folder`.
pub open spec fn note_in(
    folder: Seq<char>,
    number: nat,
    header: Seq<char>,
    body: Seq<char>,
) -> NoteView {
    NoteView {
        sequence_number: number,
        file_name: note_file_name(number),
        file_path: joined_path(folder, note_file_name(number)),
        header,
        body,
    }
}

/// What the file of a note with this header and body holds.
pub fn compose_note(header: &str, body: &str) -> (content: String)
    ensures
        content@ == note_content(header@, body@),
{
    let mut content = join_texts(header, SEPARATOR);
    content.append(body);
    content
}

impl Note {
    /// The note with the number `sequence_number` in `folder`. There is none
    /// for a number that is not between 1 and `MAX_SEQUENCE_NUMBER`.
    pub fn new(folder: &str, sequence_number: u8, header: String, body: String) -> (note: Option<
        Note,
    >)
        ensures
            match note {
                Some(note) => {
                    &&& 1 <= sequence_number <= MAX_SEQUENCE_NUMBER
                    &&& note@ == note_in(folder@, sequence_number as nat, header@, body@)
                    &&& note@.wf()
                },
                None => sequence_number < 1 || sequence_number > MAX_SEQUENCE_NUMBER,
            },
    {
        if sequence_number < 1 {
            return None;
        }
        match format_file_name(sequence_number) {
            Ok(file_name) => {
                let file_path = join_path(folder, file_name.as_str());
                Some(Note { sequence_number, file_name, file_path, header, body })
            },
            Err(_) => None,
        }
    }

    /// What the file of this note holds.
    pub fn content(&self) -> (content: String)
        ensures
            content@ == note_content(self@.header, self@.body),
    {
        compose_note(self.header.as_str(), self.body.as_str())
    }
}

} // verus!
