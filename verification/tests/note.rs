use tiller::note::{compose_note, Note, SEPARATOR};

#[test]
fn content_is_header_separator_body() {
    assert_eq!(compose_note("H", "B"), "H \n B");
}

#[test]
fn the_separator_is_space_newline_space() {
    assert_eq!(SEPARATOR, " \n ");
    assert_eq!(compose_note("", ""), " \n ");
    assert_eq!(compose_note("# 03\n", "first line\nsecond line\n"), "# 03\n \n first line\nsecond line\n");
}

#[test]
fn a_note_is_named_by_its_number() {
    let note = Note::new("repo/til", 7, "H".to_string(), "B".to_string()).unwrap();
    assert_eq!(note.sequence_number, 7);
    assert_eq!(note.file_name, "07.md");
    assert_eq!(note.file_path, "repo/til/07.md");
    assert_eq!(note.header, "H");
    assert_eq!(note.body, "B");
    assert_eq!(note.content(), "H \n B");
}

#[test]
fn a_note_has_a_number_between_1_and_99() {
    assert_eq!(Note::new("f", 0, "H".to_string(), "B".to_string()), None);
    assert_eq!(Note::new("f", 100, "H".to_string(), "B".to_string()), None);
    assert_eq!(Note::new("f", 255, "H".to_string(), "B".to_string()), None);
    assert_eq!(Note::new("f", 1, String::new(), "B".to_string()).unwrap().file_name, "01.md");
    assert_eq!(Note::new("f", 99, String::new(), "B".to_string()).unwrap().file_path, "f/99.md");
}
