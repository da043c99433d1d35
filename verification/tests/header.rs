use tiller::header::{
    render, render_header, title_of, update_prepend_content, DATE_TOKEN, TIMESTAMP_FORMAT,
    TITLE_TOKEN,
};

fn is_timestamp(text: &str) -> bool {
    let chars: Vec<char> = text.chars().collect();
    if chars.len() < 19 {
        return false;
    }
    let split = chars.len() - 15;
    let year = &chars[..split];
    let rest = &chars[split..];
    let year_ok = (year.len() == 4 && year.iter().all(|c| c.is_ascii_digit()))
        || (year.len() >= 5
            && (year[0] == '+' || year[0] == '-')
            && year[1..].iter().all(|c| c.is_ascii_digit()));
    let marks = [(0, '-'), (3, '-'), (6, 'T'), (9, ':'), (12, ':')];
    let rest_ok = (0..15).all(|i| match marks.iter().find(|(at, _)| *at == i) {
        Some((_, mark)) => rest[i] == *mark,
        None => rest[i].is_ascii_digit(),
    });
    year_ok && rest_ok
}

#[test]
fn header_gets_title_and_date() {
    let header = render_header("Title: $TITLE Date: $DATE", "03.md", "2024-01-01T00:00:00");
    assert_eq!(header, "Title: 03 Date: 2024-01-01T00:00:00");
}

#[test]
fn rendering_a_rendered_header_changes_nothing() {
    let once = render_header("Title: $TITLE Date: $DATE", "03.md", "2024-01-01T00:00:00");
    let twice = render_header(&once, "03.md", "2024-01-01T00:00:00");
    assert_eq!(twice, once);
    let templates = [
        "", "$", "$TITLE", "$DATE$TITLE", "$TI$TITLE", "$DA$DATETE", "$$TITLETITLE", "a $DAT b",
        "# $TITLE\n\n_$DATE_\n", "$T$I$T$L$E", "$TITL$DATEE",
    ];
    for template in templates {
        let once = render_header(template, "42.md", "2031-12-31T23:59:59");
        let twice = render_header(&once, "42.md", "2031-12-31T23:59:59");
        assert_eq!(twice, once, "{:?}", template);
    }
}

#[test]
fn every_token_is_filled() {
    assert_eq!(render("$TITLE$TITLE", "a", "b"), "aa");
    assert_eq!(render("$DATE-$DATE-$TITLE", "a", "b"), "b-b-a");
    assert_eq!(render("x$TITLEy$DATEz", "1", "2"), "x1y2z");
    assert_eq!(render("$TITLE", "", "b"), "");
    assert_eq!(render("[$DATE]", "a", ""), "[]");
}

#[test]
fn text_without_tokens_is_kept() {
    for text in ["", "plain", "$", "$$", "$TITL", "$DAT", "TITLE", "DATE", "$ TITLE", "$title", "$Date", "€ 5 ☃"] {
        assert_eq!(render(text, "a", "b"), text, "{:?}", text);
    }
}

#[test]
fn tokens_are_found_next_to_anything() {
    assert_eq!(render("$$TITLE", "a", "b"), "$a");
    assert_eq!(render("$TITLE$", "a", "b"), "a$");
    assert_eq!(render("$TITLES", "a", "b"), "aS");
    assert_eq!(render("$DATED", "a", "b"), "bD");
    assert_eq!(render("$TITL$DATE", "a", "b"), "$TITLb");
    assert_eq!(render("☃$TITLE☃$DATE☃", "é", "ü"), "☃é☃ü☃");
}

#[test]
fn what_is_put_in_is_not_searched_again() {
    assert_eq!(render("$TITLE", "$DATE", "x"), "$DATE");
    assert_eq!(render("$DATE", "x", "$TITLE"), "$TITLE");
    assert_eq!(render("$TI$TITLE", "TLE", "x"), "$TITLE");
    assert_eq!(render("$DA$TITLE", "TE", "x"), "$DATE");
    assert_eq!(render("$TITLE", "$TITLE", "x"), "$TITLE");
}

#[test]
fn the_title_is_the_name_without_its_suffix() {
    assert_eq!(title_of("03.md"), "03");
    assert_eq!(title_of("notes.md"), "notes");
    assert_eq!(title_of("notes"), "notes");
    assert_eq!(title_of("a.md.md"), "a.md");
    assert_eq!(title_of("a.md.txt"), "a.md.txt");
    assert_eq!(title_of(".md"), "");
    assert_eq!(title_of("md"), "md");
    assert_eq!(title_of(""), "");
    assert_eq!(title_of("03.MD"), "03.MD");
}

#[test]
fn the_tokens_have_their_spelling() {
    assert_eq!(TITLE_TOKEN, "$TITLE");
    assert_eq!(DATE_TOKEN, "$DATE");
    assert_eq!(TIMESTAMP_FORMAT, "%Y-%m-%dT%H:%M:%S");
}

#[test]
fn the_header_of_now_holds_a_timestamp() {
    let header = update_prepend_content("$DATE", "03.md");
    assert!(is_timestamp(&header), "{:?}", header);
    assert_eq!(header.len(), 19);
    assert!(header.starts_with("20"));
    let framed = update_prepend_content("<$TITLE|$DATE>", "03.md");
    assert!(framed.starts_with("<03|"));
    assert!(framed.ends_with(">"));
    assert!(is_timestamp(&framed[4..framed.len() - 1]));
}

#[test]
fn the_header_of_now_keeps_what_is_no_date() {
    assert_eq!(update_prepend_content("Title: $TITLE", "03.md"), "Title: 03");
    assert_eq!(update_prepend_content("", "03.md"), "");
    assert_eq!(update_prepend_content("no tokens", "notes"), "no tokens");
}
