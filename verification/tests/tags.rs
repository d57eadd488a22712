use jsmoke::visuals::tags::{
    TagKind, UnparseableTagKind, ERROR_TAG, NOTE_TAG, OK_TAG, WARNING_TAG,
};

#[test]
fn ok_parsing() {
    // use literals to avoid accidental const changes.
    [
        ("error", ERROR_TAG),
        ("warn", WARNING_TAG),
        ("note", NOTE_TAG),
        ("ok", OK_TAG),
    ]
    .into_iter()
    .for_each(|(s, k)| assert_eq!(TagKind::try_from(s), Ok(k)))
}

#[test]
fn err_parsing() {
    [
        ("   ", UnparseableTagKind::EmptyKind),
        (
            " not valid ",
            UnparseableTagKind::InvalidKind("not valid".into()),
        ),
        ("Bob", UnparseableTagKind::InvalidKind("bob".into())),
    ]
    .into_iter()
    .for_each(|(s, e)| assert_eq!(TagKind::try_from(s), Err(e)));
}

#[test]
fn kinds_are_read_whatever_their_case() {
    assert_eq!(TagKind::try_from(" ERROR\n"), Ok(TagKind::ErrorKind));
    assert_eq!(TagKind::try_from("Warn"), Ok(TagKind::WarningKind));
    assert_eq!(TagKind::try_from("nOtE"), Ok(TagKind::NoteKind));
    assert_eq!(TagKind::try_from("\tOK"), Ok(TagKind::OkKind));
    assert_eq!(TagKind::try_from(""), Err(UnparseableTagKind::EmptyKind));
    assert_eq!(
        TagKind::try_from("warning"),
        Err(UnparseableTagKind::InvalidKind("warning".into()))
    );
    assert_eq!(
        TagKind::try_from("ÉRROR"),
        Err(UnparseableTagKind::InvalidKind("érror".into()))
    );
}

#[test]
fn from_lowercase_does_not_lower_the_case() {
    assert_eq!(TagKind::from_lowercase(" ok "), Ok(TagKind::OkKind));
    assert_eq!(
        TagKind::from_lowercase("OK"),
        Err(UnparseableTagKind::InvalidKind("OK".into()))
    );
    assert_eq!(TagKind::from_lowercase(" \t"), Err(UnparseableTagKind::EmptyKind));
}

#[test]
fn simple_words_are_as_listed() {
    assert_eq!(ERROR_TAG.as_simple_str(), "error");
    assert_eq!(WARNING_TAG.as_simple_str(), "warn");
    assert_eq!(NOTE_TAG.as_simple_str(), "note");
    assert_eq!(OK_TAG.as_simple_str(), "ok");
}

#[test]
fn tags_end_with_a_colon_and_a_space() {
    assert_eq!(TagKind::with_colon("note"), "note: ");
    for kind in [ERROR_TAG, WARNING_TAG, NOTE_TAG, OK_TAG] {
        let tag = kind.to_string();
        assert!(tag.ends_with(": "));
        assert!(tag.contains(kind.as_simple_str()));
    }
}

#[test]
fn tags_are_the_plain_words_where_colours_are_off() {
    colored::control::set_override(false);
    assert_eq!(ERROR_TAG.to_string(), "error: ");
    assert_eq!(WARNING_TAG.to_string(), "warn: ");
    assert_eq!(NOTE_TAG.to_string(), "note: ");
    assert_eq!(OK_TAG.to_string(), "ok: ");
}

#[test]
fn tags_are_in_their_colours_where_colours_are_on() {
    colored::control::set_override(true);
    assert_eq!(ERROR_TAG.to_string(), "\x1b[91merror\x1b[0m: ");
    assert_eq!(WARNING_TAG.to_string(), "\x1b[93mwarn\x1b[0m: ");
    assert_eq!(NOTE_TAG.to_string(), "\x1b[96mnote\x1b[0m: ");
    assert_eq!(OK_TAG.to_string(), "\x1b[92mok\x1b[0m: ");
}
