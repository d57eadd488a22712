use jsmoke::types::dot_notation::DotNotation;

#[test]
fn parse_success() {
    let ok_samples: [&str; 3] = [
        "  this.is.a.group   ",
        "a.second.group.here",
        "group1.with2.number3",
    ];
    ok_samples
        .into_iter()
        .for_each(|s| assert!(DotNotation::try_from(s).is_ok()))
}

#[test]
fn parse_fails() {
    let err_samples: [&str; 5] = [
        "Uppercase.group",
        "underscore_separated",
        "middle. .whitespace",
        "cool.emoji| 😎",
        "starting.with.number.5",
    ];
    err_samples
        .into_iter()
        .for_each(|s| assert!(DotNotation::try_from(s).is_err()))
}

#[test]
fn words_are_the_split_of_the_text() {
    for s in ["a.b.c", "group", "x1.y22.z333", "a.b", "org.example.tool.cli"] {
        let dots = DotNotation::try_from(s).expect("a dotted identifier");
        let expected: Vec<String> = s.split('.').map(|w| w.to_string()).collect();
        assert_eq!(dots.words(), &expected);
    }
}

#[test]
fn words_are_the_split_of_the_trimmed_text() {
    let dots = DotNotation::try_from("  this.is.a.group   ").expect("a dotted identifier");
    assert_eq!(dots.words(), &vec!["this", "is", "a", "group"]);
    let dots = DotNotation::try_from("\tone\n").expect("a dotted identifier");
    assert_eq!(dots.words(), &vec!["one"]);
}

#[test]
fn a_match_of_a_prefix_is_not_enough() {
    assert!(DotNotation::try_from("group. extra").is_err());
    assert!(DotNotation::try_from("xgroup;").is_err());
    assert!(DotNotation::try_from("a.b.").is_err());
    assert!(DotNotation::try_from(".a.b").is_err());
    assert!(DotNotation::try_from("a..b").is_err());
    assert!(DotNotation::try_from("a b").is_err());
}

#[test]
fn empty_and_blank_texts_are_no_dotted_identifiers() {
    assert!(DotNotation::try_from("").is_err());
    assert!(DotNotation::try_from("   ").is_err());
}

#[test]
fn error_holds_the_text_as_it_came() {
    let e = DotNotation::try_from("  Not.This ").expect_err("no dotted identifier");
    assert_eq!(e.provided(), "  Not.This ");
}

#[test]
fn parse_agrees_with_try_from() {
    let parsed = DotNotation::parse("a.b.c").expect("the pattern compiles");
    assert_eq!(parsed.expect("a dotted identifier").words(), &vec!["a", "b", "c"]);
    let parsed = DotNotation::parse("A.b.c").expect("the pattern compiles");
    assert_eq!(parsed.expect_err("no dotted identifier").provided(), "A.b.c");
}

#[test]
fn from_match_goes_by_the_match_it_is_given() {
    assert!(DotNotation::from_match("a.b", Some("a.b")).is_ok());
    assert!(DotNotation::from_match("a.b", Some("a")).is_err());
    assert!(DotNotation::from_match("a.b", None).is_err());
    let dots = DotNotation::from_match(" a.b ", Some(" a.b ")).expect("the match is whole");
    assert_eq!(dots.words(), &vec!["a", "b"]);
}
