use jsmoke::types::dot_notation::DotNotation;
use jsmoke::types::project::group::ProjectGroup;

#[test]
fn parse_error() {
    let err_samples: [&str; 4] = ["some. .empty", "no..space", "cool.group.😎", "lets.test.1t"];
    err_samples
        .into_iter()
        .for_each(|input| assert!(ProjectGroup::try_from(input).is_err()));
}

#[test]
fn parse_ok() {
    let ok_samples: [&str; 3] = ["input.number1", "input.number.two", "cool.thing"];
    ok_samples
        .into_iter()
        .for_each(|input| assert!(ProjectGroup::try_from(input).is_ok()));
}

#[test]
fn group_holds_the_words() {
    let group = ProjectGroup::try_from(" com.example.app ").expect("a group");
    assert_eq!(group.dots().words(), &vec!["com", "example", "app"]);
}

#[test]
fn group_error_holds_the_text_twice() {
    let e = ProjectGroup::try_from(" no..space").expect_err("no group");
    assert_eq!(e.provided(), " no..space");
    assert_eq!(e.parse_error().provided(), " no..space");
}

#[test]
fn group_parse_agrees_with_try_from() {
    let parsed = ProjectGroup::parse("a.b").expect("the pattern compiles");
    assert_eq!(parsed.expect("a group").dots().words(), &vec!["a", "b"]);
    let parsed = ProjectGroup::parse("a_b").expect("the pattern compiles");
    assert_eq!(parsed.expect_err("no group").provided(), "a_b");
}

#[test]
fn group_from_dots_wraps_both_outcomes() {
    let group = ProjectGroup::from_dots("x.y", DotNotation::try_from("x.y")).expect("a group");
    assert_eq!(group.dots().words(), &vec!["x", "y"]);
    let e = ProjectGroup::from_dots("given", DotNotation::try_from("X"))
        .expect_err("the error is passed on");
    assert_eq!(e.provided(), "given");
    assert_eq!(e.parse_error().provided(), "X");
}
