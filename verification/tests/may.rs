use jsmoke::may::{MayFrom, MayInto};
use jsmoke::verbose::Verbose;

struct Even(u8);

impl MayFrom<u8> for Even {
    fn may_from(value: u8) -> Option<Self> {
        if value % 2 == 0 {
            Some(Even(value))
        } else {
            None
        }
    }
}

impl MayInto<Even> for u8 {}

struct Quiet;

impl Verbose for Quiet {}

struct Loud;

impl Verbose for Loud {
    fn get_verbose(&self) -> String {
        "more to say".to_string()
    }
}

#[test]
fn may_into_converts_as_may_from_does() {
    assert!(<u8 as MayInto<Even>>::may_into(4).is_some_and(|e| e.0 == 4));
    assert!(<u8 as MayInto<Even>>::may_into(0).is_some_and(|e| e.0 == 0));
    assert!(<u8 as MayInto<Even>>::may_into(5).is_none());
}

#[test]
fn the_extended_message_is_empty_unless_the_implementor_gives_one() {
    assert_eq!(Quiet.get_verbose(), "");
    assert_eq!(Loud.get_verbose(), "more to say");
}
