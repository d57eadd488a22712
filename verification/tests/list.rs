use jsmoke::visuals::list::{Bullet, List};

#[test]
fn items() {
    let mut list: List<&str> = List::new();
    assert!(list.is_empty());
    assert!(!list.with_items(&["item 1", "item 2"]).is_empty() && list.len() == 2);
    let mut iter = list.clone().into_iter().into_iter();
    assert!(iter.next().is_some_and(|item| item.get_item() == "item 1"));
    assert!(iter.next().is_some_and(|item| item.get_item() == "item 2"));
    assert!(iter.next().is_none());
    assert!(list.without_items().is_empty());
}

#[test]
fn bullet() {
    let mut list: List<&str> = List::new();
    assert!(list.get_bullet().is_none());
    assert_eq!(
        list.with_bullet(Bullet::Symbol("*")).get_bullet(),
        Some(&Bullet::Symbol("*"))
    );
    assert!(list.get_bullet().is_some_and(
        |b| b.get_symbol().is_some_and(|s| *s == "*") && b.get_num_offset().is_none()
    ));
    assert_eq!(
        list.with_bullet(Bullet::Numeric(2))
            .get_bullet()
            .and_then(|b| b.get_num_offset()),
        Some(2)
    );
    let variants: [fn(usize) -> Bullet<&'static str>; 3] =
        [Bullet::Numeric, Bullet::NumericDot, Bullet::NumericParen];
    let expected = |n: usize, variant: fn(usize) -> Bullet<&'static str>| match variant(n) {
        Bullet::Numeric(_) => format!("{}", n),
        Bullet::NumericDot(_) => format!("{}.", n),
        Bullet::NumericParen(_) => format!("{})", n),
        x => unreachable!("this variant wasn't expected to happen: {x:?}"),
    };
    for (i, var) in variants.into_iter().enumerate() {
        list = List::new();
        list.with_items(&["Good item", "Other Item", "How many items can we hold?"])
            .with_bullet(var(i));
        for (j, item) in list.into_iter().into_iter().enumerate() {
            assert_eq!(item.get_bullet(), Some(expected(j + i, var)).as_deref());
        }
    }
}

#[test]
fn labels_count_from_the_offset() {
    assert_eq!(Bullet::<&str>::Numeric(1).label(0), "1");
    assert_eq!(Bullet::<&str>::Numeric(1).label(9), "10");
    assert_eq!(Bullet::<&str>::NumericDot(0).label(0), "0.");
    assert_eq!(Bullet::<&str>::NumericDot(7).label(3), "10.");
    assert_eq!(Bullet::<&str>::NumericParen(98).label(2), "100)");
    assert_eq!(Bullet::Symbol("->").label(5), "->");
    assert_eq!(Bullet::Symbol(42u8).label(0), "42");
}

#[test]
fn items_are_shown_with_their_bullets() {
    let mut list: List<&str> = List::new();
    list.with_items(&["MyClass", "Main"]).with_items(&["App"]);
    let shown: Vec<String> = list.clone().into_iter().iter().map(|i| i.to_string()).collect();
    assert_eq!(shown, ["MyClass", "Main", "App"]);
    list.with_bullet(Bullet::Symbol("*"));
    let shown: Vec<String> = list.clone().into_iter().iter().map(|i| i.to_string()).collect();
    assert_eq!(shown, ["* MyClass", "* Main", "* App"]);
    list.with_bullet(Bullet::NumericParen(1));
    let shown: Vec<String> = list.clone().into_iter().iter().map(|i| i.to_string()).collect();
    assert_eq!(shown, ["1) MyClass", "2) Main", "3) App"]);
    list.without_bullet();
    assert!(list.get_bullet().is_none());
    assert!(list.into_iter().iter().all(|i| i.get_bullet().is_none()));
}
