use jsmoke::jsmk_regex::how_much_of_pattern::{Edge, HowMuchOfPattern, Sealed};
use regex::Regex;

#[test]
fn test_from() {
    assert_eq!(HowMuchOfPattern::ZeroOrOne, HowMuchOfPattern::from(..=1));
    assert_eq!(HowMuchOfPattern::ZeroOrOne, HowMuchOfPattern::from(0..=1));
    assert_eq!(HowMuchOfPattern::ZeroOrOne, HowMuchOfPattern::from(0..2));
    assert_eq!(HowMuchOfPattern::ZeroOrMore, HowMuchOfPattern::from(..));
    assert_eq!(HowMuchOfPattern::ZeroOrMore, HowMuchOfPattern::from(0..));
    assert_eq!(HowMuchOfPattern::OneOrMore, HowMuchOfPattern::from(1..));
    assert_eq!(HowMuchOfPattern::Exactly(3), HowMuchOfPattern::from(3..4));
    assert_eq!(HowMuchOfPattern::Exactly(7), HowMuchOfPattern::from(7..=7));
    assert_eq!(HowMuchOfPattern::Exactly(0), HowMuchOfPattern::from(..1));
    assert_eq!(HowMuchOfPattern::AtLeast(3), HowMuchOfPattern::from(3..));
    assert_eq!(HowMuchOfPattern::Until(3), HowMuchOfPattern::from(..=3));
    assert_eq!(HowMuchOfPattern::Until(40), HowMuchOfPattern::from(0..41));
    assert_eq!(
        HowMuchOfPattern::Between(10, 20),
        HowMuchOfPattern::from(10..21)
    );
    assert_eq!(
        HowMuchOfPattern::Between(10, 20),
        HowMuchOfPattern::from(10..=20)
    );
}

#[test]
fn test_repr() {
    assert_eq!("?", HowMuchOfPattern::ZeroOrOne.repr());
    assert_eq!("*", HowMuchOfPattern::ZeroOrMore.repr());
    assert_eq!("+", HowMuchOfPattern::OneOrMore.repr());
    assert_eq!("{3}", HowMuchOfPattern::Exactly(3).repr());
    assert_eq!("{2,}", HowMuchOfPattern::AtLeast(2).repr());
    assert_eq!("{0,43}", HowMuchOfPattern::Until(43).repr());
    assert_eq!("{1,2}", HowMuchOfPattern::Between(1, 2).repr());
}

#[test]
fn repr_writes_large_and_round_counts() {
    assert_eq!("{0}", HowMuchOfPattern::Exactly(0).repr());
    assert_eq!("{10}", HowMuchOfPattern::Exactly(10).repr());
    assert_eq!("{1000,}", HowMuchOfPattern::AtLeast(1000).repr());
    assert_eq!("{0,65536}", HowMuchOfPattern::Until(65536).repr());
    assert_eq!("{109,9001}", HowMuchOfPattern::Between(109, 9001).repr());
}

#[test]
fn edges_of_the_range_types() {
    assert_eq!((2..5usize).lower(), Edge::Included(2));
    assert_eq!((2..5usize).upper(), Edge::Excluded(5));
    assert_eq!((2..=5usize).lower(), Edge::Included(2));
    assert_eq!((2..=5usize).upper(), Edge::Included(5));
    assert_eq!((2usize..).lower(), Edge::Included(2));
    assert_eq!((2usize..).upper(), Edge::Unbounded);
    assert_eq!((..5usize).lower(), Edge::Unbounded);
    assert_eq!((..5usize).upper(), Edge::Excluded(5));
    assert_eq!((..=5usize).lower(), Edge::Unbounded);
    assert_eq!((..=5usize).upper(), Edge::Included(5));
    assert_eq!((..).lower(), Edge::Unbounded);
    assert_eq!((..).upper(), Edge::Unbounded);
}

#[test]
fn edge_of_an_exhausted_inclusive_range_is_excluded() {
    let mut range = 3..=4usize;
    assert_eq!(range.next(), Some(3));
    assert_eq!(range.next(), Some(4));
    assert_eq!(range.next(), None);
    assert_eq!(range.upper(), Edge::Excluded(4));
    assert_eq!(range.lower(), Edge::Included(4));
}

#[test]
fn suffix_of_an_inclusive_range_matches_exactly_its_counts() {
    for a in 0..6usize {
        for b in a..7usize {
            let suffix = HowMuchOfPattern::from(a..=b).repr();
            let re = Regex::new(&format!("^x{}$", suffix)).unwrap();
            for n in 0..10usize {
                let hay = "x".repeat(n);
                assert_eq!(re.is_match(&hay), a <= n && n <= b, "{} on {}", suffix, n);
            }
        }
    }
}

#[test]
fn suffix_of_an_open_range_matches_from_its_start() {
    for a in 0..5usize {
        let suffix = HowMuchOfPattern::from(a..).repr();
        let re = Regex::new(&format!("^x{}$", suffix)).unwrap();
        for n in 0..10usize {
            let hay = "x".repeat(n);
            assert_eq!(re.is_match(&hay), a <= n, "{} on {}", suffix, n);
        }
    }
}
