use photosi_exceptions_rust::Level;
use std::cmp::Ordering;

const LEVELS: [Level; 5] = [Level::Debug, Level::Info, Level::Warning, Level::Error, Level::Fatal];

#[test]
fn levels_have_their_ranks() {
    assert_eq!(Level::Debug.to_rank(), 0);
    assert_eq!(Level::Info.to_rank(), 1);
    assert_eq!(Level::Warning.to_rank(), 2);
    assert_eq!(Level::Error.to_rank(), 3);
    assert_eq!(Level::Fatal.to_rank(), 4);
}

#[test]
fn levels_are_ordered_by_rank() {
    assert!(Level::Debug < Level::Info);
    assert!(Level::Info < Level::Warning);
    assert!(Level::Warning < Level::Error);
    assert!(Level::Error < Level::Fatal);
    for (i, a) in LEVELS.iter().enumerate() {
        for (j, b) in LEVELS.iter().enumerate() {
            assert_eq!(a.partial_cmp(b), Some(i.cmp(&j)));
            assert_eq!(a == b, i == j);
            assert_eq!(a < b, i < j);
            assert_eq!(a >= b, i >= j);
        }
    }
    assert_eq!(Level::Fatal.partial_cmp(&Level::Debug), Some(Ordering::Greater));
}

#[test]
fn default_level_is_error() {
    assert_eq!(Level::default(), Level::Error);
    assert_eq!(Level::default().to_rank(), 3);
}

#[test]
fn level_is_copied() {
    let a = Level::Warning;
    let b = a;
    assert_eq!(a, b);
    assert_eq!(format!("{:?}", a), "Warning");
}
