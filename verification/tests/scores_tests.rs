use lessons::advanced::returns_closure;
use lessons::options::test_option;
use lessons::scores::{test_collect, test_owner};

#[test]
fn single_entry_table() {
    let map = test_owner(1, 10);
    assert_eq!(map.len(), 1);
    assert_eq!(map.get(&1), Some(&10));
    assert_eq!(map.get(&2), None);
}

#[test]
fn zipped_tables() {
    let teams: Vec<u64> = vec![1, 2];
    let initial_scores: Vec<u64> = vec![10, 50];
    let scores = test_collect(&teams, &initial_scores);
    assert_eq!(scores.len(), 2);
    assert_eq!(scores.get(&1), Some(&10));
    assert_eq!(scores.get(&2), Some(&50));
}

#[test]
fn later_scores_replace_earlier_ones() {
    let teams: Vec<u64> = vec![1, 1];
    let initial_scores: Vec<u64> = vec![10, 50];
    let scores = test_collect(&teams, &initial_scores);
    assert_eq!(scores.len(), 1);
    assert_eq!(scores.get(&1), Some(&50));
}

#[test]
fn returned_closure_adds_one() {
    let f = returns_closure();
    assert_eq!(f(1), 2);
    assert_eq!(f(41), 42);
}

#[test]
fn sample_quarter_is_worth_25() {
    assert_eq!(test_option(), 25);
}
