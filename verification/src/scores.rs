//! Score tables: hash maps keyed by numeric team identifiers.

use std::collections::HashMap;
use vstd::prelude::*;

verus! {

/// A table with a single entry, `field_name` mapped to `field_value`.
pub fn test_owner(field_name: u64, field_value: u64) -> (m: HashMap<u64, u64>)
    ensures
        m@ == Map::<u64, u64>::empty().insert(field_name, field_value),
{
    let mut map: HashMap<u64, u64> = HashMap::new();
    map.insert(field_name, field_value);
    map
}

/// Pairs each team with its initial score: team `teams[i]` gets score
/// `initial_scores[i]`, and a team listed twice keeps the later score.
pub fn test_collect(teams: &Vec<u64>, initial_scores: &Vec<u64>) -> (m: HashMap<u64, u64>)
    requires
        teams@.len() == initial_scores@.len(),
    ensures
        forall|k: u64| #[trigger] m@.contains_key(k) <==> teams@.contains(k),
        forall|i: int|
            0 <= i < teams@.len() && (forall|j: int| i < j < teams@.len() ==> teams@[j] != teams@[i])
                ==> m@[#[trigger] teams@[i]] == initial_scores@[i],
{
    let mut map: HashMap<u64, u64> = HashMap::new();
    let mut i: usize = 0;
    while i < teams.len()
        invariant
            teams@.len() == initial_scores@.len(),
            0 <= i <= teams@.len(),
            forall|k: u64| #[trigger] map@.contains_key(k)
                <==> teams@.subrange(0, i as int).contains(k),
            forall|j: int|
                0 <= j < i && (forall|l: int| j < l < i ==> teams@[l] != teams@[j])
                    ==> map@[#[trigger] teams@[j]] == initial_scores@[j],
        decreases teams@.len() - i,
    {
        map.insert(teams[i], initial_scores[i]);
        proof {
            assert forall|k: u64| #[trigger] map@.contains_key(k)
                <==> teams@.subrange(0, i + 1).contains(k) by {
                if map@.contains_key(k) {
                    if k == teams@[i as int] {
                        assert(teams@.subrange(0, i + 1)[i as int] == k);
                    } else {
                        let w = choose|w: int|
                            0 <= w < i && teams@.subrange(0, i as int)[w] == k;
                        assert(teams@.subrange(0, i + 1)[w] == k);
                    }
                } else {
                    assert(forall|w: int| 0 <= w < i + 1
                        ==> teams@.subrange(0, i + 1)[w] == teams@[w]);
                }
            }
        }
        i = i + 1;
    }
    proof {
        assert(teams@.subrange(0, teams@.len() as int) =~= teams@);
    }
    map
}

} // verus!
