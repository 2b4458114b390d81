use simpler_economy::game::pop::orders::{desire_importance, TOP_IMPORTANCE};

#[test]
fn earlier_targets_score_higher() {
    let walk = vec![5, 3, 5, 8, 3];
    let m = desire_importance(&walk);
    assert_eq!(m.len(), 3);
    assert_eq!(m[&5], TOP_IMPORTANCE);
    assert_eq!(m[&3], TOP_IMPORTANCE - 1);
    assert_eq!(m[&8], TOP_IMPORTANCE - 3);
    assert_eq!(m.get(&1), None);
}

#[test]
fn empty_walk_scores_nothing() {
    assert!(desire_importance(&vec![]).is_empty());
}

#[test]
fn top_importance_is_a_quarter_of_max() {
    assert_eq!(TOP_IMPORTANCE, i32::MAX / 4);
}
