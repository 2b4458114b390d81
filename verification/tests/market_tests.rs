use std::collections::HashSet;

use simpler_economy::market::good_trade_priority;

#[test]
fn monies_first_then_others_each_by_id() {
    let monies: HashSet<usize> = [7, 2].into_iter().collect();
    let goods: HashSet<usize> = [5, 7, 1, 9, 2, 3].into_iter().collect();
    assert_eq!(good_trade_priority(&monies, &goods), vec![2, 7, 1, 3, 5, 9]);
}

#[test]
fn no_monies_means_id_order() {
    let monies: HashSet<usize> = HashSet::new();
    let goods: HashSet<usize> = [4, 0, 8].into_iter().collect();
    assert_eq!(good_trade_priority(&monies, &goods), vec![0, 4, 8]);
}

#[test]
fn monies_not_in_goods_still_come_first() {
    let monies: HashSet<usize> = [10].into_iter().collect();
    let goods: HashSet<usize> = [3, 1].into_iter().collect();
    assert_eq!(good_trade_priority(&monies, &goods), vec![10, 1, 3]);
}
