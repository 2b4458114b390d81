use simpler_economy::game::workforce::{ordered_payment_terms, PaymentKey};

#[test]
fn ordered_payment_puts_scaling_before_flat() {
    // flat 3, scaling 5, scaling 3
    let keys = vec![PaymentKey::new(true, 3), PaymentKey::new(false, 5), PaymentKey::new(false, 3)];
    let ordered = ordered_payment_terms(&keys);
    assert_eq!(keys[ordered[0]].good, 3);
    assert!(!keys[ordered[0]].flat);
    assert_eq!(keys[ordered[1]].good, 5);
    assert!(!keys[ordered[1]].flat);
    assert_eq!(keys[ordered[2]].good, 3);
    assert!(keys[ordered[2]].flat);
    assert_eq!(ordered, vec![2, 1, 0]);
}

#[test]
fn equal_terms_keep_basket_order() {
    let keys = vec![PaymentKey::new(false, 4), PaymentKey::new(true, 1), PaymentKey::new(false, 4)];
    assert_eq!(ordered_payment_terms(&keys), vec![0, 2, 1]);
}

#[test]
fn empty_basket() {
    assert!(ordered_payment_terms(&vec![]).is_empty());
}
