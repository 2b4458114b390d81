use simpler_economy::item::{Item, Product};

#[test]
fn item_unwrap_gives_id_of_each_kind() {
    assert_eq!(Item::Want(3).unwrap(), 3);
    assert_eq!(Item::Class(7).unwrap(), 7);
    assert_eq!(Item::Good(11).unwrap(), 11);
}

#[test]
fn item_kind_checks() {
    let w = Item::Want(1);
    let c = Item::Class(2);
    let g = Item::Good(3);
    assert!(w.is_want() && !w.is_class() && !w.is_good());
    assert!(!c.is_want() && c.is_class() && !c.is_good());
    assert!(!g.is_want() && !g.is_class() && g.is_good());
}

#[test]
fn product_unwrap_and_kind() {
    let c = Product::Class(4);
    let g = Product::Good(9);
    assert_eq!(c.unwrap(), 4);
    assert_eq!(g.unwrap(), 9);
    assert!(c.is_class() && !c.is_good());
    assert!(g.is_good() && !g.is_class());
}
