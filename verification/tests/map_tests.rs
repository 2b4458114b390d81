use simpler_economy::map::{HexCoord, WorldMap};

#[test]
fn z_is_sum_of_coordinates() {
    assert_eq!(HexCoord::new(3, 4).z(), 7);
    assert_eq!(HexCoord::new(0, 0).z(), 0);
}

#[test]
fn new_map_is_empty() {
    let m = WorldMap::new(10, 12);
    assert_eq!(m.width, 10);
    assert_eq!(m.height, 12);
    assert!(m.cities.is_empty());
    assert!(m.regions.is_empty());
    assert!(m.city_idcs.is_empty());
}

#[test]
fn add_city_rejects_taken_location() {
    let mut m = WorldMap::new(10, 10);
    let a = HexCoord::new(3, 4);
    let b = HexCoord::new(5, 1);
    assert!(m.add_city(a));
    assert_eq!(m.cities, vec![a]);
    assert_eq!(m.regions.len(), 1);
    assert!(m.regions[0].is_empty());
    assert!(!m.add_city(a));
    assert_eq!(m.cities.len(), 1);
    assert_eq!(m.regions.len(), 1);
    assert!(m.add_city(b));
    assert_eq!(m.cities, vec![a, b]);
    assert_eq!(m.regions.len(), 2);
}

#[test]
fn find_city_after_add() {
    let mut m = WorldMap::new(5, 5);
    let a = HexCoord::new(1, 2);
    let b = HexCoord::new(2, 1);
    assert_eq!(m.find_city(a), None);
    m.add_city(a);
    m.add_city(b);
    assert_eq!(m.find_city(a), Some(0));
    assert_eq!(m.find_city(b), Some(1));
    assert_eq!(m.find_city(HexCoord::new(4, 4)), None);
}
