use simpler_economy::game::desire::DemoDesire;
use simpler_economy::game::religion::Religion;
use simpler_economy::game::state::State;

#[test]
fn new_religion_defaults() {
    let r = Religion::new(4, "Sun Cult".to_string());
    assert_eq!(r.id, 4);
    assert_eq!(r.name, "Sun Cult");
    assert_eq!(r.state, 0);
    assert!(r.desires.is_empty());
}

#[test]
fn builders_set_fields() {
    let r = Religion::new(1, "a".to_string())
        .with_id(9)
        .with_name("Moon".to_string())
        .with_state(3);
    assert_eq!(r.id, 9);
    assert_eq!(r.name, "Moon");
    assert_eq!(r.state, 3);
}

#[test]
fn added_desire_is_found_by_id() {
    let r = Religion::new(1, "a".to_string())
        .with_desire(DemoDesire::new(10, 0))
        .with_desire(DemoDesire::new(20, 2));
    assert_eq!(r.desires.len(), 2);
    assert_eq!(r.find_desire(10), Some(&DemoDesire::new(10, 0)));
    assert_eq!(r.find_desire(20).map(|d| d.tier), Some(2));
    assert_eq!(r.find_desire(30), None);
}

#[test]
fn state_holds_id_and_name() {
    let s = State { id: 2, name: "Rome".to_string() };
    let t = s.clone();
    assert_eq!(t.id, 2);
    assert_eq!(t.name, "Rome");
}

use simpler_economy::game::species::Species;

#[test]
fn species_defaults_and_desires() {
    let s = Species::new(0, "Human".to_string())
        .with_state(2)
        .with_desire(DemoDesire::new(1, 0))
        .with_id(5)
        .with_name("Elf".to_string());
    assert_eq!(s.id, 5);
    assert_eq!(s.name, "Elf");
    assert_eq!(s.state, 2);
    assert!(!s.household_changed);
    assert_eq!(s.find_desire(1), Some(&DemoDesire::new(1, 0)));
    assert_eq!(s.find_desire(2), None);
}
