use simpler_economy::process::{input_slot, InputKey, InputTag, OutputTag};

fn k(tag: InputTag, good: usize) -> InputKey {
    InputKey::new(tag, good)
}

#[test]
fn tags_in_declared_order() {
    assert!(InputTag::NoTag < InputTag::Used);
    assert!(InputTag::Used < InputTag::Consumed);
    assert_eq!(InputTag::NoTag.rank(), 0);
    assert_eq!(InputTag::Used.rank(), 1);
    assert_eq!(InputTag::Consumed.rank(), 2);
}

#[test]
fn tag_names() {
    assert_eq!(InputTag::NoTag.as_str(), "None");
    assert_eq!(InputTag::Used.as_str(), "Used");
    assert_eq!(InputTag::Consumed.as_str(), "Consumed");
    let _ = (OutputTag::ConsumedOutput, OutputTag::UsedOutput);
}

#[test]
fn slot_of_empty_list_is_zero() {
    assert_eq!(input_slot(&vec![], k(InputTag::Used, 3)), 0);
}

#[test]
fn slot_orders_by_tag_then_good() {
    let keys = vec![
        k(InputTag::NoTag, 1),
        k(InputTag::NoTag, 5),
        k(InputTag::Used, 2),
        k(InputTag::Consumed, 0),
    ];
    assert_eq!(input_slot(&keys, k(InputTag::NoTag, 3)), 1);
    assert_eq!(input_slot(&keys, k(InputTag::Used, 1)), 2);
    assert_eq!(input_slot(&keys, k(InputTag::Used, 7)), 3);
    assert_eq!(input_slot(&keys, k(InputTag::Consumed, 9)), 4);
    assert_eq!(input_slot(&keys, k(InputTag::NoTag, 0)), 0);
}

#[test]
fn slot_goes_after_equal_keys() {
    let keys = vec![k(InputTag::NoTag, 1), k(InputTag::NoTag, 1), k(InputTag::Used, 1)];
    assert_eq!(input_slot(&keys, k(InputTag::NoTag, 1)), 2);
}

#[test]
fn building_a_list_by_slots_sorts_it() {
    let adds = vec![
        k(InputTag::Consumed, 4),
        k(InputTag::NoTag, 8),
        k(InputTag::Used, 3),
        k(InputTag::NoTag, 2),
        k(InputTag::Used, 1),
    ];
    let mut keys: Vec<InputKey> = vec![];
    for a in adds {
        let p = input_slot(&keys, a);
        keys.insert(p, a);
    }
    assert_eq!(
        keys,
        vec![
            k(InputTag::NoTag, 2),
            k(InputTag::NoTag, 8),
            k(InputTag::Used, 1),
            k(InputTag::Used, 3),
            k(InputTag::Consumed, 4),
        ]
    );
}

#[test]
fn slot_stops_at_first_smaller_from_the_end() {
    // an unsorted list: only the tail of greater keys is passed over
    let keys = vec![k(InputTag::Consumed, 9), k(InputTag::NoTag, 1), k(InputTag::Used, 5)];
    assert_eq!(input_slot(&keys, k(InputTag::NoTag, 3)), 2);
}
