use simpler_economy::game::process::{
    any_fixed_requirement, factor_summary, find_input, has_repeated_goods, select_inputs,
    InputRole, InputSelection, InputType,
};

fn roles() -> Vec<InputRole> {
    vec![
        InputRole::new(100, false, InputType::Destroyed, false),
        InputRole::new(300, true, InputType::Factor, false),
        InputRole::new(400, true, InputType::Destroyed, true),
        InputRole::new(301, true, InputType::Factor, true),
        InputRole::new(50, true, InputType::Capital, false),
        InputRole::new(110, false, InputType::Consumed, false),
    ]
}

#[test]
fn selections_pick_positions_in_order() {
    let r = roles();
    assert_eq!(select_inputs(&r, InputSelection::Factors), vec![1, 3]);
    assert_eq!(select_inputs(&r, InputSelection::Requirements), vec![0, 4, 5]);
    assert_eq!(select_inputs(&r, InputSelection::Optionals), vec![2]);
}

#[test]
fn selections_of_no_inputs_are_empty() {
    let r: Vec<InputRole> = vec![];
    assert!(select_inputs(&r, InputSelection::Factors).is_empty());
    assert!(select_inputs(&r, InputSelection::Requirements).is_empty());
    assert!(select_inputs(&r, InputSelection::Optionals).is_empty());
}

#[test]
fn repeated_goods_are_found() {
    let mut r = roles();
    assert!(!has_repeated_goods(&r));
    r.push(InputRole::new(400, false, InputType::Capital, false));
    assert!(has_repeated_goods(&r));
}

#[test]
fn fixed_requirement_check() {
    let r = roles();
    // capital 50 is required and fixed
    assert!(any_fixed_requirement(&r));
    let only_unfixed = vec![
        InputRole::new(100, false, InputType::Destroyed, false),
        InputRole::new(300, true, InputType::Factor, false),
        InputRole::new(400, true, InputType::Destroyed, true),
    ];
    assert!(!any_fixed_requirement(&only_unfixed));
}

#[test]
fn get_input_finds_first_of_good() {
    let r = roles();
    assert_eq!(find_input(&r, 400), Some(2));
    assert_eq!(find_input(&r, 110), Some(5));
    assert_eq!(find_input(&r, 999), None);
}

#[test]
fn factor_summary_marks_optional_factors() {
    let m = factor_summary(&roles());
    assert_eq!(m.len(), 2);
    assert_eq!(m.get(&300), Some(&false));
    assert_eq!(m.get(&301), Some(&true));
    assert_eq!(m.get(&100), None);
}
