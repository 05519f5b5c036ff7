use coulomb3d::charge_input::{check_new_charge, ChargeInputError};
use coulomb3d::dialog::DialogState;
use coulomb3d::pairs::charge_pairs;
use coulomb3d::tuple_text::{split_tuple, TupleError};

#[test]
fn split_plain_tuple() {
    assert_eq!(split_tuple("(1,2,3)"), Ok(("1", "2", "3")));
}

#[test]
fn split_keeps_spaces_and_signs() {
    assert_eq!(split_tuple("(1, -2.5, 3e4)"), Ok(("1", " -2.5", " 3e4")));
}

#[test]
fn split_without_parentheses() {
    assert_eq!(split_tuple("0,0,0"), Ok(("0", "0", "0")));
}

#[test]
fn split_strips_repeated_parentheses_at_both_ends() {
    assert_eq!(split_tuple("((()4,5,6)))"), Ok(("4", "5", "6")));
}

#[test]
fn split_keeps_inner_parentheses() {
    assert_eq!(split_tuple("(1,(2),3)"), Ok(("1", "(2)", "3")));
}

#[test]
fn split_empty_components() {
    assert_eq!(split_tuple("(,,)"), Ok(("", "", "")));
}

#[test]
fn split_non_ascii_text() {
    assert_eq!(split_tuple("(é,ü2,∞)"), Ok(("é", "ü2", "∞")));
}

#[test]
fn split_two_components_is_refused() {
    assert_eq!(split_tuple("(1,2)"), Err(TupleError::ComponentCount));
}

#[test]
fn split_four_components_is_refused() {
    assert_eq!(split_tuple("(1,2,3,4)"), Err(TupleError::ComponentCount));
}

#[test]
fn split_empty_text_is_refused() {
    assert_eq!(split_tuple(""), Err(TupleError::ComponentCount));
    assert_eq!(split_tuple("()"), Err(TupleError::ComponentCount));
}

#[test]
fn tuple_error_messages() {
    assert_eq!(
        TupleError::ComponentCount.message(),
        "Input string must have exactly 3 components"
    );
    assert_eq!(TupleError::ParseX.message(), "Failed to parse x");
    assert_eq!(TupleError::ParseY.message(), "Failed to parse y");
    assert_eq!(TupleError::ParseZ.message(), "Failed to parse z");
}

#[test]
fn charge_input_error_messages() {
    assert_eq!(ChargeInputError::ValueNotNumber.message(), "Charge value is not a number");
    assert_eq!(ChargeInputError::PositionNotUnique.message(), "Position is not unique");
    assert_eq!(ChargeInputError::Position(TupleError::ParseY).message(), "Failed to parse y");
}

#[test]
fn new_charge_value_checked_first() {
    assert_eq!(
        check_new_charge(false, Err(TupleError::ComponentCount), false),
        Err(ChargeInputError::ValueNotNumber)
    );
    assert_eq!(check_new_charge(false, Ok(()), true), Err(ChargeInputError::ValueNotNumber));
}

#[test]
fn new_charge_position_checked_before_uniqueness() {
    assert_eq!(
        check_new_charge(true, Err(TupleError::ParseZ), false),
        Err(ChargeInputError::Position(TupleError::ParseZ))
    );
}

#[test]
fn new_charge_taken_position_is_refused() {
    assert_eq!(check_new_charge(true, Ok(()), false), Err(ChargeInputError::PositionNotUnique));
}

#[test]
fn new_charge_accepted() {
    assert_eq!(check_new_charge(true, Ok(()), true), Ok(()));
}

#[test]
fn dialog_starts_closed_and_empty() {
    let d = DialogState::new();
    assert!(!d.is_open);
    assert_eq!(d.message, "");
}

#[test]
fn dialog_show_opens_with_message() {
    let mut d = DialogState::new();
    d.show("boom");
    assert!(d.is_open);
    assert_eq!(d.message, "boom");
}

#[test]
fn dialog_input_error_message() {
    let mut d = DialogState::new();
    d.show_input_error("Position is not unique");
    assert!(d.is_open);
    assert_eq!(d.message, "Position is not unique:\nplease check your input.");
}

#[test]
fn dialog_closes_only_on_press_over_ok() {
    let mut d = DialogState::new();
    d.show("x");
    assert!(!d.update(false, true));
    assert!(d.is_open);
    assert!(!d.update(true, false));
    assert!(d.is_open);
    assert!(d.update(true, true));
    assert!(!d.is_open);
    assert_eq!(d.message, "x");
    assert!(!d.update(true, true));
    assert!(!d.is_open);
}

#[test]
fn pairs_of_no_or_one_charge() {
    assert!(charge_pairs(0).is_empty());
    assert!(charge_pairs(1).is_empty());
}

#[test]
fn pairs_of_three_charges() {
    assert_eq!(charge_pairs(3), vec![(0, 1), (0, 2), (1, 2)]);
}

#[test]
fn pairs_of_five_charges() {
    let p = charge_pairs(5);
    assert_eq!(p.len(), 10);
    assert_eq!(p[0], (0, 1));
    assert_eq!(p[3], (0, 4));
    assert_eq!(p[4], (1, 2));
    assert_eq!(p[9], (3, 4));
    assert!(p.iter().all(|&(i, j)| i < j && j < 5));
}
