use dispatch::{Add, Mul, Operation};

#[test]
fn add_name_is_a_padded_plus() {
    assert_eq!(Add.name(), " + ");
}

#[test]
fn mul_name_is_a_padded_asterisk() {
    assert_eq!(Mul.name(), " * ");
}

#[test]
fn names_are_three_characters_with_spaces_outside() {
    for token in [Add.name(), Mul.name()] {
        assert_eq!(token.chars().count(), 3);
        assert!(token.starts_with(' '));
        assert!(token.ends_with(' '));
    }
}

#[test]
fn names_are_stable_across_calls_and_values() {
    let first = Add;
    let second = Add;
    assert_eq!(first.name(), first.name());
    assert_eq!(first.name(), second.name());
    assert_eq!(Mul.name(), Mul.name());
}

#[test]
fn the_two_variants_have_different_names() {
    assert_ne!(Add.name(), Mul.name());
}

#[test]
fn name_through_a_handle_is_name_of_the_variant() {
    let handles: [&dyn Operation; 2] = [&Add, &Mul];
    assert_eq!(handles[0].name(), Add.name());
    assert_eq!(handles[1].name(), Mul.name());
}
