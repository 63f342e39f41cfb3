use committed::checks::is_capitalized;

#[test]
fn lower_isnt_capitalized() {
    assert!(!is_capitalized("lower").unwrap());
}

#[test]
fn upper_is_capitalized() {
    assert!(is_capitalized("Upper").unwrap());
}

#[test]
fn caseless_is_capitalized() {
    assert!(is_capitalized("あ").unwrap());
}
