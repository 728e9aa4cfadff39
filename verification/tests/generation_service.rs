use bank_ledger::services::generation_service::{generate_numeric_string, numeric_string_of};

#[test]
fn test_generate_numeric_string_length() {
    let s = generate_numeric_string(10);
    assert_eq!(s.len(), 10);
}

#[test]
fn test_generate_numeric_string_is_numeric() {
    let s = generate_numeric_string(20);
    assert!(s.chars().all(|c| c.is_ascii_digit()));
}

#[test]
fn test_generate_numeric_string_zero_length() {
    let s = generate_numeric_string(0);
    assert_eq!(s, "");
}

#[test]
fn test_generate_numeric_string_various_lengths() {
    for len in [1, 5, 50, 100].iter() {
        let s = generate_numeric_string(*len);
        assert_eq!(s.len(), *len);
        assert!(s.chars().all(|c| c.is_ascii_digit()));
    }
}

#[test]
fn test_generate_numeric_string_uniqueness() {
    let s1 = generate_numeric_string(16);
    let s2 = generate_numeric_string(16);
    // It's possible for them to be equal, but highly unlikely
    assert_ne!(s1, s2);
}

#[test]
fn generated_digits_are_not_all_the_same() {
    let s = generate_numeric_string(400);
    let first = s.chars().next().unwrap();
    assert!(s.chars().any(|c| c != first));
}

#[test]
fn numeric_string_spells_each_draw_in_order() {
    let draws: Vec<u8> = vec![0, 1, 2, 3, 4, 5, 6, 7, 8, 9];
    assert_eq!(numeric_string_of(&draws), "0123456789");
    let draws: Vec<u8> = vec![9, 0, 9, 0];
    assert_eq!(numeric_string_of(&draws), "9090");
}

#[test]
fn numeric_string_keeps_leading_zeros() {
    let draws: Vec<u8> = vec![0, 0, 7];
    assert_eq!(numeric_string_of(&draws), "007");
    let draws: Vec<u8> = vec![0];
    assert_eq!(numeric_string_of(&draws), "0");
}

#[test]
fn numeric_string_of_no_draws_is_empty() {
    let draws: Vec<u8> = Vec::new();
    assert_eq!(numeric_string_of(&draws), "");
}

#[test]
fn different_draws_spell_different_strings() {
    let one: Vec<u8> = vec![1, 2, 3, 4, 5, 6, 7, 8, 9, 0, 1, 2, 3, 4, 5, 6];
    let mut two = one.clone();
    two[15] = 7;
    assert_ne!(numeric_string_of(&one), numeric_string_of(&two));
    assert_eq!(numeric_string_of(&one), numeric_string_of(&one.clone()));
    assert_eq!(numeric_string_of(&two), "1234567890123457");
}
