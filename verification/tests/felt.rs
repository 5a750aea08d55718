use starknet_bridge::felt::{
    all_in_field, canonical_copy, joined, Felt, FIELD_PRIME_HIGH, FIELD_PRIME_LOW,
};

fn small(value: u128) -> Felt {
    Felt { hi: 0, lo: value }
}

#[test]
fn prime_halves_are_those_of_the_stark_prime() {
    // 2^251 + 17 * 2^192 + 1
    assert_eq!(FIELD_PRIME_HIGH, (1u128 << 123) + (17u128 << 64));
    assert_eq!(FIELD_PRIME_LOW, 1);
}

#[test]
fn word_from_integer_is_small_and_canonical() {
    let word = Felt::from_u128(0xdead_beef);
    assert_eq!(word, Felt { hi: 0, lo: 0xdead_beef });
    assert!(word.in_field());
    assert_eq!(Felt::from_u128(u128::MAX), Felt { hi: 0, lo: u128::MAX });
}

#[test]
fn zero_is_the_zero_word() {
    assert_eq!(Felt::zero(), Felt { hi: 0, lo: 0 });
    assert!(Felt::zero().in_field());
}

#[test]
fn largest_field_element_is_in_field() {
    let largest = Felt { hi: FIELD_PRIME_HIGH, lo: 0 };
    assert!(largest.in_field());
    assert!(Felt { hi: FIELD_PRIME_HIGH - 1, lo: u128::MAX }.in_field());
}

#[test]
fn prime_and_above_are_outside_the_field() {
    assert!(!Felt { hi: FIELD_PRIME_HIGH, lo: 1 }.in_field());
    assert!(!Felt { hi: FIELD_PRIME_HIGH, lo: 2 }.in_field());
    assert!(!Felt { hi: FIELD_PRIME_HIGH + 1, lo: 0 }.in_field());
    assert!(!Felt { hi: u128::MAX, lo: u128::MAX }.in_field());
}

#[test]
fn word_below_two_to_128_converts_to_integer() {
    assert_eq!(small(0).to_u128(), Some(0));
    assert_eq!(small(5_000).to_u128(), Some(5_000));
    assert_eq!(small(u128::MAX).to_u128(), Some(u128::MAX));
}

#[test]
fn word_of_two_to_128_or_more_converts_to_nothing() {
    assert_eq!(Felt { hi: 1, lo: 0 }.to_u128(), None);
    assert_eq!(Felt { hi: 1, lo: 5_000 }.to_u128(), None);
    assert_eq!(Felt { hi: FIELD_PRIME_HIGH, lo: 0 }.to_u128(), None);
}

#[test]
fn all_in_field_holds_of_the_empty_list() {
    assert!(all_in_field(&vec![]));
}

#[test]
fn all_in_field_finds_a_word_outside_the_field_anywhere() {
    let outside = Felt { hi: FIELD_PRIME_HIGH, lo: 1 };
    assert!(all_in_field(&vec![small(1), small(2), small(3)]));
    assert!(!all_in_field(&vec![outside, small(2), small(3)]));
    assert!(!all_in_field(&vec![small(1), outside, small(3)]));
    assert!(!all_in_field(&vec![small(1), small(2), outside]));
}

#[test]
fn canonical_copy_keeps_words_and_order() {
    let words = vec![small(3), small(1), Felt { hi: 9, lo: 2 }];
    assert_eq!(canonical_copy(&words), Some(words.clone()));
    assert_eq!(canonical_copy(&vec![]), Some(vec![]));
}

#[test]
fn canonical_copy_refuses_a_word_outside_the_field() {
    let words = vec![small(3), Felt { hi: u128::MAX, lo: 0 }, small(1)];
    assert_eq!(canonical_copy(&words), None);
}

#[test]
fn joined_appends_in_order() {
    let whole = joined(vec![small(1), small(2)], &vec![small(3), small(4), small(5)]);
    assert_eq!(whole, vec![small(1), small(2), small(3), small(4), small(5)]);
    assert_eq!(joined(vec![], &vec![small(7)]), vec![small(7)]);
    assert_eq!(joined(vec![small(7)], &vec![]), vec![small(7)]);
}
