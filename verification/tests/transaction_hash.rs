use starknet_bridge::felt::{Felt, FIELD_PRIME_HIGH};
use starknet_bridge::hash;
use starknet_bridge::transaction::ExecutableTransaction;
use starknet_bridge::transaction_hash::{
    transaction_hash, DECLARE_PREFIX, DEPLOY_ACCOUNT_PREFIX, INVOKE_PREFIX, L1_HANDLER_PREFIX,
};
use starknet_core::crypto::compute_hash_on_elements;
use starknet_core::types::FieldElement;
use starknet_core::utils::cairo_short_string_to_felt;

fn small(value: u128) -> Felt {
    Felt { hi: 0, lo: value }
}

fn field_element(word: Felt) -> FieldElement {
    FieldElement::from_hex_be(&format!("0x{:032x}{:032x}", word.hi, word.lo)).unwrap()
}

fn word(element: FieldElement) -> Felt {
    let bytes = element.to_bytes_be();
    let mut hi = [0u8; 16];
    let mut lo = [0u8; 16];
    hi.copy_from_slice(&bytes[..16]);
    lo.copy_from_slice(&bytes[16..]);
    Felt { hi: u128::from_be_bytes(hi), lo: u128::from_be_bytes(lo) }
}

fn chain() -> Felt {
    // "SN_GOERLI"
    small(0x534e5f474f45524c49)
}

fn big() -> Felt {
    Felt { hi: 0x0123_4567_89ab_cdef_0123_4567_89ab_cdef, lo: 0xfedc_ba98_7654_3210_fedc_ba98_7654_3210 }
}

#[test]
fn prefixes_are_the_short_strings_of_the_kinds() {
    assert_eq!(small(INVOKE_PREFIX), word(cairo_short_string_to_felt("invoke").unwrap()));
    assert_eq!(small(DECLARE_PREFIX), word(cairo_short_string_to_felt("declare").unwrap()));
    assert_eq!(
        small(DEPLOY_ACCOUNT_PREFIX),
        word(cairo_short_string_to_felt("deploy_account").unwrap())
    );
    assert_eq!(small(L1_HANDLER_PREFIX), word(cairo_short_string_to_felt("l1_handler").unwrap()));
}

#[test]
fn invocation_hash_is_the_pedersen_hash_of_its_preimage() {
    let transaction = ExecutableTransaction::Invoke {
        sender_address: big(),
        calldata: vec![small(1), big(), small(3)],
        signature: vec![small(0x51)],
        max_fee: 5_000,
        nonce: small(4),
    };
    let call = compute_hash_on_elements(&[
        field_element(small(1)),
        field_element(big()),
        field_element(small(3)),
    ]);
    let expected = compute_hash_on_elements(&[
        cairo_short_string_to_felt("invoke").unwrap(),
        FieldElement::ONE,
        field_element(big()),
        FieldElement::ZERO,
        call,
        FieldElement::from(5_000u128),
        field_element(chain()),
        FieldElement::from(4u128),
    ]);
    assert_eq!(transaction_hash(&transaction, chain()), Some(word(expected)));
}

#[test]
fn invocation_hash_of_known_elements() {
    // An invocation without call data hashes the empty list in its place.
    let transaction = ExecutableTransaction::Invoke {
        sender_address: small(0xaa),
        calldata: vec![],
        signature: vec![],
        max_fee: 0xbb,
        nonce: small(0xdd),
    };
    let expected = compute_hash_on_elements(&[
        FieldElement::from_hex_be("0x696e766f6b65").unwrap(),
        FieldElement::from_hex_be("0x1").unwrap(),
        FieldElement::from_hex_be("0xaa").unwrap(),
        FieldElement::from_hex_be("0x0").unwrap(),
        compute_hash_on_elements(&[]),
        FieldElement::from_hex_be("0xbb").unwrap(),
        FieldElement::from_hex_be("0xcc").unwrap(),
        FieldElement::from_hex_be("0xdd").unwrap(),
    ]);
    assert_eq!(transaction_hash(&transaction, small(0xcc)), Some(word(expected)));
}

#[test]
fn signature_is_not_hashed() {
    let signed = |signature: Vec<Felt>| ExecutableTransaction::Invoke {
        sender_address: small(1),
        calldata: vec![small(2)],
        signature,
        max_fee: 3,
        nonce: small(4),
    };
    assert_eq!(
        transaction_hash(&signed(vec![]), chain()),
        transaction_hash(&signed(vec![small(9), small(8)]), chain())
    );
}

#[test]
fn hash_depends_on_the_chain() {
    let transaction = ExecutableTransaction::Invoke {
        sender_address: small(1),
        calldata: vec![small(2)],
        signature: vec![],
        max_fee: 3,
        nonce: small(4),
    };
    let here = transaction_hash(&transaction, chain()).unwrap();
    let there = transaction_hash(&transaction, small(0x534e5f4d41494e)).unwrap();
    assert_ne!(here, there);
}

#[test]
fn declaration_hash_without_compiled_code_has_version_one() {
    let transaction = ExecutableTransaction::Declare {
        sender_address: small(0xb0b),
        class_hash: big(),
        compiled_class_hash: None,
        signature: vec![],
        max_fee: 77,
        nonce: small(2),
    };
    let expected = compute_hash_on_elements(&[
        cairo_short_string_to_felt("declare").unwrap(),
        FieldElement::ONE,
        FieldElement::from(0xb0bu128),
        FieldElement::ZERO,
        compute_hash_on_elements(&[field_element(big())]),
        FieldElement::from(77u128),
        field_element(chain()),
        FieldElement::TWO,
    ]);
    assert_eq!(transaction_hash(&transaction, chain()), Some(word(expected)));
}

#[test]
fn declaration_hash_with_compiled_code_has_version_two_and_ends_with_it() {
    let transaction = ExecutableTransaction::Declare {
        sender_address: small(0xb0b),
        class_hash: big(),
        compiled_class_hash: Some(small(0xc0de)),
        signature: vec![],
        max_fee: 77,
        nonce: small(2),
    };
    let expected = compute_hash_on_elements(&[
        cairo_short_string_to_felt("declare").unwrap(),
        FieldElement::TWO,
        FieldElement::from(0xb0bu128),
        FieldElement::ZERO,
        compute_hash_on_elements(&[field_element(big())]),
        FieldElement::from(77u128),
        field_element(chain()),
        FieldElement::TWO,
        FieldElement::from(0xc0deu128),
    ]);
    assert_eq!(transaction_hash(&transaction, chain()), Some(word(expected)));
}

#[test]
fn account_deployment_hash_puts_class_and_salt_before_the_arguments() {
    let transaction = ExecutableTransaction::DeployAccount {
        contract_address: small(0xacc),
        class_hash: big(),
        contract_address_salt: small(0x5a17),
        constructor_calldata: vec![small(11), small(22)],
        signature: vec![small(1)],
        max_fee: 900,
        nonce: small(0),
    };
    let expected = compute_hash_on_elements(&[
        cairo_short_string_to_felt("deploy_account").unwrap(),
        FieldElement::ONE,
        FieldElement::from(0xaccu128),
        FieldElement::ZERO,
        compute_hash_on_elements(&[
            field_element(big()),
            FieldElement::from(0x5a17u128),
            FieldElement::from(11u128),
            FieldElement::from(22u128),
        ]),
        FieldElement::from(900u128),
        field_element(chain()),
        FieldElement::ZERO,
    ]);
    assert_eq!(transaction_hash(&transaction, chain()), Some(word(expected)));
}

#[test]
fn message_hash_has_version_zero_and_no_fee() {
    let transaction = ExecutableTransaction::L1Handler {
        contract_address: small(0xc0),
        entry_point_selector: big(),
        calldata: vec![small(5), small(6)],
        nonce: small(17),
    };
    let expected = compute_hash_on_elements(&[
        cairo_short_string_to_felt("l1_handler").unwrap(),
        FieldElement::ZERO,
        FieldElement::from(0xc0u128),
        field_element(big()),
        compute_hash_on_elements(&[FieldElement::from(5u128), FieldElement::from(6u128)]),
        FieldElement::ZERO,
        field_element(chain()),
        FieldElement::from(17u128),
    ]);
    assert_eq!(transaction_hash(&transaction, chain()), Some(word(expected)));
}

#[test]
fn hash_of_the_largest_field_element_is_computed() {
    let largest = Felt { hi: FIELD_PRIME_HIGH, lo: 0 };
    let transaction = ExecutableTransaction::L1Handler {
        contract_address: largest,
        entry_point_selector: largest,
        calldata: vec![largest],
        nonce: largest,
    };
    let max = FieldElement::MAX;
    let expected = compute_hash_on_elements(&[
        cairo_short_string_to_felt("l1_handler").unwrap(),
        FieldElement::ZERO,
        max,
        max,
        compute_hash_on_elements(&[max]),
        FieldElement::ZERO,
        max,
        max,
    ]);
    assert_eq!(transaction_hash(&transaction, largest), Some(word(expected)));
}

#[test]
fn transaction_with_a_word_outside_the_field_has_no_hash() {
    let outside = Felt { hi: FIELD_PRIME_HIGH, lo: 1 };
    let sender = ExecutableTransaction::Invoke {
        sender_address: outside,
        calldata: vec![],
        signature: vec![],
        max_fee: 1,
        nonce: small(0),
    };
    assert_eq!(transaction_hash(&sender, chain()), None);
    let call = ExecutableTransaction::Invoke {
        sender_address: small(1),
        calldata: vec![small(1), outside],
        signature: vec![],
        max_fee: 1,
        nonce: small(0),
    };
    assert_eq!(transaction_hash(&call, chain()), None);
    let signature = ExecutableTransaction::Invoke {
        sender_address: small(1),
        calldata: vec![],
        signature: vec![outside],
        max_fee: 1,
        nonce: small(0),
    };
    assert_eq!(transaction_hash(&signature, chain()), None);
}

#[test]
fn chain_identifier_outside_the_field_gives_no_hash() {
    let transaction = ExecutableTransaction::Invoke {
        sender_address: small(1),
        calldata: vec![],
        signature: vec![],
        max_fee: 1,
        nonce: small(0),
    };
    assert_eq!(transaction_hash(&transaction, Felt { hi: u128::MAX, lo: 0 }), None);
}

#[test]
fn well_formed_tells_whether_every_word_is_in_the_field() {
    let outside = Felt { hi: FIELD_PRIME_HIGH, lo: 1 };
    let good = ExecutableTransaction::DeployAccount {
        contract_address: small(1),
        class_hash: small(2),
        contract_address_salt: small(3),
        constructor_calldata: vec![small(4)],
        signature: vec![small(5)],
        max_fee: 6,
        nonce: small(7),
    };
    assert!(good.well_formed());
    let bad = ExecutableTransaction::DeployAccount {
        contract_address: small(1),
        class_hash: small(2),
        contract_address_salt: outside,
        constructor_calldata: vec![small(4)],
        signature: vec![small(5)],
        max_fee: 6,
        nonce: small(7),
    };
    assert!(!bad.well_formed());
    let declared = ExecutableTransaction::Declare {
        sender_address: small(1),
        class_hash: small(2),
        compiled_class_hash: Some(outside),
        signature: vec![],
        max_fee: 6,
        nonce: small(7),
    };
    assert!(!declared.well_formed());
    let message = ExecutableTransaction::L1Handler {
        contract_address: small(1),
        entry_point_selector: small(2),
        calldata: vec![outside],
        nonce: small(7),
    };
    assert!(!message.well_formed());
}

#[test]
fn pedersen_hash_of_four_known_elements() {
    let digest = hash::compute_hash_on_elements(&vec![small(0xaa), small(0xbb), small(0xcc), small(0xdd)]);
    assert_eq!(
        digest,
        Some(Felt {
            hi: 0x025cde77210b1c223b2c6e69db6e9021,
            lo: 0xaa1599177ab177474d5326cd2a62cb69,
        })
    );
}

#[test]
fn pedersen_hash_of_the_empty_list() {
    assert_eq!(
        hash::compute_hash_on_elements(&vec![]),
        Some(Felt {
            hi: 0x049ee3eba8c1600700ee1b87eb599f16,
            lo: 0x716b0b1022947733551fde4050ca6804,
        })
    );
}

#[test]
fn pedersen_hash_depends_on_the_order_of_the_elements() {
    let forth = hash::compute_hash_on_elements(&vec![small(1), small(2)]).unwrap();
    let back = hash::compute_hash_on_elements(&vec![small(2), small(1)]).unwrap();
    assert_ne!(forth, back);
    assert!(forth.in_field());
    assert!(back.in_field());
}

#[test]
fn pedersen_hash_refuses_a_word_outside_the_field() {
    let outside = Felt { hi: FIELD_PRIME_HIGH, lo: 1 };
    assert_eq!(hash::compute_hash_on_elements(&vec![small(1), outside]), None);
}
