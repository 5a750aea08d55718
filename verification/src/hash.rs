//! Pedersen hashing, as the runtime does it.

use starknet_core::types::FieldElement;
use starknet_core::utils::get_contract_address;
use vstd::prelude::*;
use crate::felt::{all_canonical, all_in_field, Felt};

verus! {

/// The Pedersen hash of a list of field elements: starting from zero, each
/// element is hashed into the running value, and the list's length last.
pub uninterp spec fn pedersen_on_elements(elements: Seq<Felt>) -> Felt;

/// The address at which `deployer` deploys the class `class_hash` with the
/// given salt and constructor arguments.
pub uninterp spec fn deployed_address(
    salt: Felt,
    class_hash: Felt,
    constructor_calldata: Seq<Felt>,
    deployer: Felt,
) -> Felt;

/// Hashes `elements` with `starknet_core::crypto::compute_hash_on_elements`.
///
/// Trusted: the digest is the function's result on these elements, which
/// depends on nothing else, and it is an element of the field, as every value
/// of the outside crate's field type is. Words outside the field are left out,
/// because the conversion into that type refuses them.
#[verifier::external_body]
pub(crate) fn hash_on_elements(elements: &Vec<Felt>) -> (digest: Felt)
    requires
        all_canonical(elements@),
    ensures
        digest == pedersen_on_elements(elements@),
        digest.is_canonical(),
{
    let data: Vec<FieldElement> = elements
        .iter()
        .map(|e| [e.hi.to_be_bytes(), e.lo.to_be_bytes()].concat())
        .map(|b| FieldElement::from_byte_slice_be(&b).unwrap())
        .collect();
    let out = starknet_core::crypto::compute_hash_on_elements(&data).to_bytes_be();
    Felt {
        hi: u128::from_be_bytes(out[..16].try_into().unwrap()),
        lo: u128::from_be_bytes(out[16..].try_into().unwrap()),
    }
}

/// Computes a deployment address with
/// `starknet_core::utils::get_contract_address`.
///
/// Trusted: the address is the function's result on these arguments, which
/// depends on nothing else, and it is an element of the field. Words outside
/// the field are left out, because the conversion into the outside crate's
/// field type refuses them.
#[verifier::external_body]
pub(crate) fn contract_address(
    salt: Felt,
    class_hash: Felt,
    constructor_calldata: &Vec<Felt>,
    deployer: Felt,
) -> (address: Felt)
    requires
        salt.is_canonical(),
        class_hash.is_canonical(),
        all_canonical(constructor_calldata@),
        deployer.is_canonical(),
    ensures
        address == deployed_address(salt, class_hash, constructor_calldata@, deployer),
        address.is_canonical(),
{
    let fe = |e: &Felt| {
        let b = [e.hi.to_be_bytes(), e.lo.to_be_bytes()].concat();
        FieldElement::from_byte_slice_be(&b).unwrap()
    };
    let data: Vec<FieldElement> = constructor_calldata.iter().map(fe).collect();
    let out = get_contract_address(fe(&salt), fe(&class_hash), &data, fe(&deployer)).to_bytes_be();
    Felt {
        hi: u128::from_be_bytes(out[..16].try_into().unwrap()),
        lo: u128::from_be_bytes(out[16..].try_into().unwrap()),
    }
}

/// Computes the Pedersen hash of a list of words, which there is exactly if
/// every word is an element of the field.
pub fn compute_hash_on_elements(elements: &Vec<Felt>) -> (digest: Option<Felt>)
    ensures
        digest == (if all_canonical(elements@) {
            Some(pedersen_on_elements(elements@))
        } else {
            None
        }),
        digest matches Some(hash) ==> hash.is_canonical(),
{
    if all_in_field(elements) {
        Some(hash_on_elements(elements))
    } else {
        None
    }
}

} // verus!
