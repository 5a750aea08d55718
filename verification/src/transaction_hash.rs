//! The hash that names a transaction on its chain.

use vstd::prelude::*;
use crate::felt::{joined, Felt};
use crate::hash::{hash_on_elements, pedersen_on_elements};
use crate::transaction::{ExecutableTransaction, ExecutableTransactionView};

verus! {

/// The word `invoke`, which opens the hash of an invocation.
pub const INVOKE_PREFIX: u128 = 0x696e_766f_6b65;

/// The word `declare`, which opens the hash of a declaration.
pub const DECLARE_PREFIX: u128 = 0x64_6563_6c61_7265;

/// The word `deploy_account`, which opens the hash of an account deployment.
pub const DEPLOY_ACCOUNT_PREFIX: u128 = 0x6465_706c_6f79_5f61_6363_6f75_6e74;

/// The word `l1_handler`, which opens the hash of a message from the base
/// layer.
pub const L1_HANDLER_PREFIX: u128 = 0x6c31_5f68_616e_646c_6572;

/// The field element that stands for a 128-bit integer.
pub open spec fn small(value: u128) -> Felt {
    Felt { hi: 0, lo: value }
}

impl ExecutableTransactionView {
    /// What is hashed to name the transaction on the chain `chain_id`: a word
    /// for the kind, the version, the account or contract, the entry point,
    /// the hash of the call data, the fee bound, the chain and the nonce. A
    /// declaration hashes its class in place of call data, and one with
    /// compiled code has version two and ends with the compiled class's hash;
    /// an account deployment puts the class and the salt before the
    /// constructor's arguments. The signature is not hashed.
    pub open spec fn hash_preimage(self, chain_id: Felt) -> Seq<Felt> {
        match self {
            ExecutableTransactionView::Invoke { sender_address, calldata, max_fee, nonce, .. } => {
                seq![
                    small(INVOKE_PREFIX),
                    small(1),
                    sender_address,
                    small(0),
                    pedersen_on_elements(calldata),
                    small(max_fee),
                    chain_id,
                    nonce,
                ]
            },
            ExecutableTransactionView::Declare {
                sender_address,
                class_hash,
                compiled_class_hash,
                max_fee,
                nonce,
                ..
            } => match compiled_class_hash {
                None => seq![
                    small(DECLARE_PREFIX),
                    small(1),
                    sender_address,
                    small(0),
                    pedersen_on_elements(seq![class_hash]),
                    small(max_fee),
                    chain_id,
                    nonce,
                ],
                Some(compiled) => seq![
                    small(DECLARE_PREFIX),
                    small(2),
                    sender_address,
                    small(0),
                    pedersen_on_elements(seq![class_hash]),
                    small(max_fee),
                    chain_id,
                    nonce,
                    compiled,
                ],
            },
            ExecutableTransactionView::DeployAccount {
                contract_address,
                class_hash,
                contract_address_salt,
                constructor_calldata,
                max_fee,
                nonce,
                ..
            } => seq![
                small(DEPLOY_ACCOUNT_PREFIX),
                small(1),
                contract_address,
                small(0),
                pedersen_on_elements(
                    seq![class_hash, contract_address_salt] + constructor_calldata,
                ),
                small(max_fee),
                chain_id,
                nonce,
            ],
            ExecutableTransactionView::L1Handler {
                contract_address,
                entry_point_selector,
                calldata,
                nonce,
            } => seq![
                small(L1_HANDLER_PREFIX),
                small(0),
                contract_address,
                entry_point_selector,
                pedersen_on_elements(calldata),
                small(0),
                chain_id,
                nonce,
            ],
        }
    }

    /// The hash that names the transaction on the chain `chain_id`.
    pub open spec fn hash(self, chain_id: Felt) -> Felt {
        pedersen_on_elements(self.hash_preimage(chain_id))
    }
}

/// Hashes the eight leading words of a transaction's preimage, with
/// `trailer` after them if there is one.
fn hash_of_parts(
    prefix: u128,
    version: u128,
    account: Felt,
    entry_point: Felt,
    payload_hash: Felt,
    max_fee: u128,
    chain_id: Felt,
    nonce: Felt,
    trailer: Option<Felt>,
) -> (digest: Felt)
    requires
        account.is_canonical(),
        entry_point.is_canonical(),
        payload_hash.is_canonical(),
        chain_id.is_canonical(),
        nonce.is_canonical(),
        trailer matches Some(last) ==> last.is_canonical(),
    ensures
        digest.is_canonical(),
        digest == pedersen_on_elements(
            match trailer {
                Some(last) => seq![
                    small(prefix),
                    small(version),
                    account,
                    entry_point,
                    payload_hash,
                    small(max_fee),
                    chain_id,
                    nonce,
                    last,
                ],
                None => seq![
                    small(prefix),
                    small(version),
                    account,
                    entry_point,
                    payload_hash,
                    small(max_fee),
                    chain_id,
                    nonce,
                ],
            },
        ),
{
    let mut parts: Vec<Felt> = Vec::new();
    parts.push(Felt::from_u128(prefix));
    parts.push(Felt::from_u128(version));
    parts.push(account);
    parts.push(entry_point);
    parts.push(payload_hash);
    parts.push(Felt::from_u128(max_fee));
    parts.push(chain_id);
    parts.push(nonce);
    if let Some(last) = trailer {
        parts.push(last);
        assert(parts@ == seq![
            small(prefix),
            small(version),
            account,
            entry_point,
            payload_hash,
            small(max_fee),
            chain_id,
            nonce,
            last,
        ]);
    } else {
        assert(parts@ == seq![
            small(prefix),
            small(version),
            account,
            entry_point,
            payload_hash,
            small(max_fee),
            chain_id,
            nonce,
        ]);
    }
    hash_on_elements(&parts)
}

/// Computes the hash that names `transaction` on the chain `chain_id`, from
/// the transaction's fields and the chain's identifier alone.
///
/// There is a hash exactly if every word of the transaction, and the chain's
/// identifier, is an element of the field.
pub fn transaction_hash(transaction: &ExecutableTransaction, chain_id: Felt) -> (digest: Option<
    Felt,
>)
    ensures
        digest == (if transaction@.is_well_formed() && chain_id.is_canonical() {
            Some(transaction@.hash(chain_id))
        } else {
            None
        }),
        digest matches Some(hash) ==> hash.is_canonical(),
{
    if !transaction.well_formed() || !chain_id.in_field() {
        return None;
    }
    let digest = match transaction {
        ExecutableTransaction::Invoke { sender_address, calldata, max_fee, nonce, .. } => {
            let payload_hash = hash_on_elements(calldata);
            hash_of_parts(
                INVOKE_PREFIX,
                1,
                *sender_address,
                Felt::zero(),
                payload_hash,
                *max_fee,
                chain_id,
                *nonce,
                None,
            )
        },
        ExecutableTransaction::Declare {
            sender_address,
            class_hash,
            compiled_class_hash,
            max_fee,
            nonce,
            ..
        } => {
            let mut class: Vec<Felt> = Vec::new();
            class.push(*class_hash);
            let payload_hash = hash_on_elements(&class);
            let version: u128 = if compiled_class_hash.is_some() {
                2
            } else {
                1
            };
            hash_of_parts(
                DECLARE_PREFIX,
                version,
                *sender_address,
                Felt::zero(),
                payload_hash,
                *max_fee,
                chain_id,
                *nonce,
                *compiled_class_hash,
            )
        },
        ExecutableTransaction::DeployAccount {
            contract_address,
            class_hash,
            contract_address_salt,
            constructor_calldata,
            max_fee,
            nonce,
            ..
        } => {
            let mut head: Vec<Felt> = Vec::new();
            head.push(*class_hash);
            head.push(*contract_address_salt);
            assert(head@ == seq![*class_hash, *contract_address_salt]);
            let payload = joined(head, constructor_calldata);
            let payload_hash = hash_on_elements(&payload);
            hash_of_parts(
                DEPLOY_ACCOUNT_PREFIX,
                1,
                *contract_address,
                Felt::zero(),
                payload_hash,
                *max_fee,
                chain_id,
                *nonce,
                None,
            )
        },
        ExecutableTransaction::L1Handler {
            contract_address,
            entry_point_selector,
            calldata,
            nonce,
        } => {
            let payload_hash = hash_on_elements(calldata);
            hash_of_parts(
                L1_HANDLER_PREFIX,
                0,
                *contract_address,
                *entry_point_selector,
                payload_hash,
                0,
                chain_id,
                *nonce,
                None,
            )
        },
    };
    Some(digest)
}

} // verus!
