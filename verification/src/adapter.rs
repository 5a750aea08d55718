//! The conversion of submitted transactions into the form the runtime
//! executes.

use vstd::prelude::*;
use crate::errors::{ConversionError, StarknetRpcApiError};
use crate::felt::{all_canonical, canonical_copy, half_weight, Felt};
use crate::hash::{contract_address, deployed_address};
use crate::transaction::{
    ExecutableTransaction, ExecutableTransactionView, WireTransaction, WireTransactionView,
};

verus! {

impl WireTransactionView {
    /// The fee bound, if the transaction names one.
    pub open spec fn max_fee(self) -> Option<Felt> {
        match self {
            WireTransactionView::Invoke { max_fee, .. } => max_fee,
            WireTransactionView::Declare { max_fee, .. } => max_fee,
            WireTransactionView::DeployAccount { max_fee, .. } => max_fee,
        }
    }

    /// The nonce, if the transaction names one.
    pub open spec fn nonce(self) -> Option<Felt> {
        match self {
            WireTransactionView::Invoke { nonce, .. } => nonce,
            WireTransactionView::Declare { nonce, .. } => nonce,
            WireTransactionView::DeployAccount { nonce, .. } => nonce,
        }
    }

    /// The signature.
    pub open spec fn signature(self) -> Seq<Felt> {
        match self {
            WireTransactionView::Invoke { signature, .. } => signature,
            WireTransactionView::Declare { signature, .. } => signature,
            WireTransactionView::DeployAccount { signature, .. } => signature,
        }
    }

    /// The single words of the payload: addresses, hashes and the salt.
    pub open spec fn payload_words(self) -> Seq<Felt> {
        match self {
            WireTransactionView::Invoke { sender_address, .. } => seq![sender_address],
            WireTransactionView::Declare {
                sender_address,
                class_hash,
                compiled_class_hash,
                ..
            } => match compiled_class_hash {
                Some(compiled) => seq![sender_address, class_hash, compiled],
                None => seq![sender_address, class_hash],
            },
            WireTransactionView::DeployAccount { class_hash, contract_address_salt, .. } => {
                seq![class_hash, contract_address_salt]
            },
        }
    }

    /// The call data: the arguments of the call or of the constructor. A
    /// declaration has none.
    pub open spec fn calldata(self) -> Seq<Felt> {
        match self {
            WireTransactionView::Invoke { calldata, .. } => calldata,
            WireTransactionView::Declare { .. } => Seq::<Felt>::empty(),
            WireTransactionView::DeployAccount { constructor_calldata, .. } => constructor_calldata,
        }
    }

    /// Why the transaction cannot be executed, if it cannot. The checks come
    /// in this order, and the first that fails gives the reason.
    pub open spec fn rejection(self) -> Option<ConversionError> {
        if self.max_fee() is None || self.nonce() is None {
            Some(ConversionError::MissingField)
        } else if self.max_fee().unwrap().value() >= half_weight() {
            Some(ConversionError::FeeBoundTooLarge)
        } else if !self.nonce().unwrap().is_canonical() || !all_canonical(self.payload_words())
            || !all_canonical(self.signature()) {
            Some(ConversionError::MalformedField)
        } else if !all_canonical(self.calldata()) {
            Some(ConversionError::MalformedCalldata)
        } else {
            None
        }
    }

    /// The same transaction in the runtime's form, field by field. The
    /// address of a new account is the one that the zero address deploys its
    /// class at.
    pub open spec fn reshaped(self) -> ExecutableTransactionView {
        match self {
            WireTransactionView::Invoke { sender_address, calldata, signature, max_fee, nonce } => {
                ExecutableTransactionView::Invoke {
                    sender_address,
                    calldata,
                    signature,
                    max_fee: max_fee.unwrap().lo,
                    nonce: nonce.unwrap(),
                }
            },
            WireTransactionView::Declare {
                sender_address,
                class_hash,
                compiled_class_hash,
                signature,
                max_fee,
                nonce,
            } => ExecutableTransactionView::Declare {
                sender_address,
                class_hash,
                compiled_class_hash,
                signature,
                max_fee: max_fee.unwrap().lo,
                nonce: nonce.unwrap(),
            },
            WireTransactionView::DeployAccount {
                class_hash,
                contract_address_salt,
                constructor_calldata,
                signature,
                max_fee,
                nonce,
            } => ExecutableTransactionView::DeployAccount {
                contract_address: deployed_address(
                    contract_address_salt,
                    class_hash,
                    constructor_calldata,
                    Felt { hi: 0, lo: 0 },
                ),
                class_hash,
                contract_address_salt,
                constructor_calldata,
                signature,
                max_fee: max_fee.unwrap().lo,
                nonce: nonce.unwrap(),
            },
        }
    }

    /// What adapting the transaction gives.
    pub open spec fn adapted(self) -> Result<ExecutableTransactionView, ConversionError> {
        match self.rejection() {
            Some(error) => Err(error),
            None => Ok(self.reshaped()),
        }
    }
}

/// The views of a batch, in the batch's order.
pub open spec fn adapted_batch(batch: Seq<WireTransactionView>) -> Seq<ExecutableTransactionView> {
    Seq::new(batch.len(), |i: int| batch[i].reshaped())
}

/// The index of the first transaction at or after `from` that cannot be
/// executed, or the batch's length if there is none.
pub open spec fn first_rejected(batch: Seq<WireTransactionView>, from: int) -> int
    decreases batch.len() - from,
{
    if from < 0 || from >= batch.len() {
        batch.len() as int
    } else if batch[from].rejection() is Some {
        from
    } else {
        first_rejected(batch, from + 1)
    }
}

/// What adapting a batch one by one gives: every transaction in the
/// runtime's form, in the batch's order, or the reason why the first bad one
/// was refused.
pub open spec fn adapted_in_order(batch: Seq<WireTransactionView>) -> Result<
    Seq<ExecutableTransactionView>,
    ConversionError,
> {
    let first = first_rejected(batch, 0);
    if first < batch.len() {
        Err(batch[first].rejection().unwrap())
    } else {
        Ok(adapted_batch(batch))
    }
}

/// Whether every transaction of the batch can be adapted.
pub open spec fn all_adaptable(batch: Seq<WireTransactionView>) -> bool {
    forall|k: int| 0 <= k < batch.len() ==> (#[trigger] batch[k]).rejection() is None
}

/// What adapting a batch gives: every transaction in the runtime's form, in
/// the batch's order, if every one can be adapted, and else an internal
/// error and nothing more.
pub open spec fn adapted_all(batch: Seq<WireTransactionView>) -> Result<
    Seq<ExecutableTransactionView>,
    StarknetRpcApiError,
> {
    if all_adaptable(batch) {
        Ok(adapted_batch(batch))
    } else {
        Err(StarknetRpcApiError::InternalServerError)
    }
}

/// The view of the result of a conversion.
pub open spec fn conversion_view(result: Result<ExecutableTransaction, ConversionError>) -> Result<
    ExecutableTransactionView,
    ConversionError,
> {
    match result {
        Ok(transaction) => Ok(transaction@),
        Err(error) => Err(error),
    }
}

/// The view of the result of a batch conversion, whatever the type of its
/// error.
pub open spec fn batch_conversion_view<E>(result: Result<Vec<ExecutableTransaction>, E>) -> Result<
    Seq<ExecutableTransactionView>,
    E,
> {
    match result {
        Ok(transactions) => Ok(transactions.deep_view()),
        Err(error) => Err(error),
    }
}

/// Reads the fee bound and the nonce of a wire transaction.
fn fee_and_nonce(max_fee: &Option<Felt>, nonce: &Option<Felt>) -> (read: Result<
    (u128, Felt),
    ConversionError,
>)
    ensures
        read == (if *max_fee is None || *nonce is None {
            Err::<(u128, Felt), ConversionError>(ConversionError::MissingField)
        } else if max_fee.unwrap().value() >= half_weight() {
            Err(ConversionError::FeeBoundTooLarge)
        } else if !nonce.unwrap().is_canonical() {
            Err(ConversionError::MalformedField)
        } else {
            Ok((max_fee.unwrap().lo, nonce.unwrap()))
        }),
{
    match (max_fee, nonce) {
        (Some(bound), Some(nonce)) => match bound.to_u128() {
            Some(fee) => {
                if nonce.in_field() {
                    Ok((fee, *nonce))
                } else {
                    Err(ConversionError::MalformedField)
                }
            },
            None => Err(ConversionError::FeeBoundTooLarge),
        },
        _ => Err(ConversionError::MissingField),
    }
}

/// Copies a signature, refusing words outside the field.
fn checked_signature(signature: &Vec<Felt>) -> (copy: Result<Vec<Felt>, ConversionError>)
    ensures
        copy is Ok <==> all_canonical(signature@),
        copy matches Ok(words) ==> words@ == signature@,
        copy matches Err(error) ==> error == ConversionError::MalformedField,
{
    match canonical_copy(signature) {
        Some(words) => Ok(words),
        None => Err(ConversionError::MalformedField),
    }
}

/// Copies call data, refusing words outside the field.
fn checked_calldata(calldata: &Vec<Felt>) -> (copy: Result<Vec<Felt>, ConversionError>)
    ensures
        copy is Ok <==> all_canonical(calldata@),
        copy matches Ok(words) ==> words@ == calldata@,
        copy matches Err(error) ==> error == ConversionError::MalformedCalldata,
{
    match canonical_copy(calldata) {
        Some(words) => Ok(words),
        None => Err(ConversionError::MalformedCalldata),
    }
}

/// Turns a wire transaction into the form the runtime executes.
///
/// The conversion fails, with the first reason in the order of
/// [`WireTransactionView::rejection`], if the fee bound or the nonce is
/// absent, if the fee bound exceeds 128 bits, or if a word lies outside the
/// field. Otherwise every field is carried over, and a new account gets its
/// address.
pub fn adapt(transaction: &WireTransaction) -> (result: Result<
    ExecutableTransaction,
    ConversionError,
>)
    ensures
        conversion_view(result) == transaction@.adapted(),
        result matches Ok(executable) ==> executable@.is_well_formed(),
{
    match transaction {
        WireTransaction::Invoke { sender_address, calldata, signature, max_fee, nonce } => {
            let (fee, nonce) = match fee_and_nonce(max_fee, nonce) {
                Ok(read) => read,
                Err(error) => {
                    return Err(error);
                },
            };
            if !sender_address.in_field() {
                assert(!transaction@.payload_words()[0].is_canonical());
                return Err(ConversionError::MalformedField);
            }
            let signature = match checked_signature(signature) {
                Ok(words) => words,
                Err(error) => {
                    return Err(error);
                },
            };
            let calldata = match checked_calldata(calldata) {
                Ok(words) => words,
                Err(error) => {
                    return Err(error);
                },
            };
            Ok(
                ExecutableTransaction::Invoke {
                    sender_address: *sender_address,
                    calldata,
                    signature,
                    max_fee: fee,
                    nonce,
                },
            )
        },
        WireTransaction::Declare {
            sender_address,
            class_hash,
            compiled_class_hash,
            signature,
            max_fee,
            nonce,
        } => {
            let (fee, nonce) = match fee_and_nonce(max_fee, nonce) {
                Ok(read) => read,
                Err(error) => {
                    return Err(error);
                },
            };
            let compiled_fits = match compiled_class_hash {
                Some(compiled) => compiled.in_field(),
                None => true,
            };
            if !sender_address.in_field() || !class_hash.in_field() || !compiled_fits {
                return Err(ConversionError::MalformedField);
            }
            let signature = match checked_signature(signature) {
                Ok(words) => words,
                Err(error) => {
                    return Err(error);
                },
            };
            Ok(
                ExecutableTransaction::Declare {
                    sender_address: *sender_address,
                    class_hash: *class_hash,
                    compiled_class_hash: *compiled_class_hash,
                    signature,
                    max_fee: fee,
                    nonce,
                },
            )
        },
        WireTransaction::DeployAccount {
            class_hash,
            contract_address_salt,
            constructor_calldata,
            signature,
            max_fee,
            nonce,
        } => {
            let (fee, nonce) = match fee_and_nonce(max_fee, nonce) {
                Ok(read) => read,
                Err(error) => {
                    return Err(error);
                },
            };
            if !class_hash.in_field() || !contract_address_salt.in_field() {
                return Err(ConversionError::MalformedField);
            }
            let signature = match checked_signature(signature) {
                Ok(words) => words,
                Err(error) => {
                    return Err(error);
                },
            };
            let constructor_calldata = match checked_calldata(constructor_calldata) {
                Ok(words) => words,
                Err(error) => {
                    return Err(error);
                },
            };
            let address = contract_address(
                *contract_address_salt,
                *class_hash,
                &constructor_calldata,
                Felt::zero(),
            );
            Ok(
                ExecutableTransaction::DeployAccount {
                    contract_address: address,
                    class_hash: *class_hash,
                    contract_address_salt: *contract_address_salt,
                    constructor_calldata,
                    signature,
                    max_fee: fee,
                    nonce,
                },
            )
        },
    }
}

/// Adapts a batch one transaction after the other, and stops at the first
/// that cannot be adapted.
///
/// The result holds every transaction in the runtime's form, in the batch's
/// order. If one cannot be adapted, the batch fails with the reason for the
/// first such transaction, and no adapted transaction is handed out.
pub fn try_adapt_all(batch: &Vec<WireTransaction>) -> (result: Result<
    Vec<ExecutableTransaction>,
    ConversionError,
>)
    ensures
        batch_conversion_view(result) == adapted_in_order(batch.deep_view()),
        result matches Ok(executables) ==> forall|i: int|
            0 <= i < executables.len() ==> (#[trigger] executables[i])@.is_well_formed(),
{
    let ghost wire = batch.deep_view();
    let mut out: Vec<ExecutableTransaction> = Vec::new();
    let mut i: usize = 0;
    while i < batch.len()
        invariant
            i <= batch.len(),
            wire == batch.deep_view(),
            out.len() == i,
            first_rejected(wire, 0) == first_rejected(wire, i as int),
            forall|j: int| 0 <= j < i ==> (#[trigger] out[j])@ == wire[j].reshaped(),
            forall|j: int| 0 <= j < i ==> (#[trigger] out[j])@.is_well_formed(),
        decreases batch.len() - i,
    {
        match adapt(&batch[i]) {
            Ok(executable) => {
                out.push(executable);
            },
            Err(error) => {
                return Err(error);
            },
        }
        i = i + 1;
    }
    assert(out.deep_view() == adapted_batch(wire));
    Ok(out)
}

/// Adapts a whole batch, or nothing of it.
///
/// The result holds every transaction in the runtime's form, in the batch's
/// order. If any transaction cannot be adapted, whichever it is and for
/// whatever reason, the batch fails with `InternalServerError`, and no
/// adapted transaction is handed out: not even of those that stand before it.
pub fn adapt_all(batch: &Vec<WireTransaction>) -> (result: Result<
    Vec<ExecutableTransaction>,
    StarknetRpcApiError,
>)
    ensures
        batch_conversion_view(result) == adapted_all(batch.deep_view()),
        result matches Ok(executables) ==> forall|i: int|
            0 <= i < executables.len() ==> (#[trigger] executables[i])@.is_well_formed(),
{
    proof {
        lemma_first_rejected(batch.deep_view(), 0);
    }
    match try_adapt_all(batch) {
        Ok(executables) => Ok(executables),
        Err(error) => Err(StarknetRpcApiError::from_conversion_error(error)),
    }
}

/// Adapting keeps the kind of a transaction: an invocation stays an
/// invocation, a declaration a declaration and an account deployment an
/// account deployment. So no submitted transaction becomes a message from the
/// base layer.
pub proof fn law_adapting_keeps_the_kind(transaction: WireTransactionView)
    ensures
        transaction is Invoke <==> transaction.reshaped() is Invoke,
        transaction is Declare <==> transaction.reshaped() is Declare,
        transaction is DeployAccount <==> transaction.reshaped() is DeployAccount,
        !(transaction.reshaped() is L1Handler),
        transaction.adapted() matches Ok(executable) ==> !(executable is L1Handler),
{
}

/// Where the first rejected transaction stands: every transaction between
/// `from` and it can be adapted, and it is rejected unless it is the batch's
/// end.
proof fn lemma_first_rejected(batch: Seq<WireTransactionView>, from: int)
    requires
        0 <= from <= batch.len(),
    ensures
        from <= first_rejected(batch, from) <= batch.len(),
        forall|j: int|
            from <= j < first_rejected(batch, from) ==> (#[trigger] batch[j]).rejection() is None,
        first_rejected(batch, from) < batch.len() ==> batch[first_rejected(
            batch,
            from,
        )].rejection() is Some,
    decreases batch.len() - from,
{
    if from < batch.len() && batch[from].rejection() is None {
        lemma_first_rejected(batch, from + 1);
    }
}

/// A batch is adapted whole or not at all.
///
/// The batch is adapted exactly if every transaction of it can be; the result
/// then holds what each transaction is adapted to, in the batch's order. If
/// the transaction at any place cannot be adapted, the batch fails, and the
/// failure carries no adapted transaction: not even of those that stand
/// before that place.
pub proof fn law_batch_is_adapted_whole_or_not_at_all(batch: Seq<WireTransactionView>)
    ensures
        adapted_all(batch) is Ok <==> forall|k: int|
            0 <= k < batch.len() ==> (#[trigger] batch[k]).adapted() is Ok,
        forall|k: int|
            0 <= k < batch.len() && (#[trigger] batch[k]).adapted() is Err ==> adapted_all(batch)
                == Err::<Seq<ExecutableTransactionView>, StarknetRpcApiError>(
                StarknetRpcApiError::InternalServerError,
            ),
        adapted_all(batch) matches Ok(adapted) ==> adapted.len() == batch.len() && forall|k: int|
            0 <= k < batch.len() ==> (#[trigger] batch[k]).adapted() == Ok::<
                ExecutableTransactionView,
                ConversionError,
            >(adapted[k]),
{
    if all_adaptable(batch) {
        assert forall|k: int| 0 <= k < batch.len() implies (#[trigger] batch[k]).adapted()
            is Ok by {
            assert(batch[k].rejection() is None);
        }
    } else {
        let k = choose|k: int| 0 <= k < batch.len() && !((#[trigger] batch[k]).rejection() is None);
        assert(batch[k].adapted() is Err);
    }
}

/// Adapting one by one and adapting as a whole agree: they succeed on the
/// same batches, with the same result, and where they fail the reason given
/// is that of the first transaction that cannot be adapted.
pub proof fn law_first_failure_names_the_reason(batch: Seq<WireTransactionView>)
    ensures
        adapted_in_order(batch) is Ok <==> adapted_all(batch) is Ok,
        adapted_in_order(batch) matches Ok(adapted) ==> adapted_all(batch) == Ok::<
            Seq<ExecutableTransactionView>,
            StarknetRpcApiError,
        >(adapted),
        adapted_in_order(batch) matches Err(error) ==> exists|k: int|
            0 <= k < batch.len() && (#[trigger] batch[k]).adapted() == Err::<
                ExecutableTransactionView,
                ConversionError,
            >(error) && forall|j: int| 0 <= j < k ==> (#[trigger] batch[j]).adapted() is Ok,
{
    lemma_first_rejected(batch, 0);
    let first = first_rejected(batch, 0);
    if first < batch.len() {
        assert(batch[first].adapted() is Err);
    }
}

} // verus!
