//! The runtime, as the bridge sees it.
//!
//! The runtime is reached through this trait alone. Its calls are made at a
//! position of the committed chain, may block on storage, and may fail even
//! when the runtime is served locally: the bridge treats every one of them as
//! a remote call, retries none, and assumes nothing of the runtime's shape
//! beyond the signatures here.

use vstd::prelude::*;
use crate::block_id::ChainPosition;
use crate::errors::RuntimeError;
use crate::felt::Felt;
use crate::transaction::{ExecutableTransaction, ExecutableTransactionView};

verus! {

/// The view of the runtime's reply to a request for fee estimates.
pub open spec fn fee_reply_view(reply: Result<Vec<(u128, u128)>, RuntimeError>) -> Result<
    Seq<(u128, u128)>,
    RuntimeError,
> {
    match reply {
        Ok(pairs) => Ok(pairs@),
        Err(error) => Err(error),
    }
}

/// The view of an optional batch of executable transactions.
pub open spec fn optional_batch_view(batch: Option<Vec<ExecutableTransaction>>) -> Option<
    Seq<ExecutableTransactionView>,
> {
    match batch {
        Some(transactions) => Some(transactions.deep_view()),
        None => None,
    }
}

/// The operations of the runtime that the bridge's requests invoke. The
/// runtime offers more; a request that needs another one declares it here.
///
/// Each operation comes with a predicate that says which replies the runtime
/// may give to which arguments. The bridge's contracts speak of a runtime
/// through these predicates, so they state what was handed to the runtime and
/// what was made of its reply. An implementation that says nothing of itself
/// keeps the defaults, under which any reply may come: then the clause of
/// each method claims nothing, and nothing is assumed of the implementation.
pub trait StarknetRuntimeApi {
    /// Whether `answer` is what this runtime may say when asked for the
    /// chain's identifier.
    open spec fn may_name_chain(&self, answer: Option<Felt>) -> bool {
        true
    }

    /// Whether `reply` is what this runtime may say when asked to estimate
    /// `transactions` at `at`.
    open spec fn may_estimate(
        &self,
        at: ChainPosition,
        transactions: Seq<ExecutableTransactionView>,
        reply: Result<Seq<(u128, u128)>, RuntimeError>,
    ) -> bool {
        true
    }

    /// Whether `decoded` is what this runtime may make of `extrinsics` at
    /// `at`.
    open spec fn may_filter(
        &self,
        at: ChainPosition,
        extrinsics: Seq<Seq<u8>>,
        decoded: Option<Seq<ExecutableTransactionView>>,
    ) -> bool {
        true
    }

    /// Reads the identifier of the network. `None` says that the read failed.
    fn chain_id(&self) -> (answer: Option<Felt>)
        ensures
            self.may_name_chain(answer),
    ;

    /// Simulates `transactions` in order against the state at `at`, each one
    /// seeing the effects of those before it, and commits nothing. The reply
    /// holds, for each transaction in the same order, the fee it consumed and
    /// the gas it used.
    fn estimate_fee(&self, at: ChainPosition, transactions: Vec<ExecutableTransaction>) -> (reply:
        Result<Vec<(u128, u128)>, RuntimeError>)
        ensures
            self.may_estimate(at, transactions.deep_view(), fee_reply_view(reply)),
    ;

    /// Decodes the stored content of the block at `at` into its transactions,
    /// in the block's order. `None` says that the call failed.
    fn extrinsic_filter(&self, at: ChainPosition, extrinsics: Vec<Vec<u8>>) -> (decoded: Option<
        Vec<ExecutableTransaction>,
    >)
        ensures
            self.may_filter(at, extrinsics.deep_view(), optional_batch_view(decoded)),
    ;
}

} // verus!
