//! The node's collaborators, bundled for a request.

use vstd::prelude::*;
use crate::block_id::{ChainPosition, Header, HeaderLookup, HeaderQuery};
use crate::errors::RuntimeError;
use crate::felt::Felt;
use crate::get_block_with_txs::{BlockStorage, PoolReader};
use crate::runtime_api::StarknetRuntimeApi;
use crate::transaction::{ExecutableTransaction, ExecutableTransactionView};

verus! {

/// What the bridge works with: the client, which knows the committed
/// headers and keeps the blocks' content, the transaction pool, and the
/// runtime. The bridge holds no state of its own; a request borrows the
/// collaborators and changes nothing in them.
pub struct Starknet<C, P, R> {
    pub client: C,
    pub pool: P,
    pub runtime: R,
}

impl<C: HeaderLookup, P, R> HeaderLookup for Starknet<C, P, R> {
    open spec fn may_find(&self, query: HeaderQuery, found: Option<Header>) -> bool {
        self.client.may_find(query, found)
    }

    fn find_header(&self, query: HeaderQuery) -> (found: Option<Header>) {
        self.client.find_header(query)
    }
}

impl<C: BlockStorage, P, R> BlockStorage for Starknet<C, P, R> {
    open spec fn may_store(&self, at: ChainPosition, body: Option<Seq<Seq<u8>>>) -> bool {
        self.client.may_store(at, body)
    }

    fn block_body(&self, at: ChainPosition) -> (body: Option<Vec<Vec<u8>>>) {
        self.client.block_body(at)
    }
}

impl<C, P: PoolReader, R> PoolReader for Starknet<C, P, R> {
    open spec fn may_hold(&self, snapshot: Seq<ExecutableTransactionView>) -> bool {
        self.pool.may_hold(snapshot)
    }

    fn pending_transactions(&self) -> (snapshot: Vec<ExecutableTransaction>) {
        self.pool.pending_transactions()
    }
}

impl<C, P, R: StarknetRuntimeApi> StarknetRuntimeApi for Starknet<C, P, R> {
    open spec fn may_name_chain(&self, answer: Option<Felt>) -> bool {
        self.runtime.may_name_chain(answer)
    }

    open spec fn may_estimate(
        &self,
        at: ChainPosition,
        transactions: Seq<ExecutableTransactionView>,
        reply: Result<Seq<(u128, u128)>, RuntimeError>,
    ) -> bool {
        self.runtime.may_estimate(at, transactions, reply)
    }

    open spec fn may_filter(
        &self,
        at: ChainPosition,
        extrinsics: Seq<Seq<u8>>,
        decoded: Option<Seq<ExecutableTransactionView>>,
    ) -> bool {
        self.runtime.may_filter(at, extrinsics, decoded)
    }

    fn chain_id(&self) -> (answer: Option<Felt>) {
        self.runtime.chain_id()
    }

    fn estimate_fee(&self, at: ChainPosition, transactions: Vec<ExecutableTransaction>) -> (reply:
        Result<Vec<(u128, u128)>, RuntimeError>) {
        self.runtime.estimate_fee(at, transactions)
    }

    fn extrinsic_filter(&self, at: ChainPosition, extrinsics: Vec<Vec<u8>>) -> (decoded: Option<
        Vec<ExecutableTransaction>,
    >) {
        self.runtime.extrinsic_filter(at, extrinsics)
    }
}

} // verus!
