//! The bridge between a Starknet query API and the chain's runtime.
//!
//! A request names a block and, for fee estimation, carries transactions as
//! they came off the wire. The bridge resolves the block identifier into a
//! position of the committed chain ([`block_id`]), adapts the transactions to
//! the form the runtime executes ([`adapter`]), asks the runtime at that
//! position ([`runtime_api`]), and makes the response: fee estimates
//! ([`estimate_fee`](mod@estimate_fee)) or a block with its transactions,
//! committed or pending ([`get_block_with_txs`](mod@get_block_with_txs)).
//! Whatever fails inside surfaces as one of a few public errors ([`errors`]).
//!
//! The bridge keeps no state between requests. What changes, the committed
//! chain, the stored blocks, the pool and the runtime's state, lives behind
//! four traits: [`block_id::HeaderLookup`],
//! [`get_block_with_txs::BlockStorage`], [`get_block_with_txs::PoolReader`]
//! and [`runtime_api::StarknetRuntimeApi`]. Each of their methods comes with
//! a predicate that says which answers an implementation may give; the
//! predicates default to `true`, so an implementation owes no proof, and the
//! bridge's contracts say, in terms of them, what was asked of whom and what
//! was made of the answer.

pub mod adapter;
pub mod block_id;
pub mod errors;
pub mod estimate_fee;
pub mod felt;
pub mod get_block_with_txs;
pub mod hash;
pub mod runtime_api;
pub mod starknet;
pub mod transaction;
pub mod transaction_hash;

pub use block_id::{BlockId, BlockTag, ChainPosition, Header};
pub use errors::{StarknetRpcApiError, StarknetTransactionExecutionError};
pub use estimate_fee::{estimate_fee, FeeEstimate};
pub use felt::Felt;
pub use get_block_with_txs::{get_block_with_txs, MaybePendingBlockWithTxs};
pub use starknet::Starknet;
pub use transaction::{ExecutableTransaction, WireTransaction};
