use std::cell::{Cell, RefCell};

use starknet_bridge::adapter::adapt;
use starknet_bridge::block_id::{
    resolve, BlockId, BlockTag, ChainPosition, Header, HeaderLookup, HeaderQuery,
};
use starknet_bridge::errors::{RuntimeError, StarknetRpcApiError, StarknetTransactionExecutionError};
use starknet_bridge::estimate_fee::{
    conclude, estimate, estimate_fee, fee_estimates, FeeEstimate, PLACEHOLDER_GAS_PRICE,
};
use starknet_bridge::felt::Felt;
use starknet_bridge::runtime_api::StarknetRuntimeApi;
use starknet_bridge::transaction::{ExecutableTransaction, WireTransaction};

fn small(value: u128) -> Felt {
    Felt { hi: 0, lo: value }
}

fn header(number: u64) -> Header {
    Header {
        hash: small(0x1000 + number as u128),
        parent_hash: small(0x0fff + number as u128),
        number,
        new_root: small(7),
        timestamp: 1_700_000_000 + number,
        sequencer_address: small(0x5e9),
        transaction_count: 0,
    }
}

/// A chain of the blocks 0 to 2 and a runtime that answers every request
/// with the same reply, and keeps what it was asked.
struct Node {
    reply: Result<Vec<(u128, u128)>, RuntimeError>,
    calls: Cell<u32>,
    seen_at: Cell<Option<u64>>,
    seen_batch: RefCell<Vec<ExecutableTransaction>>,
}

impl Node {
    fn replying(reply: Result<Vec<(u128, u128)>, RuntimeError>) -> Node {
        Node { reply, calls: Cell::new(0), seen_at: Cell::new(None), seen_batch: RefCell::new(vec![]) }
    }
}

impl HeaderLookup for Node {
    fn find_header(&self, query: HeaderQuery) -> Option<Header> {
        match query {
            HeaderQuery::ByHash(hash) => (0..3).map(header).find(|h| h.hash == hash),
            HeaderQuery::ByNumber(number) => (0..3).map(header).find(|h| h.number == number),
            HeaderQuery::Best => Some(header(2)),
        }
    }
}

impl StarknetRuntimeApi for Node {
    fn chain_id(&self) -> Option<Felt> {
        panic!("fee estimation does not read the chain's identifier");
    }

    fn estimate_fee(
        &self,
        at: ChainPosition,
        transactions: Vec<ExecutableTransaction>,
    ) -> Result<Vec<(u128, u128)>, RuntimeError> {
        self.calls.set(self.calls.get() + 1);
        self.seen_at.set(Some(at.header().number));
        *self.seen_batch.borrow_mut() = transactions;
        self.reply.clone()
    }

    fn extrinsic_filter(
        &self,
        _at: ChainPosition,
        _extrinsics: Vec<Vec<u8>>,
    ) -> Option<Vec<ExecutableTransaction>> {
        panic!("fee estimation decodes no block");
    }
}

fn invoke(tag: u128) -> WireTransaction {
    WireTransaction::Invoke {
        sender_address: small(0xabc),
        calldata: vec![small(tag), small(2)],
        signature: vec![small(3)],
        max_fee: Some(small(5_000)),
        nonce: Some(small(tag)),
    }
}

fn malformed_invoke() -> WireTransaction {
    WireTransaction::Invoke {
        sender_address: small(0xabc),
        calldata: vec![Felt { hi: u128::MAX, lo: u128::MAX }],
        signature: vec![],
        max_fee: Some(small(5_000)),
        nonce: Some(small(0)),
    }
}

#[test]
fn unknown_hash_is_block_not_found() {
    let node = Node::replying(Ok(vec![(1000, 100)]));
    let response = estimate_fee(&node, vec![invoke(1)], BlockId::Hash(small(0xdead)));
    assert_eq!(response, Err(StarknetRpcApiError::BlockNotFound));
    assert_eq!(node.calls.get(), 0);
}

#[test]
fn unknown_block_is_reported_before_a_malformed_transaction() {
    let node = Node::replying(Ok(vec![(1000, 100)]));
    let response = estimate_fee(&node, vec![malformed_invoke()], BlockId::Number(3));
    assert_eq!(response, Err(StarknetRpcApiError::BlockNotFound));
    assert_eq!(node.calls.get(), 0);
}

#[test]
fn malformed_calldata_is_internal_error_and_runtime_is_not_invoked() {
    let node = Node::replying(Ok(vec![(1000, 100)]));
    let response = estimate_fee(&node, vec![malformed_invoke()], BlockId::Tag(BlockTag::Latest));
    assert_eq!(response, Err(StarknetRpcApiError::InternalServerError));
    assert_eq!(node.calls.get(), 0);
}

#[test]
fn one_malformed_transaction_fails_the_whole_request() {
    let node = Node::replying(Ok(vec![(1000, 100), (2000, 200), (3000, 300)]));
    let response = estimate_fee(
        &node,
        vec![invoke(1), invoke(2), malformed_invoke()],
        BlockId::Tag(BlockTag::Latest),
    );
    assert_eq!(response, Err(StarknetRpcApiError::InternalServerError));
    assert_eq!(node.calls.get(), 0);
}

#[test]
fn valid_invoke_at_latest_gets_the_runtime_figures() {
    let node = Node::replying(Ok(vec![(1000, 100)]));
    let response = estimate_fee(&node, vec![invoke(1)], BlockId::Tag(BlockTag::Latest));
    assert_eq!(
        response,
        Ok(vec![FeeEstimate { gas_price: 10, gas_consumed: 100, overall_fee: 1000 }])
    );
    assert_eq!(node.calls.get(), 1);
    assert_eq!(node.seen_at.get(), Some(2));
}

#[test]
fn pending_block_is_estimated_on_the_latest_committed_block() {
    let node = Node::replying(Ok(vec![(1000, 100)]));
    let response = estimate_fee(&node, vec![invoke(1)], BlockId::Tag(BlockTag::Pending));
    assert_eq!(
        response,
        Ok(vec![FeeEstimate { gas_price: 10, gas_consumed: 100, overall_fee: 1000 }])
    );
    assert_eq!(node.seen_at.get(), Some(2));
}

#[test]
fn block_by_number_and_by_hash_is_the_execution_base() {
    let node = Node::replying(Ok(vec![]));
    assert_eq!(estimate_fee(&node, vec![], BlockId::Number(1)), Ok(vec![]));
    assert_eq!(node.seen_at.get(), Some(1));
    assert_eq!(estimate_fee(&node, vec![], BlockId::Hash(header(0).hash)), Ok(vec![]));
    assert_eq!(node.seen_at.get(), Some(0));
    assert_eq!(node.calls.get(), 2);
}

#[test]
fn estimates_follow_the_order_of_the_request() {
    let node = Node::replying(Ok(vec![(1000, 100), (2000, 250)]));
    let a = invoke(1);
    let b = invoke(2);
    let response = estimate_fee(&node, vec![a.clone(), b.clone()], BlockId::Tag(BlockTag::Latest));
    assert_eq!(
        response,
        Ok(vec![
            FeeEstimate { gas_price: 10, gas_consumed: 100, overall_fee: 1000 },
            FeeEstimate { gas_price: 10, gas_consumed: 250, overall_fee: 2000 },
        ])
    );
    assert_eq!(*node.seen_batch.borrow(), vec![adapt(&a).unwrap(), adapt(&b).unwrap()]);

    let swapped = estimate_fee(&node, vec![b.clone(), a.clone()], BlockId::Tag(BlockTag::Latest));
    assert_eq!(swapped, response);
    assert_eq!(*node.seen_batch.borrow(), vec![adapt(&b).unwrap(), adapt(&a).unwrap()]);
}

#[test]
fn same_request_twice_gets_the_same_estimates() {
    let node = Node::replying(Ok(vec![(1000, 100), (31, 7)]));
    let first = estimate_fee(&node, vec![invoke(1), invoke(2)], BlockId::Number(1));
    let second = estimate_fee(&node, vec![invoke(1), invoke(2)], BlockId::Number(1));
    assert!(first.is_ok());
    assert_eq!(first, second);
    assert_eq!(node.calls.get(), 2);
}

#[test]
fn rejected_arguments_are_an_internal_error_of_the_request() {
    let node = Node::replying(Err(RuntimeError::Parameter));
    let response = estimate_fee(&node, vec![invoke(1)], BlockId::Tag(BlockTag::Latest));
    assert_eq!(response, Err(StarknetRpcApiError::InternalServerError));
    assert_eq!(node.calls.get(), 1);
}

#[test]
fn execution_failure_is_contract_error() {
    for cause in [
        StarknetTransactionExecutionError::ContractNotFound,
        StarknetTransactionExecutionError::ClassAlreadyDeclared,
        StarknetTransactionExecutionError::ClassHashNotFound,
        StarknetTransactionExecutionError::InvalidContractClass,
        StarknetTransactionExecutionError::ContractError,
    ] {
        let node = Node::replying(Err(RuntimeError::Execution(cause)));
        let response = estimate_fee(&node, vec![invoke(1)], BlockId::Number(1));
        assert_eq!(response, Err(StarknetRpcApiError::ContractError));
        assert_eq!(node.seen_at.get(), Some(1));
    }
}

#[test]
fn estimate_at_a_position_asks_the_runtime_there() {
    let node = Node::replying(Ok(vec![(12, 3)]));
    let position = resolve(&node, BlockId::Number(0)).unwrap();
    let response = estimate(&node, position, &vec![invoke(9)]);
    assert_eq!(response, Ok(vec![FeeEstimate { gas_price: 10, gas_consumed: 3, overall_fee: 12 }]));
    assert_eq!(node.seen_at.get(), Some(0));
    assert_eq!(*node.seen_batch.borrow(), vec![adapt(&invoke(9)).unwrap()]);
}

#[test]
fn estimate_at_a_position_refuses_a_malformed_batch_without_asking() {
    let node = Node::replying(Ok(vec![(12, 3)]));
    let position = resolve(&node, BlockId::Number(0)).unwrap();
    let response = estimate(&node, position, &vec![malformed_invoke()]);
    assert_eq!(response, Err(StarknetRpcApiError::InternalServerError));
    assert_eq!(node.calls.get(), 0);
}

#[test]
fn placeholder_gas_price_is_ten() {
    assert_eq!(PLACEHOLDER_GAS_PRICE, 10);
}

#[test]
fn estimates_take_fee_and_gas_from_the_pairs() {
    assert_eq!(fee_estimates(&vec![]), vec![]);
    assert_eq!(
        fee_estimates(&vec![(1000, 100), (0, 0), (u128::MAX, u128::MAX - 1)]),
        vec![
            FeeEstimate { gas_price: 10, gas_consumed: 100, overall_fee: 1000 },
            FeeEstimate { gas_price: 10, gas_consumed: 0, overall_fee: 0 },
            FeeEstimate { gas_price: 10, gas_consumed: u128::MAX - 1, overall_fee: u128::MAX },
        ]
    );
}

#[test]
fn conclude_maps_reply_to_response() {
    assert_eq!(
        conclude(Ok(vec![(7, 9)])),
        Ok(vec![FeeEstimate { gas_price: 10, gas_consumed: 9, overall_fee: 7 }])
    );
    assert_eq!(conclude(Err(RuntimeError::Parameter)), Err(StarknetRpcApiError::InternalServerError));
    assert_eq!(
        conclude(Err(RuntimeError::Execution(StarknetTransactionExecutionError::ContractNotFound))),
        Err(StarknetRpcApiError::ContractError)
    );
}

#[test]
fn estimate_is_consistent_when_fee_is_gas_at_the_price() {
    assert!(FeeEstimate { gas_price: 10, gas_consumed: 100, overall_fee: 1000 }.is_consistent());
    assert!(FeeEstimate { gas_price: 0, gas_consumed: 100, overall_fee: 0 }.is_consistent());
    assert!(!FeeEstimate { gas_price: 10, gas_consumed: 100, overall_fee: 1001 }.is_consistent());
    assert!(!FeeEstimate { gas_price: 10, gas_consumed: 250, overall_fee: 2000 }.is_consistent());
}

#[test]
fn estimate_whose_product_overflows_is_not_consistent() {
    let estimate = FeeEstimate { gas_price: 10, gas_consumed: u128::MAX, overall_fee: u128::MAX - 9 };
    // 10 * (2^128 - 1) wraps to 2^128 - 10, which is the overall fee given.
    assert_eq!(10u128.wrapping_mul(u128::MAX), u128::MAX - 9);
    assert!(!estimate.is_consistent());
}

#[test]
fn estimate_tells_whether_its_price_is_the_placeholder() {
    assert!(FeeEstimate { gas_price: 10, gas_consumed: 1, overall_fee: 1 }.uses_placeholder_price());
    assert!(!FeeEstimate { gas_price: 11, gas_consumed: 1, overall_fee: 1 }.uses_placeholder_price());
    for estimate in fee_estimates(&vec![(5, 6), (7, 8)]) {
        assert!(estimate.uses_placeholder_price());
    }
}
