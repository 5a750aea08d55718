//! Fee estimation: what a batch of transactions would cost at a block.

use vstd::prelude::*;
use crate::block_id::{
    query_for, resolve, resolves_to, BlockId, BlockTag, ChainPosition, Header, HeaderLookup,
};
use crate::errors::{RuntimeError, StarknetRpcApiError};
use crate::runtime_api::{fee_reply_view, StarknetRuntimeApi};
use crate::adapter::{adapt_all, adapted_all, adapted_batch};
use crate::transaction::{ExecutableTransactionView, WireTransaction, WireTransactionView};

verus! {

/// The gas price that every estimate reports, whatever the state of the
/// chain. It stands in for a price that is not yet read from the chain.
pub const PLACEHOLDER_GAS_PRICE: u128 = 10;

/// What a transaction is estimated to cost.
#[derive(Clone, Copy, Debug, PartialEq, Eq, Structural)]
pub struct FeeEstimate {
    pub gas_price: u128,
    pub gas_consumed: u128,
    pub overall_fee: u128,
}

impl FeeEstimate {
    /// The estimate for a transaction of which the runtime says that it
    /// consumed the fee `pair.0` and used the gas `pair.1`.
    pub open spec fn of(pair: (u128, u128)) -> FeeEstimate {
        FeeEstimate { gas_price: PLACEHOLDER_GAS_PRICE, gas_consumed: pair.1, overall_fee: pair.0 }
    }

    /// Whether the gas price is the placeholder and no price of the chain.
    pub open spec fn has_placeholder_price(self) -> bool {
        self.gas_price == PLACEHOLDER_GAS_PRICE
    }

    /// Whether the overall fee is the gas consumed at the gas price.
    pub open spec fn fee_follows_from_price(self) -> bool {
        self.overall_fee == self.gas_price * self.gas_consumed
    }

    /// Tells whether the gas price is the placeholder and no price of the
    /// chain.
    pub fn uses_placeholder_price(&self) -> (placeholder: bool)
        ensures
            placeholder == self.has_placeholder_price(),
    {
        self.gas_price == PLACEHOLDER_GAS_PRICE
    }

    /// Tells whether the overall fee is the gas consumed at the gas price.
    pub fn is_consistent(&self) -> (consistent: bool)
        ensures
            consistent == self.fee_follows_from_price(),
    {
        match self.gas_price.checked_mul(self.gas_consumed) {
            Some(product) => product == self.overall_fee,
            None => false,
        }
    }
}

/// The estimates for the runtime's pairs, one for each and in their order.
pub open spec fn estimates_of(pairs: Seq<(u128, u128)>) -> Seq<FeeEstimate> {
    Seq::new(pairs.len(), |i: int| FeeEstimate::of(pairs[i]))
}

/// What the caller gets for the runtime's reply: the estimates, an internal
/// error where the runtime rejected the call's arguments, a contract error
/// where a transaction failed.
pub open spec fn fee_response(reply: Result<Seq<(u128, u128)>, RuntimeError>) -> Result<
    Seq<FeeEstimate>,
    StarknetRpcApiError,
> {
    match reply {
        Ok(pairs) => Ok(estimates_of(pairs)),
        Err(error) => Err(StarknetRpcApiError::of_runtime(error)),
    }
}

/// The view of a response to a request for fee estimates.
pub open spec fn fee_response_view(
    response: Result<Vec<FeeEstimate>, StarknetRpcApiError>,
) -> Result<Seq<FeeEstimate>, StarknetRpcApiError> {
    match response {
        Ok(estimates) => Ok(estimates@),
        Err(error) => Err(error),
    }
}

/// The block on whose state transactions are simulated for `id`: the block
/// itself, and for the pending block the latest committed one.
pub open spec fn execution_base(id: BlockId) -> BlockId {
    if id == BlockId::Tag(BlockTag::Pending) {
        BlockId::Tag(BlockTag::Latest)
    } else {
        id
    }
}

/// Whether `response` is what simulating `request` at `position` may give:
/// an internal error without a call to the runtime if the batch cannot be
/// adapted, and else what is made of the runtime's reply to the adapted
/// batch.
pub open spec fn simulation_yields<S: StarknetRuntimeApi>(
    starknet: &S,
    position: ChainPosition,
    request: Seq<WireTransactionView>,
    response: Result<Seq<FeeEstimate>, StarknetRpcApiError>,
) -> bool {
    match adapted_all(request) {
        Ok(batch) => exists|reply: Result<Seq<(u128, u128)>, RuntimeError>| #[trigger]
            starknet.may_estimate(position, batch, reply) && response == fee_response(reply),
        Err(_) => response == Err::<Seq<FeeEstimate>, StarknetRpcApiError>(
            StarknetRpcApiError::InternalServerError,
        ),
    }
}

/// Whether `response` is what a request for the fees of `request` at
/// `block_id` may end in: the error of the resolution if the block does not
/// resolve, and else what the simulation at the resolved position gives.
pub open spec fn estimate_fee_yields<S: HeaderLookup + StarknetRuntimeApi>(
    starknet: &S,
    request: Seq<WireTransactionView>,
    block_id: BlockId,
    response: Result<Seq<FeeEstimate>, StarknetRpcApiError>,
) -> bool {
    exists|resolved: Result<ChainPosition, StarknetRpcApiError>| #[trigger]
        resolves_to(starknet, execution_base(block_id), resolved) && match resolved {
            Ok(position) => simulation_yields(starknet, position, request, response),
            Err(error) => response == Err::<Seq<FeeEstimate>, StarknetRpcApiError>(error),
        }
}

/// Turns the runtime's pairs of consumed fee and used gas into estimates, one
/// for each pair and in the same order. The gas price of each is the
/// placeholder.
pub fn fee_estimates(pairs: &Vec<(u128, u128)>) -> (estimates: Vec<FeeEstimate>)
    ensures
        estimates@ == estimates_of(pairs@),
{
    let mut estimates: Vec<FeeEstimate> = Vec::new();
    let mut i: usize = 0;
    while i < pairs.len()
        invariant
            i <= pairs.len(),
            estimates.len() == i,
            forall|j: int| 0 <= j < i ==> #[trigger] estimates[j] == FeeEstimate::of(pairs[j]),
        decreases pairs.len() - i,
    {
        let pair: (u128, u128) = pairs[i];
        estimates.push(
            FeeEstimate {
                gas_price: PLACEHOLDER_GAS_PRICE,
                gas_consumed: pair.1,
                overall_fee: pair.0,
            },
        );
        i = i + 1;
    }
    estimates
}

/// Makes the response out of the runtime's reply.
pub fn conclude(reply: Result<Vec<(u128, u128)>, RuntimeError>) -> (response: Result<
    Vec<FeeEstimate>,
    StarknetRpcApiError,
>)
    ensures
        fee_response_view(response) == fee_response(fee_reply_view(reply)),
{
    match reply {
        Ok(pairs) => Ok(fee_estimates(&pairs)),
        Err(error) => Err(StarknetRpcApiError::from_runtime_error(error)),
    }
}

/// Estimates the fees of `request` on the state at `position`.
///
/// The whole batch is adapted first, and only then is the runtime asked,
/// once, with the adapted batch in the request's order. A batch that cannot
/// be adapted is an internal error, and the runtime is not asked.
pub fn estimate<S: StarknetRuntimeApi>(
    starknet: &S,
    position: ChainPosition,
    request: &Vec<WireTransaction>,
) -> (response: Result<Vec<FeeEstimate>, StarknetRpcApiError>)
    ensures
        simulation_yields(starknet, position, request.deep_view(), fee_response_view(response)),
        response matches Err(error) ==> error == StarknetRpcApiError::InternalServerError || error
            == StarknetRpcApiError::ContractError,
        response matches Ok(estimates) ==> adapted_all(request.deep_view()) is Ok && forall|
            i: int,
        |
            0 <= i < estimates.len() ==> (#[trigger] estimates[i]).has_placeholder_price(),
{
    let transactions = match adapt_all(request) {
        Ok(transactions) => transactions,
        Err(error) => {
            return Err(error);
        },
    };
    let reply = starknet.estimate_fee(position, transactions);
    let response = conclude(reply);
    assert(starknet.may_estimate(
        position,
        adapted_all(request.deep_view()).unwrap(),
        fee_reply_view(reply),
    ));
    response
}

/// Estimates the fees of `request` on the state of the block `block_id`.
///
/// The block is resolved first; for the pending block the latest committed
/// one is taken. Then the whole batch is adapted, and only then is the
/// runtime asked, once, with the adapted batch in the request's order at the
/// resolved position. The response holds one estimate for each pair of the
/// runtime's reply, in the reply's order.
///
/// The request fails with `BlockNotFound` if the block does not resolve, with
/// `InternalServerError` if a transaction cannot be adapted or the runtime
/// rejects the call's arguments, and with `ContractError` if the runtime says
/// that a transaction failed.
pub fn estimate_fee<S: HeaderLookup + StarknetRuntimeApi>(
    starknet: &S,
    request: Vec<WireTransaction>,
    block_id: BlockId,
) -> (response: Result<Vec<FeeEstimate>, StarknetRpcApiError>)
    ensures
        estimate_fee_yields(starknet, request.deep_view(), block_id, fee_response_view(response)),
        response matches Err(error) ==> error == StarknetRpcApiError::BlockNotFound || error
            == StarknetRpcApiError::InternalServerError || error
            == StarknetRpcApiError::ContractError,
        response matches Ok(estimates) ==> adapted_all(request.deep_view()) is Ok && forall|
            i: int,
        |
            0 <= i < estimates.len() ==> (#[trigger] estimates[i]).has_placeholder_price(),
{
    let base = match block_id {
        BlockId::Tag(BlockTag::Pending) => BlockId::Tag(BlockTag::Latest),
        _ => block_id,
    };
    let resolved = resolve(starknet, base);
    let position = match resolved {
        Ok(position) => position,
        Err(error) => {
            return Err(error);
        },
    };
    estimate(starknet, position, &request)
}

/// A request at a block that the store does not know ends in
/// `BlockNotFound`, whatever the transactions are.
pub proof fn law_unknown_block_fails_the_request<S: HeaderLookup + StarknetRuntimeApi>(
    starknet: &S,
    request: Seq<WireTransactionView>,
    block_id: BlockId,
    response: Result<Seq<FeeEstimate>, StarknetRpcApiError>,
)
    requires
        forall|found: Option<Header>| #[trigger]
            starknet.may_find(query_for(execution_base(block_id)).unwrap(), found)
                ==> found is None,
        estimate_fee_yields(starknet, request, block_id, response),
    ensures
        response == Err::<Seq<FeeEstimate>, StarknetRpcApiError>(
            StarknetRpcApiError::BlockNotFound,
        ),
{
}

/// A request with a transaction that cannot be adapted never ends in
/// estimates: it ends in `BlockNotFound` if the block does not resolve, and
/// in an internal error, made without the runtime's reply, if it does.
pub proof fn law_unadaptable_request_gets_no_estimates<S: HeaderLookup + StarknetRuntimeApi>(
    starknet: &S,
    request: Seq<WireTransactionView>,
    block_id: BlockId,
    response: Result<Seq<FeeEstimate>, StarknetRpcApiError>,
)
    requires
        adapted_all(request) is Err,
        estimate_fee_yields(starknet, request, block_id, response),
    ensures
        response == Err::<Seq<FeeEstimate>, StarknetRpcApiError>(StarknetRpcApiError::BlockNotFound)
            || response == Err::<Seq<FeeEstimate>, StarknetRpcApiError>(
            StarknetRpcApiError::InternalServerError,
        ),
        forall|position: ChainPosition| #[trigger]
            simulation_yields(starknet, position, request, response) ==> response == Err::<
                Seq<FeeEstimate>,
                StarknetRpcApiError,
            >(StarknetRpcApiError::InternalServerError),
{
}

/// The estimates follow the request's order.
///
/// Where a request ends in estimates, the runtime was asked with the adapted
/// batch, whose transaction at each place is what the request's transaction
/// at that place is adapted to, and the estimate at each place is made of the
/// pair at that place of the runtime's reply.
pub proof fn law_estimates_keep_the_order<S: StarknetRuntimeApi>(
    starknet: &S,
    position: ChainPosition,
    request: Seq<WireTransactionView>,
    estimates: Seq<FeeEstimate>,
)
    requires
        simulation_yields(starknet, position, request, Ok(estimates)),
    ensures
        adapted_batch(request).len() == request.len(),
        forall|i: int|
            0 <= i < request.len() ==> (#[trigger] adapted_batch(request)[i])
                == request[i].reshaped(),
        exists|pairs: Seq<(u128, u128)>| #[trigger]
            starknet.may_estimate(position, adapted_batch(request), Ok(pairs)) && pairs.len()
                == estimates.len() && forall|i: int|
                0 <= i < estimates.len() ==> (#[trigger] estimates[i]).overall_fee == pairs[i].0
                    && estimates[i].gas_consumed == pairs[i].1,
{
}


/// Estimating leaves no trace: asked twice for the same request at the same
/// position, a runtime that answers the same question the same way gets the
/// same response both times.
pub proof fn law_same_position_same_estimates<S: StarknetRuntimeApi>(
    starknet: &S,
    position: ChainPosition,
    request: Seq<WireTransactionView>,
    first: Result<Seq<FeeEstimate>, StarknetRpcApiError>,
    second: Result<Seq<FeeEstimate>, StarknetRpcApiError>,
)
    requires
        forall|
            batch: Seq<ExecutableTransactionView>,
            one: Result<Seq<(u128, u128)>, RuntimeError>,
            other: Result<Seq<(u128, u128)>, RuntimeError>,
        |
            #![trigger
                starknet.may_estimate(position, batch, one),
                starknet.may_estimate(position, batch, other),
            ]
            starknet.may_estimate(position, batch, one) && starknet.may_estimate(
                position,
                batch,
                other,
            ) ==> one == other,
        simulation_yields(starknet, position, request, first),
        simulation_yields(starknet, position, request, second),
    ensures
        first == second,
{
}

} // verus!
