//! Blocks with their transactions, committed or pending.

use vstd::prelude::*;
use crate::block_id::{
    answers, law_resolved_position_is_the_one_named, query_for, resolve, resolves_to, BlockId,
    BlockTag, ChainPosition, Header, HeaderLookup,
};
use crate::errors::StarknetRpcApiError;
use crate::felt::Felt;
use crate::runtime_api::StarknetRuntimeApi;
use crate::transaction::{ExecutableTransaction, ExecutableTransactionView};
use crate::transaction_hash::transaction_hash;

verus! {

/// A transaction with the hash that names it on its chain.
#[derive(Clone, Debug, PartialEq, Eq)]
pub struct TransactionWithHash {
    pub transaction_hash: Felt,
    pub transaction: ExecutableTransaction,
}

/// A transaction with its hash, as a mathematical value.
pub struct TransactionWithHashView {
    pub transaction_hash: Felt,
    pub transaction: ExecutableTransactionView,
}

impl View for TransactionWithHash {
    type V = TransactionWithHashView;

    open spec fn view(&self) -> TransactionWithHashView {
        TransactionWithHashView {
            transaction_hash: self.transaction_hash,
            transaction: self.transaction@,
        }
    }
}

impl DeepView for TransactionWithHash {
    type V = TransactionWithHashView;

    open spec fn deep_view(&self) -> TransactionWithHashView {
        self@
    }
}

/// A committed block with its transactions.
#[derive(Clone, Debug, PartialEq, Eq)]
pub struct BlockWithTxs {
    pub header: Header,
    pub transactions: Vec<TransactionWithHash>,
}

/// The block that is being built: the transactions that the pool holds for
/// it, and nothing of the committed chain.
#[derive(Clone, Debug, PartialEq, Eq)]
pub struct PendingBlockWithTxs {
    pub transactions: Vec<TransactionWithHash>,
}

/// A block with its transactions, committed or pending.
#[derive(Clone, Debug, PartialEq, Eq)]
pub enum MaybePendingBlockWithTxs {
    Block(BlockWithTxs),
    PendingBlock(PendingBlockWithTxs),
}

/// A block with its transactions, as a mathematical value.
pub enum MaybePendingBlockWithTxsView {
    Block { header: Header, transactions: Seq<TransactionWithHashView> },
    PendingBlock { transactions: Seq<TransactionWithHashView> },
}

impl View for MaybePendingBlockWithTxs {
    type V = MaybePendingBlockWithTxsView;

    open spec fn view(&self) -> MaybePendingBlockWithTxsView {
        match *self {
            MaybePendingBlockWithTxs::Block(block) => MaybePendingBlockWithTxsView::Block {
                header: block.header,
                transactions: block.transactions.deep_view(),
            },
            MaybePendingBlockWithTxs::PendingBlock(block) => {
                MaybePendingBlockWithTxsView::PendingBlock {
                    transactions: block.transactions.deep_view(),
                }
            },
        }
    }
}

/// The pool: the collaborator that holds the transactions accepted for the
/// next block. Its content changes all the time.
pub trait PoolReader {
    /// Whether `snapshot` is a content in which this pool may be found. An
    /// implementation that says nothing of itself keeps the default, under
    /// which the pool may hold anything.
    open spec fn may_hold(&self, snapshot: Seq<ExecutableTransactionView>) -> bool {
        true
    }

    /// Reads the transactions of the pending block, in their order, as they
    /// are now.
    fn pending_transactions(&self) -> (snapshot: Vec<ExecutableTransaction>)
        ensures
            self.may_hold(snapshot.deep_view()),
    ;
}

/// The block store: the collaborator that keeps the content of committed
/// blocks, in a form that only the runtime can decode.
pub trait BlockStorage {
    /// Whether `body` is what this store may hand out for the block at `at`.
    /// An implementation that says nothing of itself keeps the default, under
    /// which any content may come.
    open spec fn may_store(&self, at: ChainPosition, body: Option<Seq<Seq<u8>>>) -> bool {
        true
    }

    /// Reads the stored content of the block at `at`. `None` says that the
    /// store has no content for it, or failed to read it.
    fn block_body(&self, at: ChainPosition) -> (body: Option<Vec<Vec<u8>>>)
        ensures
            self.may_store(at, optional_body_view(body)),
    ;
}

/// The view of an optional block body.
pub open spec fn optional_body_view(body: Option<Vec<Vec<u8>>>) -> Option<Seq<Seq<u8>>> {
    match body {
        Some(extrinsics) => Some(extrinsics.deep_view()),
        None => None,
    }
}

/// The view of a response to a request for a block.
pub open spec fn block_response_view(
    response: Result<MaybePendingBlockWithTxs, StarknetRpcApiError>,
) -> Result<MaybePendingBlockWithTxsView, StarknetRpcApiError> {
    match response {
        Ok(block) => Ok(block@),
        Err(error) => Err(error),
    }
}

/// Whether every transaction of `transactions` can be hashed for the chain
/// `chain_id`: the identifier and every word of every transaction is an
/// element of the field.
pub open spec fn can_label(transactions: Seq<ExecutableTransactionView>, chain_id: Felt) -> bool {
    &&& chain_id.is_canonical()
    &&& forall|i: int| 0 <= i < transactions.len() ==> (#[trigger] transactions[i]).is_well_formed()
}

/// The transactions of `transactions`, in their order, each with its hash on
/// the chain `chain_id`.
pub open spec fn labelled(transactions: Seq<ExecutableTransactionView>, chain_id: Felt) -> Seq<
    TransactionWithHashView,
> {
    Seq::new(
        transactions.len(),
        |i: int|
            TransactionWithHashView {
                transaction_hash: transactions[i].hash(chain_id),
                transaction: transactions[i],
            },
    )
}

/// The pending block that is made of a snapshot of the pool: its
/// transactions, each with its hash, or an internal error if one of them
/// cannot be hashed.
pub open spec fn pending_block(chain_id: Felt, snapshot: Seq<ExecutableTransactionView>) -> Result<
    MaybePendingBlockWithTxsView,
    StarknetRpcApiError,
> {
    if can_label(snapshot, chain_id) {
        Ok(
            MaybePendingBlockWithTxsView::PendingBlock {
                transactions: labelled(snapshot, chain_id),
            },
        )
    } else {
        Err(StarknetRpcApiError::InternalServerError)
    }
}

/// The committed block that is made of a header and of the transactions
/// decoded from the block's stored content: an internal error if their
/// number is not the one that the header records or if one of them cannot be
/// hashed, and else the header with the transactions, each with its hash.
pub open spec fn finalized_block(
    chain_id: Felt,
    header: Header,
    decoded: Seq<ExecutableTransactionView>,
) -> Result<MaybePendingBlockWithTxsView, StarknetRpcApiError> {
    if decoded.len() == header.transaction_count && can_label(decoded, chain_id) {
        Ok(
            MaybePendingBlockWithTxsView::Block {
                header,
                transactions: labelled(decoded, chain_id),
            },
        )
    } else {
        Err(StarknetRpcApiError::InternalServerError)
    }
}

/// Whether `response` is what decoding the stored content `extrinsics` of
/// the block at `position` may give: an internal error if the runtime fails
/// to decode it, and else the block made of the position's header and of
/// what the runtime decoded.
pub open spec fn decoding_yields<S: StarknetRuntimeApi>(
    starknet: &S,
    chain_id: Felt,
    position: ChainPosition,
    extrinsics: Seq<Seq<u8>>,
    response: Result<MaybePendingBlockWithTxsView, StarknetRpcApiError>,
) -> bool {
    exists|decoded: Option<Seq<ExecutableTransactionView>>| #[trigger]
        starknet.may_filter(position, extrinsics, decoded) && response == match decoded {
            Some(transactions) => finalized_block(chain_id, position.header(), transactions),
            None => Err(StarknetRpcApiError::InternalServerError),
        }
}

/// Whether `response` is what assembling the block at `position` may give:
/// an internal error if the store has no content for the block, and else
/// what decoding the stored content gives.
pub open spec fn committed_block_yields<S: BlockStorage + StarknetRuntimeApi>(
    starknet: &S,
    chain_id: Felt,
    position: ChainPosition,
    response: Result<MaybePendingBlockWithTxsView, StarknetRpcApiError>,
) -> bool {
    exists|body: Option<Seq<Seq<u8>>>| #[trigger]
        starknet.may_store(position, body) && match body {
            Some(extrinsics) => decoding_yields(starknet, chain_id, position, extrinsics, response),
            None => response == Err::<MaybePendingBlockWithTxsView, StarknetRpcApiError>(
                StarknetRpcApiError::InternalServerError,
            ),
        }
}

/// Whether `response` is what a request for the block `block_id` may end in,
/// once the chain's identifier is known: for the pending tag, the pending
/// block made of one snapshot of the pool; for any other identifier, the
/// error of the resolution if the block does not resolve, and else what
/// assembling the block at the resolved position gives.
pub open spec fn block_yields<S: HeaderLookup + BlockStorage + PoolReader + StarknetRuntimeApi>(
    starknet: &S,
    chain_id: Felt,
    block_id: BlockId,
    response: Result<MaybePendingBlockWithTxsView, StarknetRpcApiError>,
) -> bool {
    if block_id == BlockId::Tag(BlockTag::Pending) {
        exists|snapshot: Seq<ExecutableTransactionView>| #[trigger]
            starknet.may_hold(snapshot) && response == pending_block(chain_id, snapshot)
    } else {
        exists|resolved: Result<ChainPosition, StarknetRpcApiError>| #[trigger]
            resolves_to(starknet, block_id, resolved) && match resolved {
                Ok(position) => committed_block_yields(starknet, chain_id, position, response),
                Err(error) => response == Err::<MaybePendingBlockWithTxsView, StarknetRpcApiError>(
                    error,
                ),
            }
    }
}

/// Whether `response` is what a request for the block `block_id` may end in:
/// an internal error if the chain's identifier cannot be read, and else what
/// [`block_yields`] says for the identifier read.
pub open spec fn get_block_with_txs_yields<
    S: HeaderLookup + BlockStorage + PoolReader + StarknetRuntimeApi,
>(
    starknet: &S,
    block_id: BlockId,
    response: Result<MaybePendingBlockWithTxsView, StarknetRpcApiError>,
) -> bool {
    exists|answer: Option<Felt>| #[trigger]
        starknet.may_name_chain(answer) && match answer {
            Some(chain_id) => block_yields(starknet, chain_id, block_id, response),
            None => response == Err::<MaybePendingBlockWithTxsView, StarknetRpcApiError>(
                StarknetRpcApiError::InternalServerError,
            ),
        }
}

/// Gives each transaction its hash on the chain `chain_id`, keeping the
/// order. There is a result exactly if every transaction can be hashed.
pub fn label(transactions: Vec<ExecutableTransaction>, chain_id: Felt) -> (out: Option<
    Vec<TransactionWithHash>,
>)
    ensures
        out is Some <==> can_label(transactions.deep_view(), chain_id),
        out matches Some(hashed) ==> hashed.deep_view() == labelled(
            transactions.deep_view(),
            chain_id,
        ),
{
    if !chain_id.in_field() {
        return None;
    }
    let ghost all = transactions@;
    let ghost views = transactions.deep_view();
    let mut hashed: Vec<TransactionWithHash> = Vec::new();
    for transaction in it: transactions
        invariant
            chain_id.is_canonical(),
            it.seq() == all,
            views == transactions.deep_view(),
            views.len() == all.len(),
            forall|i: int| 0 <= i < all.len() ==> (#[trigger] all[i])@ == views[i],
            hashed.len() == it.index(),
            forall|i: int|
                0 <= i < hashed.len() ==> (#[trigger] hashed[i])@ == labelled(views, chain_id)[i],
            forall|i: int| 0 <= i < hashed.len() ==> (#[trigger] views[i]).is_well_formed(),
    {
        match transaction_hash(&transaction, chain_id) {
            Some(digest) => {
                hashed.push(TransactionWithHash { transaction_hash: digest, transaction });
            },
            None => {
                return None;
            },
        }
    }
    Some(hashed)
}

/// Assembles the pending block from one snapshot of the pool and the chain's
/// identifier, and from nothing else: the block holds exactly the snapshot's
/// transactions, in the snapshot's order, each with its hash.
pub fn assemble_pending(chain_id: Felt, snapshot: Vec<ExecutableTransaction>) -> (response: Result<
    MaybePendingBlockWithTxs,
    StarknetRpcApiError,
>)
    ensures
        block_response_view(response) == pending_block(chain_id, snapshot.deep_view()),
{
    match label(snapshot, chain_id) {
        Some(transactions) => Ok(
            MaybePendingBlockWithTxs::PendingBlock(PendingBlockWithTxs { transactions }),
        ),
        None => Err(StarknetRpcApiError::InternalServerError),
    }
}

/// Assembles a committed block from its header and the transactions that
/// the runtime decoded from its stored content.
///
/// The block holds the decoded transactions in their order, each with its
/// hash. A number of transactions other than the one that the header records
/// is an internal error, and so is a transaction that cannot be hashed.
pub fn assemble_finalized(
    chain_id: Felt,
    header: Header,
    decoded: Vec<ExecutableTransaction>,
) -> (response: Result<MaybePendingBlockWithTxs, StarknetRpcApiError>)
    ensures
        block_response_view(response) == finalized_block(chain_id, header, decoded.deep_view()),
{
    let count: usize = decoded.len();
    if count as u64 != header.transaction_count {
        return Err(StarknetRpcApiError::InternalServerError);
    }
    match label(decoded, chain_id) {
        Some(transactions) => Ok(
            MaybePendingBlockWithTxs::Block(BlockWithTxs { header, transactions }),
        ),
        None => Err(StarknetRpcApiError::InternalServerError),
    }
}

/// Answers a request for the block `block_id` with its transactions.
///
/// The chain's identifier is read first, once. For the pending tag the pool
/// is then read, once, and the block is made of that snapshot alone: no
/// position is resolved and nothing committed is touched. For any other
/// identifier the block is resolved, its stored content read and decoded by
/// the runtime at the resolved position, and the block made of the position's
/// header and the decoded transactions.
///
/// The request fails with `BlockNotFound` if the block does not resolve, and
/// with `InternalServerError` if the chain's identifier cannot be read, the
/// content of a resolved block is missing or cannot be decoded, or what was
/// decoded does not fit the header. So a committed block that is served has
/// the hash or the height asked for, and as many transactions as its header
/// records.
pub fn get_block_with_txs<S: HeaderLookup + BlockStorage + PoolReader + StarknetRuntimeApi>(
    starknet: &S,
    block_id: BlockId,
) -> (response: Result<MaybePendingBlockWithTxs, StarknetRpcApiError>)
    ensures
        get_block_with_txs_yields(starknet, block_id, block_response_view(response)),
        response matches Err(error) ==> error == StarknetRpcApiError::BlockNotFound || error
            == StarknetRpcApiError::InternalServerError,
        response matches Ok(block) ==> (block is PendingBlock <==> block_id == BlockId::Tag(
            BlockTag::Pending,
        )),
        response matches Ok(MaybePendingBlockWithTxs::Block(block)) ==> block.transactions.len()
            == block.header.transaction_count,
        response matches Ok(MaybePendingBlockWithTxs::Block(block)) ==> query_for(block_id)
            is Some && answers(block.header, query_for(block_id).unwrap()),
{
    let chain_id = match starknet.chain_id() {
        Some(chain_id) => chain_id,
        None => {
            return Err(StarknetRpcApiError::InternalServerError);
        },
    };
    if let BlockId::Tag(BlockTag::Pending) = block_id {
        let snapshot = starknet.pending_transactions();
        return assemble_pending(chain_id, snapshot);
    }
    let resolved = resolve(starknet, block_id);
    let position = match resolved {
        Ok(position) => position,
        Err(error) => {
            return Err(error);
        },
    };
    let body = starknet.block_body(position);
    let extrinsics = match body {
        Some(extrinsics) => extrinsics,
        None => {
            return Err(StarknetRpcApiError::InternalServerError);
        },
    };
    let decoded = starknet.extrinsic_filter(position, extrinsics);
    let response = match decoded {
        Some(transactions) => assemble_finalized(chain_id, position.header(), transactions),
        None => Err(StarknetRpcApiError::InternalServerError),
    };
    proof {
        if let Ok(MaybePendingBlockWithTxs::Block(block)) = &response {
            assert(block.transactions.deep_view().len() == block.transactions.len());
        }
    }
    response
}

/// The pending block is the pool's snapshot and nothing else: it holds the
/// snapshot's transactions, as many and in the same order, each with its
/// hash.
pub proof fn law_pending_block_is_the_snapshot(
    chain_id: Felt,
    snapshot: Seq<ExecutableTransactionView>,
    block: MaybePendingBlockWithTxsView,
)
    requires
        pending_block(chain_id, snapshot) == Ok::<
            MaybePendingBlockWithTxsView,
            StarknetRpcApiError,
        >(block),
    ensures
        block matches MaybePendingBlockWithTxsView::PendingBlock { transactions }
            && transactions.len() == snapshot.len() && forall|i: int|
            0 <= i < snapshot.len() ==> (#[trigger] transactions[i]).transaction == snapshot[i]
                && transactions[i].transaction_hash == snapshot[i].hash(chain_id),
{
}

/// A change of the pool shows in the pending block: two snapshots that
/// differ never give the same block.
pub proof fn law_pool_update_is_observable(
    chain_id: Felt,
    before: Seq<ExecutableTransactionView>,
    after: Seq<ExecutableTransactionView>,
)
    requires
        before != after,
        pending_block(chain_id, before) is Ok,
        pending_block(chain_id, after) is Ok,
    ensures
        pending_block(chain_id, before) != pending_block(chain_id, after),
{
    if labelled(before, chain_id) == labelled(after, chain_id) {
        assert(after.len() == labelled(after, chain_id).len());
        assert forall|i: int| 0 <= i < before.len() implies before[i] == after[i] by {
            assert(labelled(after, chain_id)[i].transaction == after[i]);
        }
        assert(before =~= after);
    }
}

/// The pending block that a request gets is made of a snapshot in which the
/// pool was found at that request.
pub proof fn law_pending_request_reflects_the_pool<
    S: HeaderLookup + BlockStorage + PoolReader + StarknetRuntimeApi,
>(starknet: &S, block: MaybePendingBlockWithTxsView)
    requires
        get_block_with_txs_yields(starknet, BlockId::Tag(BlockTag::Pending), Ok(block)),
    ensures
        exists|chain_id: Felt, snapshot: Seq<ExecutableTransactionView>|
            #![trigger starknet.may_name_chain(Some(chain_id)), starknet.may_hold(snapshot)]
            starknet.may_name_chain(Some(chain_id)) && starknet.may_hold(snapshot) && block
                == (MaybePendingBlockWithTxsView::PendingBlock {
                transactions: labelled(snapshot, chain_id),
            }),
{
}


/// A committed block holds as many transactions as its header records.
pub proof fn law_finalized_block_has_the_recorded_count(
    chain_id: Felt,
    header: Header,
    decoded: Seq<ExecutableTransactionView>,
    block: MaybePendingBlockWithTxsView,
)
    requires
        finalized_block(chain_id, header, decoded) == Ok::<
            MaybePendingBlockWithTxsView,
            StarknetRpcApiError,
        >(block),
    ensures
        block matches MaybePendingBlockWithTxsView::Block { header: of, transactions } && of
            == header && transactions.len() == header.transaction_count && transactions.len()
            == decoded.len() && forall|i: int|
            0 <= i < decoded.len() ==> (#[trigger] transactions[i]).transaction == decoded[i],
{
}

/// The block that a request by height gets has that height, and holds as
/// many transactions as its header records.
pub proof fn law_block_by_number_has_the_recorded_count<
    S: HeaderLookup + BlockStorage + PoolReader + StarknetRuntimeApi,
>(starknet: &S, number: u64, block: MaybePendingBlockWithTxsView)
    requires
        get_block_with_txs_yields(starknet, BlockId::Number(number), Ok(block)),
    ensures
        block matches MaybePendingBlockWithTxsView::Block { header, transactions } && header.number
            == number && transactions.len() == header.transaction_count,
{
    let block_id = BlockId::Number(number);
    let response = Ok::<MaybePendingBlockWithTxsView, StarknetRpcApiError>(block);
    let answer = choose|answer: Option<Felt>| #[trigger]
        starknet.may_name_chain(answer) && match answer {
            Some(chain_id) => block_yields(starknet, chain_id, block_id, response),
            None => response == Err::<MaybePendingBlockWithTxsView, StarknetRpcApiError>(
                StarknetRpcApiError::InternalServerError,
            ),
        };
    let chain_id = answer.unwrap();
    let resolved = choose|resolved: Result<ChainPosition, StarknetRpcApiError>| #[trigger]
        resolves_to(starknet, block_id, resolved) && match resolved {
            Ok(position) => committed_block_yields(starknet, chain_id, position, response),
            Err(error) => response == Err::<MaybePendingBlockWithTxsView, StarknetRpcApiError>(
                error,
            ),
        };
    law_resolved_position_is_the_one_named(starknet, block_id, resolved.unwrap());
}


} // verus!
