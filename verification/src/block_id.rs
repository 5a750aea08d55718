//! Block identifiers and their resolution into positions of the committed
//! chain.

use vstd::prelude::*;
use crate::errors::StarknetRpcApiError;
use crate::felt::Felt;

verus! {

/// A block named by its place relative to the chain's head.
#[derive(Clone, Copy, Debug, PartialEq, Eq, Structural)]
pub enum BlockTag {
    /// The best committed block.
    Latest,
    /// The block being built, not yet committed.
    Pending,
}

/// How a request names a block. Nothing says that such a block exists.
#[derive(Clone, Copy, Debug, PartialEq, Eq, Structural)]
pub enum BlockId {
    Hash(Felt),
    Number(u64),
    Tag(BlockTag),
}

/// The header of a committed block.
#[derive(Clone, Copy, Debug, PartialEq, Eq, Structural)]
pub struct Header {
    pub hash: Felt,
    pub parent_hash: Felt,
    /// The block's height.
    pub number: u64,
    /// The state root after the block.
    pub new_root: Felt,
    pub timestamp: u64,
    pub sequencer_address: Felt,
    /// How many transactions the block holds.
    pub transaction_count: u64,
}

/// A question to the header store.
#[derive(Clone, Copy, Debug, PartialEq, Eq, Structural)]
pub enum HeaderQuery {
    ByHash(Felt),
    ByNumber(u64),
    /// The best committed block.
    Best,
}

/// A place in the committed chain. Only resolution makes one, from a header
/// that the header store gave in answer to the question asked.
#[derive(Clone, Copy, Debug, PartialEq, Eq, Structural)]
pub struct ChainPosition {
    header: Header,
}

impl ChainPosition {
    /// The position of the block with this header.
    pub closed spec fn of(header: Header) -> ChainPosition {
        ChainPosition { header }
    }

    /// The header of the block at this position.
    pub closed spec fn spec_header(&self) -> Header {
        self.header
    }

    /// The header of the block at this position.
    #[verifier::when_used_as_spec(spec_header)]
    pub fn header(&self) -> (header: Header)
        ensures
            header == self.spec_header(),
            *self == Self::of(header),
    {
        self.header
    }

    /// The position of a header has that header.
    pub proof fn lemma_of_header(header: Header)
        ensures
            Self::of(header).header() == header,
    {
    }

}

/// The header store: the collaborator that knows the committed blocks.
pub trait HeaderLookup {
    /// Whether `found` is an answer that this store may give to `query`. An
    /// implementation that says nothing of itself keeps the default, under
    /// which any answer may come: then the clause of `find_header` claims
    /// nothing, and nothing is assumed of the implementation.
    open spec fn may_find(&self, query: HeaderQuery, found: Option<Header>) -> bool {
        true
    }

    /// Looks a header up. `None` says that the store has no such block, or
    /// that it failed to read it.
    fn find_header(&self, query: HeaderQuery) -> (found: Option<Header>)
        ensures
            self.may_find(query, found),
    ;
}

/// The question that settles `id`, if one does. The pending block is no
/// committed block, so no question settles it.
pub open spec fn query_for(id: BlockId) -> Option<HeaderQuery> {
    match id {
        BlockId::Hash(hash) => Some(HeaderQuery::ByHash(hash)),
        BlockId::Number(number) => Some(HeaderQuery::ByNumber(number)),
        BlockId::Tag(BlockTag::Latest) => Some(HeaderQuery::Best),
        BlockId::Tag(BlockTag::Pending) => None,
    }
}

/// Whether `header` is an answer to `query`: it has the hash or the height
/// asked for.
pub open spec fn answers(header: Header, query: HeaderQuery) -> bool {
    match query {
        HeaderQuery::ByHash(hash) => header.hash == hash,
        HeaderQuery::ByNumber(number) => header.number == number,
        HeaderQuery::Best => true,
    }
}

/// What resolution makes of the store's answer to `query`: the position of
/// the header found, if it answers the question, and else no block.
pub open spec fn resolution(query: HeaderQuery, found: Option<Header>) -> Result<
    ChainPosition,
    StarknetRpcApiError,
> {
    match found {
        Some(header) if answers(header, query) => Ok(ChainPosition::of(header)),
        _ => Err(StarknetRpcApiError::BlockNotFound),
    }
}

/// Whether `outcome` is what resolving `id` against `store` may give.
pub open spec fn resolves_to<L: HeaderLookup>(
    store: &L,
    id: BlockId,
    outcome: Result<ChainPosition, StarknetRpcApiError>,
) -> bool {
    match query_for(id) {
        Some(query) => exists|found: Option<Header>| #[trigger]
            store.may_find(query, found) && outcome == resolution(query, found),
        None => {
            outcome == Err::<ChainPosition, StarknetRpcApiError>(StarknetRpcApiError::BlockNotFound)
        },
    }
}

/// The question to put to the header store for `id`.
pub fn header_query(id: BlockId) -> (query: Option<HeaderQuery>)
    ensures
        query == query_for(id),
{
    match id {
        BlockId::Hash(hash) => Some(HeaderQuery::ByHash(hash)),
        BlockId::Number(number) => Some(HeaderQuery::ByNumber(number)),
        BlockId::Tag(BlockTag::Latest) => Some(HeaderQuery::Best),
        BlockId::Tag(BlockTag::Pending) => None,
    }
}

/// Turns the store's answer to `query` into a position, or into
/// `BlockNotFound` where nothing was found or the header found is not the one
/// asked for.
pub fn accept(query: HeaderQuery, found: Option<Header>) -> (outcome: Result<
    ChainPosition,
    StarknetRpcApiError,
>)
    ensures
        outcome == resolution(query, found),
{
    match found {
        Some(header) => {
            let fits = match query {
                HeaderQuery::ByHash(hash) => header.hash == hash,
                HeaderQuery::ByNumber(number) => header.number == number,
                HeaderQuery::Best => true,
            };
            if fits {
                Ok(ChainPosition { header })
            } else {
                Err(StarknetRpcApiError::BlockNotFound)
            }
        },
        None => Err(StarknetRpcApiError::BlockNotFound),
    }
}

/// Resolves `id` into a position of the committed chain.
///
/// A hash or a height is looked up in the store; the latest tag is the best
/// committed block. The pending tag is never resolved and the store is not
/// asked: a caller that serves the pending block branches before it comes
/// here. `BlockNotFound` is the only error.
pub fn resolve<L: HeaderLookup>(store: &L, id: BlockId) -> (outcome: Result<
    ChainPosition,
    StarknetRpcApiError,
>)
    ensures
        resolves_to(store, id, outcome),
        outcome matches Err(error) ==> error == StarknetRpcApiError::BlockNotFound,
        outcome matches Ok(position) ==> query_for(id) matches Some(query) && answers(
            position.header(),
            query,
        ),
{
    match header_query(id) {
        Some(query) => {
            let found = store.find_header(query);
            let outcome = accept(query, found);
            outcome
        },
        None => Err(StarknetRpcApiError::BlockNotFound),
    }
}

/// A height that the store knows resolves to a position whose header has
/// that height: where the store answers the question for a height with
/// nothing but headers of that height, resolution succeeds.
pub proof fn law_known_height_resolves<L: HeaderLookup>(
    store: &L,
    height: u64,
    outcome: Result<ChainPosition, StarknetRpcApiError>,
)
    requires
        forall|found: Option<Header>| #[trigger]
            store.may_find(HeaderQuery::ByNumber(height), found) ==> found is Some
                && found.unwrap().number == height,
        resolves_to(store, BlockId::Number(height), outcome),
    ensures
        outcome matches Ok(position) && position.header().number == height,
{
    let query = HeaderQuery::ByNumber(height);
    let found = choose|found: Option<Header>| #[trigger]
        store.may_find(query, found) && outcome == resolution(query, found);
    ChainPosition::lemma_of_header(found.unwrap());
}

/// Whatever the store answers, a height never resolves to a position of
/// another height, nor a hash to a block of another hash.
pub proof fn law_resolved_position_is_the_one_named<L: HeaderLookup>(
    store: &L,
    id: BlockId,
    position: ChainPosition,
)
    requires
        resolves_to(store, id, Ok(position)),
    ensures
        id matches BlockId::Number(number) ==> position.header().number == number,
        id matches BlockId::Hash(hash) ==> position.header().hash == hash,
        id != BlockId::Tag(BlockTag::Pending),
{
    let query = query_for(id).unwrap();
    let found = choose|found: Option<Header>| #[trigger]
        store.may_find(query, found) && Ok::<ChainPosition, StarknetRpcApiError>(position)
            == resolution(query, found);
    ChainPosition::lemma_of_header(found.unwrap());
}

/// A hash that the store does not know resolves to `BlockNotFound`, and so
/// does a height that it does not know.
pub proof fn law_unknown_block_is_not_found<L: HeaderLookup>(
    store: &L,
    id: BlockId,
    outcome: Result<ChainPosition, StarknetRpcApiError>,
)
    requires
        query_for(id) matches Some(query) ==> forall|found: Option<Header>| #[trigger]
            store.may_find(query, found) ==> found is None,
        resolves_to(store, id, outcome),
    ensures
        outcome == Err::<ChainPosition, StarknetRpcApiError>(StarknetRpcApiError::BlockNotFound),
{
}

} // verus!
