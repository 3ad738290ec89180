//! The agent's view of the data-indexing node's status: block pointers per
//! network and per subgraph, folded out of the indexing-status query
//! response.

use vstd::prelude::*;

use crate::errors::QueryError;
use crate::ledger::StringMap;
use vstd::utf8::encode_utf8;

verus! {

/// A block at a height, as the agent anchors claims to it.
pub struct BlockPointer {
    pub hash: String,
    pub number: u64,
}

/// A network name together with a block on it.
pub struct NetworkPointer {
    pub network: String,
    pub block: BlockPointer,
}

/// A block as the status query reports it: the number arrives as a decimal
/// string.
pub struct QueryBlock {
    pub hash: String,
    pub number: String,
}

/// One chain entry of a subgraph's indexing status.
pub struct ChainStatus {
    pub network: String,
    pub chain_head_block: Option<QueryBlock>,
    pub latest_block: Option<QueryBlock>,
}

/// One subgraph's indexing status.
pub struct IndexingStatus {
    pub subgraph: String,
    pub chains: Vec<ChainStatus>,
}

/// All decimal digits, and at least one.
pub open spec fn is_dec_digits(bytes: Seq<u8>) -> bool {
    bytes.len() > 0 && forall|i: int| 0 <= i < bytes.len() ==> 0x30 <= #[trigger] bytes[i] <= 0x39
}

/// The numeric value of a digit sequence.
pub open spec fn dec_value(bytes: Seq<u8>) -> int
    decreases bytes.len(),
{
    if bytes.len() == 0 {
        0
    } else {
        dec_value(bytes.drop_last()) * 10 + (bytes.last() - 0x30)
    }
}

/// The digits of a decimal literal: everything after one optional leading
/// plus sign, as unsigned parsing accepts it.
pub open spec fn dec_digits_part(bytes: Seq<u8>) -> Seq<u8> {
    if bytes.len() > 0 && bytes[0] == 0x2b {
        bytes.drop_first()
    } else {
        bytes
    }
}

/// What parsing a decimal `u64` yields: the value when, after one optional
/// leading plus sign, the bytes are all digits and the value fits, nothing
/// otherwise.
pub open spec fn parsed_u64(bytes: Seq<u8>) -> Option<u64> {
    if is_dec_digits(dec_digits_part(bytes)) && dec_value(dec_digits_part(bytes)) <= u64::MAX {
        Some(dec_value(dec_digits_part(bytes)) as u64)
    } else {
        None
    }
}

/// A block number string's value, with zero standing in for an unparsable
/// number.
pub open spec fn block_number_or_zero(bytes: Seq<u8>) -> u64 {
    match parsed_u64(bytes) {
        Some(v) => v,
        None => 0,
    }
}

proof fn lemma_dec_value_nonneg(bytes: Seq<u8>)
    requires
        forall|i: int| 0 <= i < bytes.len() ==> 0x30 <= #[trigger] bytes[i] <= 0x39,
    ensures
        dec_value(bytes) >= 0,
    decreases bytes.len(),
{
    if bytes.len() > 0 {
        lemma_dec_value_nonneg(bytes.drop_last());
    }
}

proof fn lemma_dec_value_prefix(bytes: Seq<u8>, k: int)
    requires
        forall|i: int| 0 <= i < bytes.len() ==> 0x30 <= #[trigger] bytes[i] <= 0x39,
        0 <= k <= bytes.len(),
    ensures
        dec_value(bytes.take(k)) <= dec_value(bytes),
    decreases bytes.len() - k,
{
    if k < bytes.len() {
        lemma_dec_value_prefix(bytes, k + 1);
        assert(bytes.take(k + 1).drop_last() =~= bytes.take(k));
        assert(bytes.take(k + 1).last() == bytes[k]);
        lemma_dec_value_nonneg(bytes.take(k));
        assert(dec_value(bytes.take(k)) <= dec_value(bytes.take(k + 1)));
    } else {
        assert(bytes.take(k) =~= bytes);
    }
}

/// Parse a decimal `u64` as the standard unsigned parse does: one optional
/// leading plus sign, then digits; `None` when anything else appears or
/// the value does not fit.
pub fn parse_u64(s: &String) -> (r: Option<u64>)
    ensures
        r == parsed_u64(encode_utf8(s@)),
{
    let bytes = s.as_str().as_bytes();
    let n = bytes.len();
    if n == 0 {
        return None;
    }
    let start: usize = if bytes[0] == 0x2b {
        1
    } else {
        0
    };
    let ghost part = dec_digits_part(bytes@);
    proof {
        assert(part =~= bytes@.skip(start as int));
    }
    if n == start {
        // a bare sign carries no digits
        return None;
    }
    let mut value: u64 = 0;
    let mut i: usize = start;
    while i < n
        invariant
            n == bytes@.len(),
            start <= i <= n,
            start <= 1,
            bytes@ == encode_utf8(s@),
            part == dec_digits_part(bytes@),
            part == bytes@.skip(start as int),
            forall|j: int| start <= j < i ==> 0x30 <= #[trigger] bytes@[j] <= 0x39,
            value == dec_value(part.take(i - start as int)),
        decreases n - i,
    {
        let b = bytes[i];
        proof {
            assert(part[i - start as int] == bytes@[i as int]);
        }
        if b < 0x30 || b > 0x39 {
            proof {
                assert(!is_dec_digits(part));
            }
            return None;
        }
        let d: u64 = (b - 0x30) as u64;
        proof {
            let m = i - start as int;
            assert(part.take(m + 1).drop_last() =~= part.take(m));
            assert(part.take(m + 1).last() == part[m]);
        }
        let v10 = match value.checked_mul(10) {
            Some(v) => v,
            None => {
                proof {
                    if is_dec_digits(part) {
                        lemma_dec_value_nonneg(part.take(i - start as int));
                        lemma_dec_value_prefix(part, i - start as int + 1);
                    }
                }
                return None;
            },
        };
        let v = match v10.checked_add(d) {
            Some(v) => v,
            None => {
                proof {
                    if is_dec_digits(part) {
                        lemma_dec_value_prefix(part, i - start as int + 1);
                    }
                }
                return None;
            },
        };
        value = v;
        i += 1;
    }
    proof {
        assert(part.take(n - start as int) =~= part);
        assert forall|k: int| 0 <= k < part.len() implies 0x30 <= #[trigger] part[k]
            <= 0x39 by {
            assert(part[k] == bytes@[start + k]);
        }
        assert(is_dec_digits(part));
    }
    Some(value)
}

/// The block pointer a reported block yields: its hash and its parsed
/// number, zero standing in for an unparsable one.
pub open spec fn pointer_of(blk: QueryBlock) -> BlockPointer {
    BlockPointer { hash: blk.hash, number: block_number_or_zero(encode_utf8(blk.number@)) }
}

/// One chain's contribution to the chainhead map: a reported chain head
/// replaces whatever the map held for that network.
pub open spec fn chainheads_chain_step(
    chain: ChainStatus,
    acc: Map<Seq<char>, BlockPointer>,
) -> Map<Seq<char>, BlockPointer> {
    match chain.chain_head_block {
        Option::Some(blk) => acc.insert(chain.network@, pointer_of(blk)),
        Option::None => acc,
    }
}

/// A chain list's contribution, first to last.
pub open spec fn chainheads_chains_fold(
    chains: Seq<ChainStatus>,
    acc: Map<Seq<char>, BlockPointer>,
) -> Map<Seq<char>, BlockPointer>
    decreases chains.len(),
{
    if chains.len() == 0 {
        acc
    } else {
        chainheads_chains_fold(chains.drop_first(), chainheads_chain_step(chains.first(), acc))
    }
}

/// The chainhead map of a status list, first to last.
pub open spec fn chainheads_fold(
    statuses: Seq<IndexingStatus>,
    acc: Map<Seq<char>, BlockPointer>,
) -> Map<Seq<char>, BlockPointer>
    decreases statuses.len(),
{
    if statuses.len() == 0 {
        acc
    } else {
        chainheads_fold(statuses.drop_first(), chainheads_chains_fold(statuses.first().chains@, acc))
    }
}

/// Update the chainhead block pointer for each network according to the
/// indexing statuses of the subgraphs: the last reported chain head per
/// network wins.
pub fn update_network_chainheads(statuses: Vec<IndexingStatus>) -> (r: StringMap<BlockPointer>)
    ensures
        r.wf(),
        r@ == chainheads_fold(statuses@, Map::empty()),
{
    let ghost total = chainheads_fold(statuses@, Map::empty());
    let mut network_map: StringMap<BlockPointer> = StringMap::new();
    proof {
        assert(statuses@.skip(0) =~= statuses@);
    }
    let n = statuses.len();
    let mut i: usize = 0;
    while i < n
        invariant
            n == statuses@.len(),
            0 <= i <= n,
            network_map.wf(),
            total == chainheads_fold(statuses@, Map::empty()),
            chainheads_fold(statuses@.skip(i as int), network_map@) == total,
        decreases n - i,
    {
        let status = &statuses[i];
        let ghost entered = network_map@;
        proof {
            assert(status.chains@.skip(0) =~= status.chains@);
        }
        let m = status.chains.len();
        let mut j: usize = 0;
        while j < m
            invariant
                m == status.chains@.len(),
                0 <= j <= m,
                network_map.wf(),
                chainheads_chains_fold(status.chains@.skip(j as int), network_map@)
                    == chainheads_chains_fold(status.chains@, entered),
            decreases m - j,
        {
            let chain = &status.chains[j];
            proof {
                assert(status.chains@.skip(j as int).first() == status.chains@[j as int]);
                assert(status.chains@.skip(j as int).drop_first() =~= status.chains@.skip(
                    j as int + 1,
                ));
            }
            match &chain.chain_head_block {
                Option::Some(blk) => {
                    let number = match parse_u64(&blk.number) {
                        Option::Some(v) => v,
                        Option::None => 0,
                    };
                    let blk_ptr = BlockPointer { hash: blk.hash.clone(), number };
                    proof {
                        assert(blk_ptr == pointer_of(*blk));
                    }
                    network_map.insert(chain.network.clone(), blk_ptr);
                },
                Option::None => {},
            }
            j += 1;
        }
        proof {
            assert(status.chains@.skip(m as int) =~= Seq::<ChainStatus>::empty());
            assert(statuses@.skip(i as int).first() == statuses@[i as int]);
            assert(statuses@.skip(i as int).drop_first() =~= statuses@.skip(i as int + 1));
        }
        i += 1;
    }
    proof {
        assert(statuses@.skip(n as int) =~= Seq::<IndexingStatus>::empty());
    }
    network_map
}

/// One chain's contribution to a subgraph's network pointer: the first
/// reported latest block for the subgraph is kept.
pub open spec fn latest_chain_step(
    subgraph: Seq<char>,
    chain: ChainStatus,
    acc: Map<Seq<char>, NetworkPointer>,
) -> Map<Seq<char>, NetworkPointer> {
    match chain.latest_block {
        Option::Some(blk) => if acc.contains_key(subgraph) {
            acc
        } else {
            acc.insert(subgraph, NetworkPointer { network: chain.network, block: pointer_of(blk) })
        },
        Option::None => acc,
    }
}

/// A chain list's contribution for one subgraph, first to last.
pub open spec fn latest_chains_fold(
    subgraph: Seq<char>,
    chains: Seq<ChainStatus>,
    acc: Map<Seq<char>, NetworkPointer>,
) -> Map<Seq<char>, NetworkPointer>
    decreases chains.len(),
{
    if chains.len() == 0 {
        acc
    } else {
        latest_chains_fold(
            subgraph,
            chains.drop_first(),
            latest_chain_step(subgraph, chains.first(), acc),
        )
    }
}

/// The subgraph-to-latest-block map of a status list, first to last.
pub open spec fn latest_blocks_fold(
    statuses: Seq<IndexingStatus>,
    acc: Map<Seq<char>, NetworkPointer>,
) -> Map<Seq<char>, NetworkPointer>
    decreases statuses.len(),
{
    if statuses.len() == 0 {
        acc
    } else {
        latest_blocks_fold(
            statuses.drop_first(),
            latest_chains_fold(statuses.first().subgraph@, statuses.first().chains@, acc),
        )
    }
}

/// Gather each subgraph's network name and latest block from the indexing
/// statuses: the first reported latest block per subgraph is kept.
pub fn subgraph_network_blocks(statuses: Vec<IndexingStatus>) -> (r: StringMap<NetworkPointer>)
    ensures
        r.wf(),
        r@ == latest_blocks_fold(statuses@, Map::empty()),
{
    let ghost total = latest_blocks_fold(statuses@, Map::empty());
    let mut blocks: StringMap<NetworkPointer> = StringMap::new();
    proof {
        assert(statuses@.skip(0) =~= statuses@);
    }
    let n = statuses.len();
    let mut i: usize = 0;
    while i < n
        invariant
            n == statuses@.len(),
            0 <= i <= n,
            blocks.wf(),
            total == latest_blocks_fold(statuses@, Map::empty()),
            latest_blocks_fold(statuses@.skip(i as int), blocks@) == total,
        decreases n - i,
    {
        let status = &statuses[i];
        let ghost entered = blocks@;
        proof {
            assert(status.chains@.skip(0) =~= status.chains@);
        }
        let m = status.chains.len();
        let mut j: usize = 0;
        while j < m
            invariant
                m == status.chains@.len(),
                0 <= j <= m,
                blocks.wf(),
                latest_chains_fold(status.subgraph@, status.chains@.skip(j as int), blocks@)
                    == latest_chains_fold(status.subgraph@, status.chains@, entered),
            decreases m - j,
        {
            let chain = &status.chains[j];
            proof {
                assert(status.chains@.skip(j as int).first() == status.chains@[j as int]);
                assert(status.chains@.skip(j as int).drop_first() =~= status.chains@.skip(
                    j as int + 1,
                ));
            }
            match &chain.latest_block {
                Option::Some(blk) => {
                    if !blocks.contains(&status.subgraph) {
                        let number = match parse_u64(&blk.number) {
                            Option::Some(v) => v,
                            Option::None => 0,
                        };
                        let blk_ptr = NetworkPointer {
                            network: chain.network.clone(),
                            block: BlockPointer { hash: blk.hash.clone(), number },
                        };
                        proof {
                            assert(blk_ptr == NetworkPointer {
                                network: chain.network,
                                block: pointer_of(*blk),
                            });
                        }
                        blocks.insert(status.subgraph.clone(), blk_ptr);
                    }
                },
                Option::None => {},
            }
            j += 1;
        }
        proof {
            assert(status.chains@.skip(m as int) =~= Seq::<ChainStatus>::empty());
            assert(statuses@.skip(i as int).first() == statuses@[i as int]);
            assert(statuses@.skip(i as int).drop_first() =~= statuses@.skip(i as int + 1));
        }
        i += 1;
    }
    proof {
        assert(statuses@.skip(n as int) =~= Seq::<IndexingStatus>::empty());
    }
    blocks
}

/// What the indexing-status query response yields: its status list, or the
/// indexing error when the response carried no data.
pub fn extract_indexing_statuses(data: Option<Vec<IndexingStatus>>) -> (r: Result<
    Vec<IndexingStatus>,
    QueryError,
>)
    ensures
        match data {
            Option::Some(statuses) => r matches Ok(v) && v == statuses,
            Option::None => r matches Err(e) && e matches QueryError::IndexingError,
        },
{
    match data {
        Option::Some(statuses) => Ok(statuses),
        Option::None => Err(QueryError::IndexingError),
    }
}

} // verus!
