use graphcast::errors::QueryError;
use graphcast::graph_node::{
    extract_indexing_statuses, parse_u64, subgraph_network_blocks, update_network_chainheads,
    ChainStatus, IndexingStatus, QueryBlock,
};
use graphcast::graphql::extract_block_hash;

fn status(subgraph: &str, chains: Vec<ChainStatus>) -> IndexingStatus {
    IndexingStatus {
        subgraph: subgraph.to_string(),
        chains,
    }
}

fn chain(network: &str, head: Option<(&str, &str)>, latest: Option<(&str, &str)>) -> ChainStatus {
    let mk = |(hash, number): (&str, &str)| QueryBlock {
        hash: hash.to_string(),
        number: number.to_string(),
    };
    ChainStatus {
        network: network.to_string(),
        chain_head_block: head.map(mk),
        latest_block: latest.map(mk),
    }
}

#[test]
fn parse_u64_exact_values() {
    assert_eq!(parse_u64(&"0".to_string()), Some(0));
    assert_eq!(parse_u64(&"17906436".to_string()), Some(17906436));
    assert_eq!(parse_u64(&"18446744073709551615".to_string()), Some(u64::MAX));
    assert_eq!(parse_u64(&"18446744073709551616".to_string()), None);
    assert_eq!(parse_u64(&"".to_string()), None);
    assert_eq!(parse_u64(&"12a".to_string()), None);
    assert_eq!(parse_u64(&"-5".to_string()), None);
    assert_eq!(parse_u64(&"007".to_string()), Some(7));
    // one leading plus sign is accepted, as the standard parse accepts it
    assert_eq!(parse_u64(&"+5".to_string()), Some(5));
    assert_eq!(parse_u64(&"+".to_string()), None);
    assert_eq!(parse_u64(&"++7".to_string()), None);
    assert_eq!(parse_u64(&"5+".to_string()), None);
}

#[test]
fn chainheads_last_report_wins() {
    let statuses = vec![
        status(
            "Qm1",
            vec![chain("mainnet", Some(("0xaaa", "100")), None)],
        ),
        status(
            "Qm2",
            vec![
                chain("mainnet", Some(("0xbbb", "101")), None),
                chain("goerli", Some(("0xccc", "7")), None),
            ],
        ),
        status("Qm3", vec![chain("sepolia", None, None)]),
    ];
    let heads = update_network_chainheads(statuses);
    assert_eq!(heads.len(), 2);
    let mainnet = heads.get(&"mainnet".to_string()).unwrap();
    assert_eq!(mainnet.hash, "0xbbb");
    assert_eq!(mainnet.number, 101);
    let goerli = heads.get(&"goerli".to_string()).unwrap();
    assert_eq!(goerli.hash, "0xccc");
    assert_eq!(goerli.number, 7);
    assert!(heads.get(&"sepolia".to_string()).is_none());
}

#[test]
fn chainheads_unparsable_number_defaults_to_zero() {
    let statuses = vec![status(
        "Qm1",
        vec![chain("mainnet", Some(("0xaaa", "not-a-number")), None)],
    )];
    let heads = update_network_chainheads(statuses);
    assert_eq!(heads.get(&"mainnet".to_string()).unwrap().number, 0);
}

#[test]
fn subgraph_blocks_first_report_wins() {
    let statuses = vec![
        status(
            "Qm1",
            vec![
                chain("mainnet", None, Some(("0x111", "90"))),
                chain("goerli", None, Some(("0x222", "5"))),
            ],
        ),
        status("Qm2", vec![chain("goerli", None, None)]),
    ];
    let blocks = subgraph_network_blocks(statuses);
    assert_eq!(blocks.len(), 1);
    let qm1 = blocks.get(&"Qm1".to_string()).unwrap();
    assert_eq!(qm1.network, "mainnet");
    assert_eq!(qm1.block.hash, "0x111");
    assert_eq!(qm1.block.number, 90);
    assert!(blocks.get(&"Qm2".to_string()).is_none());
}

#[test]
fn block_hash_extraction() {
    let ok = extract_block_hash(Some(Some("0xabc".to_string())));
    assert_eq!(ok.unwrap(), "0xabc");
    let missing_hash = extract_block_hash(Some(None));
    assert!(matches!(
        missing_hash,
        Err(QueryError::ParseResponseError(_))
    ));
    let missing_data = extract_block_hash(None);
    assert!(matches!(
        missing_data,
        Err(QueryError::ParseResponseError(_))
    ));
}

#[test]
fn indexing_statuses_extraction() {
    let statuses = vec![status("Qm1", vec![])];
    let ok = extract_indexing_statuses(Some(statuses));
    assert_eq!(ok.unwrap().len(), 1);
    let err = extract_indexing_statuses(None);
    assert!(matches!(err, Err(QueryError::IndexingError)));
}
