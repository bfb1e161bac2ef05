use blockchain::chain::Chain;
use blockchain::types::{BlockHeader, Transaction};

fn tx(sender: &str, receiver: &str, amount: i64) -> Transaction {
    Transaction { sender: sender.to_string(), receiver: receiver.to_string(), amount }
}

#[test]
fn scenario_a_construction_mines_genesis() {
    let chain = Chain::new("miner1".to_string(), 1);
    assert_eq!(chain.chain.len(), 1);
    let genesis = &chain.chain[0];
    assert_eq!(genesis.count, 1);
    assert_eq!(genesis.transactions.len(), 1);
    assert_eq!(genesis.transactions[0].sender, "Root");
    assert_eq!(genesis.transactions[0].receiver, "miner1");
    assert_eq!(genesis.transactions[0].amount, 100);
    assert_eq!(genesis.header.pre_hash, "0".repeat(64));
    assert_eq!(genesis.header.difficulty, 1);
}

#[test]
fn scenario_b_second_block_links_to_first() {
    let mut chain = Chain::new("miner1".to_string(), 1);
    assert!(chain.new_transaction("A".to_string(), "B".to_string(), 10));
    assert!(chain.generate_new_block());
    assert_eq!(chain.chain.len(), 2);
    let second = &chain.chain[1];
    assert_eq!(second.count, 2);
    assert_eq!(second.transactions.len(), 2);
    assert_eq!(second.transactions[0].sender, "Root");
    assert_eq!(second.transactions[0].receiver, "miner1");
    assert_eq!(second.transactions[0].amount, 100);
    assert_eq!(second.transactions[1].sender, "A");
    assert_eq!(second.transactions[1].receiver, "B");
    assert_eq!(second.transactions[1].amount, 10);
    let first_fp = Chain::hash(&chain.chain[0].header.canonical_text());
    assert_eq!(second.header.pre_hash, first_fp);
    assert!(chain.curr_transaction.is_empty());
}

#[test]
fn scenario_c_higher_difficulty_header_parses_zero() {
    let mut chain = Chain::new("miner1".to_string(), 1);
    assert!(chain.update_difficulty(2));
    assert!(chain.generate_new_block());
    let last = chain.chain.last().unwrap();
    assert_eq!(last.header.difficulty, 2);
    let fp = Chain::hash(&last.header.canonical_text());
    let leading: u32 = fp[..2].parse().unwrap();
    assert_eq!(leading, 0);
}

#[test]
fn chain_link_and_count_invariants_hold_over_several_blocks() {
    let mut chain = Chain::new("miner9".to_string(), 1);
    chain.new_transaction("A".to_string(), "B".to_string(), 3);
    chain.new_transaction("B".to_string(), "C".to_string(), 4);
    assert!(chain.generate_new_block());
    chain.new_transaction("C".to_string(), "A".to_string(), 5);
    assert!(chain.generate_new_block());
    assert_eq!(chain.chain.len(), 3);
    for i in 1..chain.chain.len() {
        let prev_fp = Chain::hash(&chain.chain[i - 1].header.canonical_text());
        assert_eq!(chain.chain[i].header.pre_hash, prev_fp);
    }
    for block in &chain.chain {
        assert_eq!(block.count as usize, block.transactions.len());
        assert_eq!(block.transactions[0].receiver, "miner9");
    }
}

#[test]
fn merkle_root_is_deterministic() {
    let txs = vec![tx("A", "B", 1), tx("B", "C", 2), tx("C", "D", 3)];
    let again = vec![tx("A", "B", 1), tx("B", "C", 2), tx("C", "D", 3)];
    assert_eq!(Chain::get_merkle(txs), Chain::get_merkle(again));
}

#[test]
fn merkle_root_depends_on_order() {
    let forward = vec![tx("A", "B", 1), tx("B", "C", 2)];
    let backward = vec![tx("B", "C", 2), tx("A", "B", 1)];
    assert_ne!(Chain::get_merkle(forward), Chain::get_merkle(backward));
}

#[test]
fn single_transaction_root_duplicates_the_fingerprint() {
    let t = tx("A", "B", 7);
    let fp = Chain::hash(&t.canonical_text());
    let expected = Chain::hash(&(fp.clone() + &fp));
    assert_eq!(Chain::get_merkle(vec![t]), expected);
}

#[test]
fn mined_header_fingerprint_parses_to_zero() {
    let mut header = BlockHeader {
        timestamp: 1_700_000_000,
        nonce: 0,
        pre_hash: "0".repeat(64),
        merkle: "abc".to_string(),
        difficulty: 1,
    };
    assert!(Chain::proof_of_work(&mut header));
    let fp = Chain::hash(&header.canonical_text());
    let leading: u32 = fp[..1].parse().unwrap();
    assert_eq!(leading, 0);
    assert_eq!(header.timestamp, 1_700_000_000);
    assert_eq!(header.pre_hash, "0".repeat(64));
    assert_eq!(header.merkle, "abc");
    assert_eq!(header.difficulty, 1);
}

#[test]
fn hex_rendering_keeps_the_variable_width_quirk() {
    assert_eq!(Chain::hex_to_string(&[0u8, 15, 16, 255]), "0f10ff");
    assert_eq!(Chain::hex_to_string(&[5u8]), "5");
    assert_eq!(Chain::hex_to_string(&[]), "");
    assert_eq!(Chain::hex_to_string(&[171u8, 205]), "abcd");
}

#[test]
fn hash_matches_sha256_with_quirky_rendering() {
    assert_eq!(
        Chain::hash("abc"),
        "ba7816bf8f1cfea414140de5dae2223b0361a396177a9cb410ff61f2015ad"
    );
    let digest = <sha2::Sha256 as sha2::Digest>::digest("abc".as_bytes());
    let mut expected = String::new();
    for b in digest.iter() {
        expected += &format!("{:x}", b);
    }
    assert_eq!(Chain::hash("abc"), expected);
}

#[test]
fn canonical_transaction_text_is_the_fixed_order_record() {
    assert_eq!(
        tx("A", "B", 10).canonical_text(),
        "{\"sender\":\"A\",\"receiver\":\"B\",\"amount\":10}"
    );
    assert_eq!(
        tx("", "", -5).canonical_text(),
        "{\"sender\":\"\",\"receiver\":\"\",\"amount\":-5}"
    );
    assert_eq!(
        tx("x", "y", i64::MIN).canonical_text(),
        format!("{{\"sender\":\"x\",\"receiver\":\"y\",\"amount\":{}}}", i64::MIN)
    );
}

#[test]
fn canonical_header_text_is_the_fixed_order_record() {
    let header = BlockHeader {
        timestamp: -3,
        nonce: 42,
        pre_hash: "aa".to_string(),
        merkle: "bb".to_string(),
        difficulty: 2,
    };
    assert_eq!(
        header.canonical_text(),
        "{\"timestamp\":-3,\"nonce\":42,\"pre_hash\":\"aa\",\"merkle\":\"bb\",\"difficulty\":2}"
    );
}

#[test]
fn last_hash_is_the_fingerprint_of_the_newest_header() {
    let mut chain = Chain::new("miner1".to_string(), 1);
    assert_eq!(chain.last_hash(), Chain::hash(&chain.chain[0].header.canonical_text()));
    assert!(chain.generate_new_block());
    assert_eq!(chain.last_hash(), Chain::hash(&chain.chain[1].header.canonical_text()));
}

#[test]
fn merkle_root_of_block_covers_its_transactions() {
    let mut chain = Chain::new("miner1".to_string(), 1);
    chain.new_transaction("A".to_string(), "B".to_string(), 10);
    assert!(chain.generate_new_block());
    let block = chain.chain.last().unwrap();
    let copies: Vec<Transaction> = block
        .transactions
        .iter()
        .map(|t| Transaction {
            sender: t.sender.clone(),
            receiver: t.receiver.clone(),
            amount: t.amount,
        })
        .collect();
    assert_eq!(block.header.merkle, Chain::get_merkle(copies));
}

#[test]
fn reward_change_affects_only_later_blocks() {
    let mut chain = Chain::new("miner1".to_string(), 1);
    assert!(chain.update_reward(7));
    assert!(chain.generate_new_block());
    assert_eq!(chain.chain[0].transactions[0].amount, 100);
    assert_eq!(chain.chain[1].transactions[0].amount, 7);
}

#[test]
fn pool_is_drained_exactly_once() {
    let mut chain = Chain::new("miner1".to_string(), 1);
    assert!(chain.new_transaction("A".to_string(), "B".to_string(), 1));
    assert_eq!(chain.curr_transaction.len(), 1);
    assert!(chain.generate_new_block());
    assert!(chain.curr_transaction.is_empty());
    assert!(chain.generate_new_block());
    let last = chain.chain.last().unwrap();
    assert_eq!(last.transactions.len(), 1);
    assert_eq!(last.transactions[0].sender, "Root");
}

#[test]
fn parse_u32_accepts_exactly_unsigned_decimal_numerals() {
    assert_eq!(blockchain::text::parse_u32(""), None);
    assert_eq!(blockchain::text::parse_u32("0"), Some(0));
    assert_eq!(blockchain::text::parse_u32("00"), Some(0));
    assert_eq!(blockchain::text::parse_u32("0012"), Some(12));
    assert_eq!(blockchain::text::parse_u32("4294967295"), Some(u32::MAX));
    assert_eq!(blockchain::text::parse_u32("4294967296"), None);
    assert_eq!(blockchain::text::parse_u32("99999999999999999999"), None);
    assert_eq!(blockchain::text::parse_u32("12a"), None);
    assert_eq!(blockchain::text::parse_u32("a12"), None);
    assert_eq!(blockchain::text::parse_u32("-1"), None);
}
