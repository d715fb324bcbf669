//! Scenario tests for the block abstraction: composition, equality,
//! encoding round-trips, mutation, and the full-block capability bundle.
use block_core::BasicBlock;
use block_core::BasicHeader;
use block_core::Block;
use block_core::BlockBody;
use block_core::BlockHeader;
use block_core::BlockTx;
use block_core::Body;
use block_core::DecodeError;
use block_core::FullBlock;
use block_core::Hash256;
use block_core::InMemorySize;
use block_core::TestBlock;
use block_core::Transaction;
use block_core::Uint256;

fn hash(byte: u8) -> Hash256 {
    Hash256::new(vec![byte; 32])
}

fn sample_address(byte: u8) -> block_core::Address {
    block_core::Address::new(vec![byte; 20])
}

fn sample_tx(nonce: u64) -> Transaction {
    Transaction {
        chain_id: 1,
        nonce,
        gas_price: 20_000_000_000,
        gas_limit: 21_000,
        to: Some(sample_address(0xaa)),
        value: Uint256::from_u64(1_000_000),
        input: vec![0xde, 0xad, 0xbe],
    }
}

fn sample_header(number: u64) -> BasicHeader {
    BasicHeader::new(hash(0x11), number, hash(0x22), Uint256::from_u64(131_072))
}

fn sample_block() -> BasicBlock<Transaction> {
    let body = Body {
        transactions: vec![sample_tx(0), sample_tx(1)],
        ommers: vec![sample_header(6)],
    };
    <BasicBlock<Transaction> as Block>::new(sample_header(7), body)
}

#[test]
fn new_then_split_returns_the_same_parts() {
    let header = sample_header(7);
    let body = Body {
        transactions: vec![sample_tx(0), sample_tx(1)],
        ommers: vec![sample_header(6)],
    };
    let block = <BasicBlock<Transaction> as Block>::new(header.clone(), body.clone());
    assert_eq!(block.header(), &header);
    assert_eq!(block.body(), &body);
    let (h, b) = block.split();
    assert_eq!(h, header);
    assert_eq!(b, body);
}

#[test]
fn body_keeps_transaction_order() {
    let block = sample_block();
    let txs = Block::body(&block).transactions();
    assert_eq!(txs.len(), 2);
    assert_eq!(txs[0].nonce, 0);
    assert_eq!(txs[1].nonce, 1);
    assert_eq!(Block::body(&block).ommers().len(), 1);
    assert_eq!(Block::body(&block).ommers()[0].number, 6);
}

#[test]
fn structural_equality_follows_header_and_body() {
    let a = sample_block();
    let b = sample_block();
    assert_eq!(a, b);

    let mut c = sample_block();
    c.set_block_number(8);
    assert_ne!(a, c);

    let mut d = sample_block();
    d.body_mut().transactions[1].nonce = 9;
    assert_ne!(a, d);

    let mut e = sample_block();
    e.body_mut().transactions.reverse();
    assert_ne!(a, e);
}

#[test]
fn encode_decode_round_trips() {
    let block = sample_block();
    let bytes = block.encode();
    let decoded = BasicBlock::<Transaction>::decode(&bytes).expect("canonical bytes decode");
    assert_eq!(decoded, block);
}

#[test]
fn create_transaction_and_wide_scalars_round_trip() {
    let tx = Transaction {
        chain_id: 0,
        nonce: u64::MAX,
        gas_price: u128::MAX,
        gas_limit: 30_000_000,
        to: None,
        value: Uint256 { limb0: 1, limb1: 2, limb2: 3, limb3: 4 },
        input: vec![],
    };
    let mut header = BasicHeader::default();
    header.difficulty = Uint256 { limb0: 5, limb1: 6, limb2: 7, limb3: 8 };
    let body = Body { transactions: vec![tx], ommers: vec![] };
    let block = <BasicBlock<Transaction> as Block>::new(header, body);
    let bytes = block.encode();
    let decoded = BasicBlock::<Transaction>::decode(&bytes).expect("decodes");
    assert_eq!(decoded, block);
    assert_eq!(decoded.header().difficulty(), Uint256 { limb0: 5, limb1: 6, limb2: 7, limb3: 8 });
}

#[test]
fn encodings_of_different_blocks_differ() {
    let a = sample_block();
    let mut b = sample_block();
    b.set_block_number(42);
    assert_ne!(a.encode(), b.encode());
}

#[test]
fn default_block_round_trips_and_splits_to_defaults() {
    let block = BasicBlock::<Transaction>::default();
    let bytes = block.encode();
    let decoded = BasicBlock::<Transaction>::decode(&bytes).expect("default block decodes");
    assert_eq!(decoded, BasicBlock::<Transaction>::default());

    let (header, body) = block.split();
    assert_eq!(header, BasicHeader::default());
    assert!(body.transactions.is_empty());
    assert!(body.ommers.is_empty());
}

#[test]
fn set_block_number_scenario() {
    let mut block = BasicBlock::<Transaction>::default();
    block.set_block_number(42);
    assert_eq!(Block::header(&block).number(), 42);
    assert!(Block::body(&block).transactions().is_empty());
    assert!(Block::body(&block).ommers().is_empty());
}

#[test]
fn set_state_root_survives_encoding() {
    let mut block = BasicBlock::<Transaction>::default();
    let root = Hash256::new((0u8..32).collect());
    block.set_state_root(root.clone());
    let bytes = block.encode();
    let decoded = BasicBlock::<Transaction>::decode(&bytes).expect("decodes");
    assert_eq!(decoded.header().state_root(), &root);
}

#[test]
fn remaining_setters_update_their_fields() {
    let mut block = sample_block();
    block.set_parent_hash(hash(0x33));
    assert_eq!(block.header().parent_hash(), &hash(0x33));
    block.set_difficulty(Uint256::from_u64(9));
    assert_eq!(block.header().difficulty(), Uint256::from_u64(9));
    block.set_header(sample_header(100));
    assert_eq!(block.header().number(), 100);

    let h = block.header_mut();
    h.number = 101;
    assert_eq!(Block::header(&block).number(), 101);
}

#[test]
fn decode_rejects_malformed_bytes() {
    let err = BasicBlock::<Transaction>::decode(&[0x01, 0x02]).unwrap_err();
    assert_eq!(err, DecodeError::Rlp);
}

fn assert_full_block<B: FullBlock>() {}

#[test]
fn reference_block_is_a_full_block() {
    assert_full_block::<BasicBlock<Transaction>>();
    let tx: BlockTx<BasicBlock<Transaction>> = sample_tx(3);
    assert_eq!(tx.nonce, 3);
}

#[test]
fn in_memory_size_counts_content_bytes() {
    assert_eq!(BasicHeader::default().size(), 104);
    assert_eq!(BasicBlock::<Transaction>::default().size(), 104);
    // one transaction: 72 fixed + 20 recipient + 3 input = 95
    assert_eq!(sample_tx(0).size(), 95);
    // two transactions and one ommer header
    assert_eq!(sample_block().size(), 104 + 95 + 95 + 104);
}
