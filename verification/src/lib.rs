//! Generic block abstraction: the contracts that a block, its header and its
//! body must satisfy, together with a concrete reference implementation.
pub mod block;
pub mod body;
pub mod codec;
pub mod header;
pub mod primitives;
pub mod size;
pub mod test_utils;
pub mod transaction;

pub use crate::block::BasicBlock;
pub use crate::block::Block;
pub use crate::block::BlockTx;
pub use crate::block::BlockView;
pub use crate::block::FullBlock;
pub use crate::block::lemma_block_eq;
pub use crate::body::BlockBody;
pub use crate::body::Body;
pub use crate::body::BodyView;
pub use crate::body::FullBlockBody;
pub use crate::codec::DecodeError;
pub use crate::codec::RlpDecodable;
pub use crate::codec::RlpEncodable;
pub use crate::codec::block_rlp;
pub use crate::header::BlockHeader;
pub use crate::header::FullBlockHeader;
pub use crate::header::BasicHeader;
pub use crate::header::HeaderView;
pub use crate::primitives::Address;
pub use crate::primitives::Hash256;
pub use crate::primitives::Uint256;
pub use crate::size::InMemorySize;
pub use crate::test_utils::TestBlock;
pub use crate::test_utils::TestHeader;
pub use crate::transaction::SignedTransaction;
pub use crate::transaction::Transaction;
pub use crate::transaction::TxView;
