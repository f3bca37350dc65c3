use vstd::prelude::*;

verus! {

/// A single ERC721 `Transfer` occurrence observed on chain.
///
/// An event is an immutable fact, identified uniquely by
/// `(transaction_hash, log_index)`. Addresses and token ids are carried as
/// the decimal/hexadecimal strings under which the metadata store keys its
/// rows.
#[derive(Clone)]
pub struct Erc721Event {
    /// Address of the collection contract that emitted the transfer.
    pub address: String,
    /// Token id of the transferred token.
    pub token_id: String,
    /// Address the token was transferred from.
    pub from: String,
    /// Address the token was transferred to.
    pub to: String,
    /// Height of the block holding the transfer.
    pub block_number: u64,
    /// Hash of the transaction holding the transfer.
    pub transaction_hash: String,
    /// Position of the log entry within the block.
    pub log_index: u64,
}

} // verus!
