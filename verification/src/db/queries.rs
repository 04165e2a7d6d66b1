//! The text of the queries that the read side and the tracker send to the
//! store.

use crate::utils::format::{decimal, format_u64, hex_of, lemma_hex_is_lowercase};
use vstd::prelude::*;
use vstd::string::StringExecFns;
use vstd::string::StrSliceExecFns;

verus! {

/// The query for the numbers of the indexed blocks of a chain: those of
/// its block rows that are not uncles.
pub fn get_indexed_blocks_query(chain: u32) -> (query: String)
    ensures
        query@ == "SELECT number FROM blocks WHERE chain = "@ + decimal(chain as nat)
            + " AND is_uncle = false"@,
{
    let id = format_u64(chain as u64);
    String::from_str("SELECT number FROM blocks WHERE chain = ").concat(id.as_str()).concat(
        " AND is_uncle = false",
    )
}

/// The query for a page of the blocks of a chain, newest first.
pub fn get_blocks_query(chain: u32, skip_count: u32, limit: u32) -> (query: String)
    ensures
        query@ == "SELECT * FROM blocks WHERE chain = "@ + decimal(chain as nat)
            + " AND is_uncle = false ORDER BY number DESC LIMIT "@ + decimal(limit as nat)
            + " OFFSET "@ + decimal(skip_count as nat),
{
    let id = format_u64(chain as u64);
    let take = format_u64(limit as u64);
    let skip = format_u64(skip_count as u64);
    String::from_str("SELECT * FROM blocks WHERE chain = ").concat(id.as_str()).concat(
        " AND is_uncle = false ORDER BY number DESC LIMIT ",
    ).concat(take.as_str()).concat(" OFFSET ").concat(skip.as_str())
}

/// The query for one block of a chain.
pub fn get_block_by_id_query(chain: u32, number: u64) -> (query: String)
    ensures
        query@ == "SELECT * FROM blocks WHERE chain = "@ + decimal(chain as nat)
            + " AND is_uncle = false AND number = "@ + decimal(number as nat),
{
    let id = format_u64(chain as u64);
    let block = format_u64(number);
    String::from_str("SELECT * FROM blocks WHERE chain = ").concat(id.as_str()).concat(
        " AND is_uncle = false AND number = ",
    ).concat(block.as_str())
}

/// The query for a page of the transactions of a chain, newest first.
pub fn get_transactions_query(chain: u32, skip_count: u32, limit: u32) -> (query: String)
    ensures
        query@ == "SELECT * FROM transactions WHERE chain = "@ + decimal(chain as nat)
            + " ORDER BY timestamp DESC LIMIT "@ + decimal(limit as nat) + " OFFSET "@ + decimal(
            skip_count as nat,
        ),
{
    let id = format_u64(chain as u64);
    let take = format_u64(limit as u64);
    let skip = format_u64(skip_count as u64);
    String::from_str("SELECT * FROM transactions WHERE chain = ").concat(id.as_str()).concat(
        " ORDER BY timestamp DESC LIMIT ",
    ).concat(take.as_str()).concat(" OFFSET ").concat(skip.as_str())
}

/// Whether a character may stand in a transaction hash: a letter or a
/// digit of ASCII, or an underscore.
pub open spec fn is_hash_char(c: char) -> bool {
    ('0' <= c && c <= '9') || ('a' <= c && c <= 'z') || ('A' <= c && c <= 'Z') || c == '_'
}

/// Whether a text can be the hash of a stored transaction: it is made of
/// hash characters alone. No other text is put into a query.
pub open spec fn is_hash_text(text: Seq<char>) -> bool {
    forall|i: int| 0 <= i < text.len() ==> is_hash_char(#[trigger] text[i])
}

/// Whether a text can be the hash of a stored transaction.
pub fn is_hash(text: &str) -> (plain: bool)
    ensures
        plain == is_hash_text(text@),
{
    let len = text.unicode_len();
    let mut i: usize = 0;
    while i < len
        invariant
            i <= len,
            len == text@.len(),
            forall|k: int| 0 <= k < i ==> is_hash_char(#[trigger] text@[k]),
        decreases len - i,
    {
        let c = text.get_char(i);
        let plain = ('0' <= c && c <= '9') || ('a' <= c && c <= 'z') || ('A' <= c && c <= 'Z') || c
            == '_';
        if !plain {
            return false;
        }
        i += 1;
    }
    true
}

/// The query for one transaction of a chain, where `hash` can be the
/// hash of one. A text that cannot be a hash names no transaction, and no
/// query is made of it.
pub fn get_transaction_by_id_query(chain: u32, hash: &str) -> (query: Option<String>)
    ensures
        query is Some <==> is_hash_text(hash@),
        query matches Some(q) ==> q@ == "SELECT * FROM transactions WHERE chain = "@ + decimal(
            chain as nat,
        ) + " AND hash = '"@ + hash@ + "'"@,
{
    if !is_hash(hash) {
        return None;
    }
    let id = format_u64(chain as u64);
    Some(
        String::from_str("SELECT * FROM transactions WHERE chain = ").concat(id.as_str()).concat(
            " AND hash = '",
        ).concat(hash).concat("'"),
    )
}

/// The query for the first and the last of the 50 newest blocks of a
/// chain.
pub fn get_info_for_average_block_query(chain: u32) -> (query: String)
    ensures
        query@
            == "SELECT Min(timestamp) as start_time, Max(timestamp) as end_time, Min(number) as start_number, Max(number) as end_number FROM blocks WHERE number IN (SELECT number FROM blocks WHERE chain = "@
            + decimal(chain as nat) + " ORDER BY number DESC LIMIT 50)"@,
{
    let id = format_u64(chain as u64);
    String::from_str(
        "SELECT Min(timestamp) as start_time, Max(timestamp) as end_time, Min(number) as start_number, Max(number) as end_number FROM blocks WHERE number IN (SELECT number FROM blocks WHERE chain = ",
    ).concat(id.as_str()).concat(" ORDER BY number DESC LIMIT 50)")
}

/// The query for the transaction counts of the last 30 days of a chain.
pub fn get_chart_transaction_data_query(chain: u32) -> (query: String)
    ensures
        query@
            == "SELECT toString(DATE(timestamp)) as tx_date, toUInt32(COUNT(DATE(timestamp))) as tx_count FROM transactions WHERE chain = "@
            + decimal(chain as nat)
            + " GROUP BY DATE(timestamp) ORDER BY DATE(timestamp) DESC LIMIT 30"@,
{
    let id = format_u64(chain as u64);
    String::from_str(
        "SELECT toString(DATE(timestamp)) as tx_date, toUInt32(COUNT(DATE(timestamp))) as tx_count FROM transactions WHERE chain = ",
    ).concat(id.as_str()).concat(" GROUP BY DATE(timestamp) ORDER BY DATE(timestamp) DESC LIMIT 30")
}

/// Every hash that the indexer stores can be asked for: the hex text of
/// a transaction hash is a hash text, and so is the hash of a genesis
/// transaction, `GENESIS_` before the hex text of the recipient.
pub proof fn lemma_stored_hashes_can_be_queried(bytes: Seq<u8>)
    ensures
        is_hash_text(hex_of(bytes)),
        is_hash_text("GENESIS_"@ + hex_of(bytes)),
{
    lemma_hex_is_lowercase(bytes);
    reveal_strlit("GENESIS_");
    let hex = hex_of(bytes);
    assert forall|i: int| 0 <= i < hex.len() implies is_hash_char(#[trigger] hex[i]) by {
        assert(crate::utils::format::is_lower_hex(hex[i]));
    }
    let text = "GENESIS_"@ + hex;
    assert forall|i: int| 0 <= i < text.len() implies is_hash_char(#[trigger] text[i]) by {
        if i >= 8 {
            assert(text[i] == hex[i - 8]);
            assert(crate::utils::format::is_lower_hex(hex[i - 8]));
        }
    }
}

} // verus!
