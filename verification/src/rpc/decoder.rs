//! The decoder: reads token transfers and DEX trades out of event logs.
//!
//! A log is told by its first topic, the hash of the event's signature,
//! and by the number of its topics. Its words are read as the contract
//! ABI lays them out: indexed arguments in the topics, the others in the
//! data, 32 bytes each, arrays behind an offset and a length. A log that
//! does not fit the event it claims to be is passed over.

use crate::db::models::dex_trade::{DatabaseDexTrade, DexTradeAmounts};
use crate::db::models::erc1155_transfer::DatabaseERC1155Transfer;
use crate::db::models::erc20_transfer::DatabaseERC20Transfer;
use crate::db::models::erc721_transfer::DatabaseERC721Transfer;
use crate::rpc::assembler::same_bytes;
use crate::rpc::Log;
use crate::utils::format::{format_address, format_hash, hex_of, lemma_hex_is_injective};
use crate::utils::u256::{be_value, lemma_be_value_bound, pow256, pow2_256, I256, U256};
use vstd::prelude::*;

verus! {

/// The Keccak-256 hash of `Transfer(address,address,uint256)`.
pub open spec fn transfer_topic() -> Seq<u8> {
    seq![
        0xddu8, 0xf2u8, 0x52u8, 0xadu8, 0x1bu8, 0xe2u8, 0xc8u8, 0x9bu8,
        0x69u8, 0xc2u8, 0xb0u8, 0x68u8, 0xfcu8, 0x37u8, 0x8du8, 0xaau8,
        0x95u8, 0x2bu8, 0xa7u8, 0xf1u8, 0x63u8, 0xc4u8, 0xa1u8, 0x16u8,
        0x28u8, 0xf5u8, 0x5au8, 0x4du8, 0xf5u8, 0x23u8, 0xb3u8, 0xefu8,
    ]
}

/// The first topic of a `Transfer` log of that signature.
pub fn transfer_signature() -> (topic: [u8; 32])
    ensures
        topic@ == transfer_topic(),
{
    let topic: [u8; 32] = [
        0xdd, 0xf2, 0x52, 0xad, 0x1b, 0xe2, 0xc8, 0x9b,
        0x69, 0xc2, 0xb0, 0x68, 0xfc, 0x37, 0x8d, 0xaa,
        0x95, 0x2b, 0xa7, 0xf1, 0x63, 0xc4, 0xa1, 0x16,
        0x28, 0xf5, 0x5a, 0x4d, 0xf5, 0x23, 0xb3, 0xef,
    ];
    assert(topic@ =~= transfer_topic());
    topic
}

/// The Keccak-256 hash of `TransferSingle(address,address,address,uint256,uint256)`.
pub open spec fn transfer_single_topic() -> Seq<u8> {
    seq![
        0xc3u8, 0xd5u8, 0x81u8, 0x68u8, 0xc5u8, 0xaeu8, 0x73u8, 0x97u8,
        0x73u8, 0x1du8, 0x06u8, 0x3du8, 0x5bu8, 0xbfu8, 0x3du8, 0x65u8,
        0x78u8, 0x54u8, 0x42u8, 0x73u8, 0x43u8, 0xf4u8, 0xc0u8, 0x83u8,
        0x24u8, 0x0fu8, 0x7au8, 0xacu8, 0xaau8, 0x2du8, 0x0fu8, 0x62u8,
    ]
}

/// The first topic of a `TransferSingle` log of that signature.
pub fn transfer_single_signature() -> (topic: [u8; 32])
    ensures
        topic@ == transfer_single_topic(),
{
    let topic: [u8; 32] = [
        0xc3, 0xd5, 0x81, 0x68, 0xc5, 0xae, 0x73, 0x97,
        0x73, 0x1d, 0x06, 0x3d, 0x5b, 0xbf, 0x3d, 0x65,
        0x78, 0x54, 0x42, 0x73, 0x43, 0xf4, 0xc0, 0x83,
        0x24, 0x0f, 0x7a, 0xac, 0xaa, 0x2d, 0x0f, 0x62,
    ];
    assert(topic@ =~= transfer_single_topic());
    topic
}

/// The Keccak-256 hash of `TransferBatch(address,address,address,uint256[],uint256[])`.
pub open spec fn transfer_batch_topic() -> Seq<u8> {
    seq![
        0x4au8, 0x39u8, 0xdcu8, 0x06u8, 0xd4u8, 0xc0u8, 0xdbu8, 0xc6u8,
        0x4bu8, 0x70u8, 0xafu8, 0x90u8, 0xfdu8, 0x69u8, 0x8au8, 0x23u8,
        0x3au8, 0x51u8, 0x8au8, 0xa5u8, 0xd0u8, 0x7eu8, 0x59u8, 0x5du8,
        0x98u8, 0x3bu8, 0x8cu8, 0x05u8, 0x26u8, 0xc8u8, 0xf7u8, 0xfbu8,
    ]
}

/// The first topic of a `TransferBatch` log of that signature.
pub fn transfer_batch_signature() -> (topic: [u8; 32])
    ensures
        topic@ == transfer_batch_topic(),
{
    let topic: [u8; 32] = [
        0x4a, 0x39, 0xdc, 0x06, 0xd4, 0xc0, 0xdb, 0xc6,
        0x4b, 0x70, 0xaf, 0x90, 0xfd, 0x69, 0x8a, 0x23,
        0x3a, 0x51, 0x8a, 0xa5, 0xd0, 0x7e, 0x59, 0x5d,
        0x98, 0x3b, 0x8c, 0x05, 0x26, 0xc8, 0xf7, 0xfb,
    ];
    assert(topic@ =~= transfer_batch_topic());
    topic
}

/// The Keccak-256 hash of `Swap(address,uint256,uint256,uint256,uint256,address)`.
pub open spec fn swap_v2_topic() -> Seq<u8> {
    seq![
        0xd7u8, 0x8au8, 0xd9u8, 0x5fu8, 0xa4u8, 0x6cu8, 0x99u8, 0x4bu8,
        0x65u8, 0x51u8, 0xd0u8, 0xdau8, 0x85u8, 0xfcu8, 0x27u8, 0x5fu8,
        0xe6u8, 0x13u8, 0xceu8, 0x37u8, 0x65u8, 0x7fu8, 0xb8u8, 0xd5u8,
        0xe3u8, 0xd1u8, 0x30u8, 0x84u8, 0x01u8, 0x59u8, 0xd8u8, 0x22u8,
    ]
}

/// The first topic of a `Swap` log of that signature.
pub fn swap_v2_signature() -> (topic: [u8; 32])
    ensures
        topic@ == swap_v2_topic(),
{
    let topic: [u8; 32] = [
        0xd7, 0x8a, 0xd9, 0x5f, 0xa4, 0x6c, 0x99, 0x4b,
        0x65, 0x51, 0xd0, 0xda, 0x85, 0xfc, 0x27, 0x5f,
        0xe6, 0x13, 0xce, 0x37, 0x65, 0x7f, 0xb8, 0xd5,
        0xe3, 0xd1, 0x30, 0x84, 0x01, 0x59, 0xd8, 0x22,
    ];
    assert(topic@ =~= swap_v2_topic());
    topic
}

/// The Keccak-256 hash of `Swap(address,address,int256,int256,uint160,uint128,int24)`.
pub open spec fn swap_v3_topic() -> Seq<u8> {
    seq![
        0xc4u8, 0x20u8, 0x79u8, 0xf9u8, 0x4au8, 0x63u8, 0x50u8, 0xd7u8,
        0xe6u8, 0x23u8, 0x5fu8, 0x29u8, 0x17u8, 0x49u8, 0x24u8, 0xf9u8,
        0x28u8, 0xccu8, 0x2au8, 0xc8u8, 0x18u8, 0xebu8, 0x64u8, 0xfeu8,
        0xd8u8, 0x00u8, 0x4eu8, 0x11u8, 0x5fu8, 0xbcu8, 0xcau8, 0x67u8,
    ]
}

/// The first topic of a `Swap` log of that signature.
pub fn swap_v3_signature() -> (topic: [u8; 32])
    ensures
        topic@ == swap_v3_topic(),
{
    let topic: [u8; 32] = [
        0xc4, 0x20, 0x79, 0xf9, 0x4a, 0x63, 0x50, 0xd7,
        0xe6, 0x23, 0x5f, 0x29, 0x17, 0x49, 0x24, 0xf9,
        0x28, 0xcc, 0x2a, 0xc8, 0x18, 0xeb, 0x64, 0xfe,
        0xd8, 0x00, 0x4e, 0x11, 0x5f, 0xbc, 0xca, 0x67,
    ];
    assert(topic@ =~= swap_v3_topic());
    topic
}

/// What a log says, once it is read as the event that it is.
#[derive(Clone, Debug)]
pub enum Event {
    /// None of the known events, or one that does not fit its layout.
    Unknown,
    /// `Transfer` with two indexed arguments: fungible tokens moved.
    Erc20Transfer { from: [u8; 20], to: [u8; 20], value: U256 },
    /// `Transfer` with three indexed arguments: one token moved.
    Erc721Transfer { from: [u8; 20], to: [u8; 20], id: U256 },
    /// `TransferSingle` or `TransferBatch`: for each place, `values[i]`
    /// tokens of the id `ids[i]` moved.
    Erc1155Transfer {
        operator: [u8; 20],
        from: [u8; 20],
        to: [u8; 20],
        ids: Vec<U256>,
        values: Vec<U256>,
    },
    /// `Swap` of a constant-product pool.
    SwapV2 {
        sender: [u8; 20],
        recipient: [u8; 20],
        amount0_in: U256,
        amount1_in: U256,
        amount0_out: U256,
        amount1_out: U256,
    },
    /// `Swap` of a concentrated-liquidity pool, with signed amounts.
    SwapV3 {
        sender: [u8; 20],
        recipient: [u8; 20],
        amount0: I256,
        amount1: I256,
        sqrt_price_x96: U256,
        liquidity: U256,
        tick: I256,
    },
}

/// An `Event` as contracts see it.
pub enum EventView {
    Unknown,
    Erc20Transfer { from: Seq<u8>, to: Seq<u8>, value: U256 },
    Erc721Transfer { from: Seq<u8>, to: Seq<u8>, id: U256 },
    Erc1155Transfer {
        operator: Seq<u8>,
        from: Seq<u8>,
        to: Seq<u8>,
        ids: Seq<U256>,
        values: Seq<U256>,
    },
    SwapV2 {
        sender: Seq<u8>,
        recipient: Seq<u8>,
        amount0_in: U256,
        amount1_in: U256,
        amount0_out: U256,
        amount1_out: U256,
    },
    SwapV3 {
        sender: Seq<u8>,
        recipient: Seq<u8>,
        amount0: I256,
        amount1: I256,
        sqrt_price_x96: U256,
        liquidity: U256,
        tick: I256,
    },
}

impl View for Event {
    type V = EventView;

    open spec fn view(&self) -> EventView {
        match self {
            Event::Unknown => EventView::Unknown,
            Event::Erc20Transfer { from, to, value } => EventView::Erc20Transfer {
                from: from@,
                to: to@,
                value: *value,
            },
            Event::Erc721Transfer { from, to, id } => EventView::Erc721Transfer {
                from: from@,
                to: to@,
                id: *id,
            },
            Event::Erc1155Transfer { operator, from, to, ids, values } => {
                EventView::Erc1155Transfer {
                    operator: operator@,
                    from: from@,
                    to: to@,
                    ids: ids@,
                    values: values@,
                }
            },
            Event::SwapV2 {
                sender,
                recipient,
                amount0_in,
                amount1_in,
                amount0_out,
                amount1_out,
            } => EventView::SwapV2 {
                sender: sender@,
                recipient: recipient@,
                amount0_in: *amount0_in,
                amount1_in: *amount1_in,
                amount0_out: *amount0_out,
                amount1_out: *amount1_out,
            },
            Event::SwapV3 {
                sender,
                recipient,
                amount0,
                amount1,
                sqrt_price_x96,
                liquidity,
                tick,
            } => EventView::SwapV3 {
                sender: sender@,
                recipient: recipient@,
                amount0: *amount0,
                amount1: *amount1,
                sqrt_price_x96: *sqrt_price_x96,
                liquidity: *liquidity,
                tick: *tick,
            },
        }
    }
}

/// The address that a topic carries: its last twenty bytes.
pub open spec fn topic_address(topic: [u8; 32]) -> Seq<u8> {
    topic@.subrange(12, 32)
}

/// The number that the 32 bytes of `data` from `at` on stand for.
pub open spec fn word_number(data: Seq<u8>, at: int) -> nat {
    be_value(data.subrange(at, at + 32))
}

/// The word of `data` at `at`, as an unsigned integer.
pub open spec fn word_at(data: Seq<u8>, at: int) -> U256 {
    U256::of(word_number(data, at))
}

/// The word of `data` at `at`, as a signed integer.
pub open spec fn signed_word_at(data: Seq<u8>, at: int) -> I256 {
    I256 { raw: word_at(data, at) }
}

/// The array of words whose offset stands at `head`: at the offset its
/// length, then its words. None where the offset or the length leads
/// beyond the data.
pub open spec fn array_at(data: Seq<u8>, head: int) -> Option<Seq<U256>> {
    let offset = word_number(data, head);
    if offset + 32 <= data.len() {
        let count = word_number(data, offset as int);
        if offset + 32 + 32 * count <= data.len() {
            Some(Seq::new(count, |i: int| word_at(data, offset + 32 + 32 * i)))
        } else {
            None
        }
    } else {
        None
    }
}

/// What a log with the topics `topics` and the data `data` says.
///
/// * `Transfer` with three topics and at least one word of data is an
///   ERC-20 transfer of the amount in that word.
/// * `Transfer` with four topics is an ERC-721 transfer of the token in
///   the fourth topic.
/// * `TransferSingle` with four topics and two words of data is an
///   ERC-1155 transfer of one pair of id and value.
/// * `TransferBatch` with four topics and two arrays of one length is an
///   ERC-1155 transfer of as many pairs.
/// * `Swap` with three topics and four words of data is a trade on a
///   constant-product pool; with the other signature and five words, a
///   trade on a concentrated-liquidity pool.
///
/// Everything else is unknown.
pub open spec fn decode(topics: Seq<[u8; 32]>, data: Seq<u8>) -> EventView {
    if topics.len() == 0 {
        EventView::Unknown
    } else if topics[0]@ == transfer_topic() {
        if topics.len() == 3 && data.len() >= 32 {
            EventView::Erc20Transfer {
                from: topic_address(topics[1]),
                to: topic_address(topics[2]),
                value: word_at(data, 0),
            }
        } else if topics.len() == 4 {
            EventView::Erc721Transfer {
                from: topic_address(topics[1]),
                to: topic_address(topics[2]),
                id: U256::of(be_value(topics[3]@)),
            }
        } else {
            EventView::Unknown
        }
    } else if topics[0]@ == transfer_single_topic() {
        if topics.len() == 4 && data.len() >= 64 {
            EventView::Erc1155Transfer {
                operator: topic_address(topics[1]),
                from: topic_address(topics[2]),
                to: topic_address(topics[3]),
                ids: seq![word_at(data, 0)],
                values: seq![word_at(data, 32)],
            }
        } else {
            EventView::Unknown
        }
    } else if topics[0]@ == transfer_batch_topic() {
        if topics.len() == 4 && data.len() >= 64 && array_at(data, 0) is Some && array_at(
            data,
            32,
        ) is Some && array_at(data, 0)->0.len() == array_at(data, 32)->0.len() {
            EventView::Erc1155Transfer {
                operator: topic_address(topics[1]),
                from: topic_address(topics[2]),
                to: topic_address(topics[3]),
                ids: array_at(data, 0)->0,
                values: array_at(data, 32)->0,
            }
        } else {
            EventView::Unknown
        }
    } else if topics[0]@ == swap_v2_topic() {
        if topics.len() == 3 && data.len() >= 128 {
            EventView::SwapV2 {
                sender: topic_address(topics[1]),
                recipient: topic_address(topics[2]),
                amount0_in: word_at(data, 0),
                amount1_in: word_at(data, 32),
                amount0_out: word_at(data, 64),
                amount1_out: word_at(data, 96),
            }
        } else {
            EventView::Unknown
        }
    } else if topics[0]@ == swap_v3_topic() {
        if topics.len() == 3 && data.len() >= 160 {
            EventView::SwapV3 {
                sender: topic_address(topics[1]),
                recipient: topic_address(topics[2]),
                amount0: signed_word_at(data, 0),
                amount1: signed_word_at(data, 32),
                sqrt_price_x96: word_at(data, 64),
                liquidity: word_at(data, 96),
                tick: signed_word_at(data, 128),
            }
        } else {
            EventView::Unknown
        }
    } else {
        EventView::Unknown
    }
}

/// The address that a topic carries.
pub fn address_of_topic(topic: &[u8; 32]) -> (address: [u8; 20])
    ensures
        address@ == topic_address(*topic),
{
    let mut address: [u8; 20] = [0u8; 20];
    let mut i: usize = 0;
    while i < 20
        invariant
            i <= 20,
            forall|k: int| 0 <= k < i ==> address@[k] == topic@[12 + k],
        decreases 20 - i,
    {
        address[i] = topic[12 + i];
        i += 1;
    }
    assert(address@ =~= topic_address(*topic));
    address
}

/// The word of `data` at `at`.
pub fn read_word(data: &Vec<u8>, at: usize) -> (word: U256)
    requires
        at + 32 <= data@.len(),
    ensures
        word == word_at(data@, at as int),
        word@ == word_number(data@, at as int),
{
    U256::from_be_bytes(data.as_slice(), at)
}

/// The number of a word as a machine integer, where it is at most
/// `limit`.
pub fn small_number(word: &U256, limit: usize) -> (number: Option<usize>)
    ensures
        number is Some <==> word@ <= limit,
        number matches Some(n) ==> n == word@,
{
    if word.w3 == 0 && word.w2 == 0 && word.w1 == 0 && word.w0 <= limit as u64 {
        Some(word.w0 as usize)
    } else {
        None
    }
}

/// Reads the array whose offset stands at `head`.
pub fn read_array(data: &Vec<u8>, head: usize) -> (words: Option<Vec<U256>>)
    requires
        head + 32 <= data@.len(),
    ensures
        match words {
            Some(w) => array_at(data@, head as int) == Some(w@),
            None => array_at(data@, head as int) is None,
        },
{
    let len = data.len();
    let offset = match small_number(&read_word(data, head), len - 32) {
        Some(offset) => offset,
        None => {
            return None;
        },
    };
    let room = (len - offset - 32) / 32;
    let count = match small_number(&read_word(data, offset), room) {
        Some(count) => count,
        None => {
            return None;
        },
    };
    let mut words: Vec<U256> = Vec::new();
    let mut i: usize = 0;
    while i < count
        invariant
            i <= count,
            len == data@.len(),
            offset + 32 + 32 * count <= data@.len(),
            words@.len() == i,
            forall|k: int| 0 <= k < i ==> words@[k] == word_at(data@, offset + 32 + 32 * k),
        decreases count - i,
    {
        words.push(read_word(data, offset + 32 + 32 * i));
        i += 1;
    }
    assert(words@ =~= array_at(data@, head as int)->0);
    Some(words)
}

/// Reads a log as the event that it is.
pub fn decode_log(topics: &Vec<[u8; 32]>, data: &Vec<u8>) -> (event: Event)
    ensures
        event@ == decode(topics@, data@),
{
    if topics.len() == 0 {
        return Event::Unknown;
    }
    let first = &topics[0];
    if same_bytes(first.as_slice(), transfer_signature().as_slice()) {
        if topics.len() == 3 && data.len() >= 32 {
            Event::Erc20Transfer {
                from: address_of_topic(&topics[1]),
                to: address_of_topic(&topics[2]),
                value: read_word(data, 0),
            }
        } else if topics.len() == 4 {
            let id = U256::from_be_bytes(topics[3].as_slice(), 0);
            assert(topics@[3]@.subrange(0, 32) == topics@[3]@);
            Event::Erc721Transfer {
                from: address_of_topic(&topics[1]),
                to: address_of_topic(&topics[2]),
                id,
            }
        } else {
            Event::Unknown
        }
    } else if same_bytes(first.as_slice(), transfer_single_signature().as_slice()) {
        if topics.len() == 4 && data.len() >= 64 {
            let mut ids: Vec<U256> = Vec::new();
            ids.push(read_word(data, 0));
            let mut values: Vec<U256> = Vec::new();
            values.push(read_word(data, 32));
            assert(ids@ =~= seq![word_at(data@, 0)]);
            assert(values@ =~= seq![word_at(data@, 32)]);
            Event::Erc1155Transfer {
                operator: address_of_topic(&topics[1]),
                from: address_of_topic(&topics[2]),
                to: address_of_topic(&topics[3]),
                ids,
                values,
            }
        } else {
            Event::Unknown
        }
    } else if same_bytes(first.as_slice(), transfer_batch_signature().as_slice()) {
        if topics.len() == 4 && data.len() >= 64 {
            match (read_array(data, 0), read_array(data, 32)) {
                (Some(ids), Some(values)) => {
                    if ids.len() == values.len() {
                        Event::Erc1155Transfer {
                            operator: address_of_topic(&topics[1]),
                            from: address_of_topic(&topics[2]),
                            to: address_of_topic(&topics[3]),
                            ids,
                            values,
                        }
                    } else {
                        Event::Unknown
                    }
                },
                _ => Event::Unknown,
            }
        } else {
            Event::Unknown
        }
    } else if same_bytes(first.as_slice(), swap_v2_signature().as_slice()) {
        if topics.len() == 3 && data.len() >= 128 {
            Event::SwapV2 {
                sender: address_of_topic(&topics[1]),
                recipient: address_of_topic(&topics[2]),
                amount0_in: read_word(data, 0),
                amount1_in: read_word(data, 32),
                amount0_out: read_word(data, 64),
                amount1_out: read_word(data, 96),
            }
        } else {
            Event::Unknown
        }
    } else if same_bytes(first.as_slice(), swap_v3_signature().as_slice()) {
        if topics.len() == 3 && data.len() >= 160 {
            Event::SwapV3 {
                sender: address_of_topic(&topics[1]),
                recipient: address_of_topic(&topics[2]),
                amount0: I256 { raw: read_word(data, 0) },
                amount1: I256 { raw: read_word(data, 32) },
                sqrt_price_x96: read_word(data, 64),
                liquidity: read_word(data, 96),
                tick: I256 { raw: read_word(data, 128) },
            }
        } else {
            Event::Unknown
        }
    } else {
        Event::Unknown
    }
}

/// What a log says.
pub open spec fn event_of(log: Log) -> EventView {
    decode(log.topics@, log.data@)
}

/// `row` is the ERC-20 transfer that `log` states. It carries the log's
/// transaction hash and index unchanged, and the emitting contract as the
/// token.
pub open spec fn is_erc20_row(
    row: DatabaseERC20Transfer,
    log: Log,
    from: Seq<u8>,
    to: Seq<u8>,
    value: U256,
) -> bool {
    &&& row.chain == log.chain
    &&& row.transaction_hash@ == hex_of(log.transaction_hash@)
    &&& row.log_index == log.log_index
    &&& row.token_address@ == hex_of(log.address@)
    &&& row.from@ == hex_of(from)
    &&& row.to@ == hex_of(to)
    &&& row.value == value
    &&& row.block_number == log.block_number
    &&& row.timestamp == log.timestamp
}

/// `row` is the ERC-721 transfer that `log` states.
pub open spec fn is_erc721_row(
    row: DatabaseERC721Transfer,
    log: Log,
    from: Seq<u8>,
    to: Seq<u8>,
    id: U256,
) -> bool {
    &&& row.chain == log.chain
    &&& row.transaction_hash@ == hex_of(log.transaction_hash@)
    &&& row.log_index == log.log_index
    &&& row.token_address@ == hex_of(log.address@)
    &&& row.from@ == hex_of(from)
    &&& row.to@ == hex_of(to)
    &&& row.id == id
    &&& row.block_number == log.block_number
    &&& row.timestamp == log.timestamp
}

/// `row` is the ERC-1155 transfer of the pair at `place` that `log`
/// states.
pub open spec fn is_erc1155_row(
    row: DatabaseERC1155Transfer,
    log: Log,
    operator: Seq<u8>,
    from: Seq<u8>,
    to: Seq<u8>,
    place: int,
    id: U256,
    value: U256,
) -> bool {
    &&& row.chain == log.chain
    &&& row.transaction_hash@ == hex_of(log.transaction_hash@)
    &&& row.log_index == log.log_index
    &&& row.batch_index == place
    &&& row.token_address@ == hex_of(log.address@)
    &&& row.operator@ == hex_of(operator)
    &&& row.from@ == hex_of(from)
    &&& row.to@ == hex_of(to)
    &&& row.id == id
    &&& row.value == value
    &&& row.block_number == log.block_number
    &&& row.timestamp == log.timestamp
}

/// `row` is the trade that `log` states, on the pool that emitted it.
pub open spec fn is_dex_trade_row(
    row: DatabaseDexTrade,
    log: Log,
    sender: Seq<u8>,
    recipient: Seq<u8>,
    amounts: DexTradeAmounts,
) -> bool {
    &&& row.chain == log.chain
    &&& row.transaction_hash@ == hex_of(log.transaction_hash@)
    &&& row.log_index == log.log_index
    &&& row.pair_address@ == hex_of(log.address@)
    &&& row.sender@ == hex_of(sender)
    &&& row.recipient@ == hex_of(recipient)
    &&& row.amounts == amounts
    &&& row.block_number == log.block_number
    &&& row.timestamp == log.timestamp
}

/// `rows` are the ERC-20 transfers that `logs` state, in the order of the
/// logs: one for each log that is such a transfer, none for the others.
pub open spec fn are_erc20_rows(rows: Seq<DatabaseERC20Transfer>, logs: Seq<Log>) -> bool
    decreases logs.len(),
{
    if logs.len() == 0 {
        rows.len() == 0
    } else {
        match event_of(logs.last()) {
            EventView::Erc20Transfer { from, to, value } => {
                &&& rows.len() > 0
                &&& is_erc20_row(rows.last(), logs.last(), from, to, value)
                &&& are_erc20_rows(rows.drop_last(), logs.drop_last())
            },
            _ => are_erc20_rows(rows, logs.drop_last()),
        }
    }
}

/// `rows` are the ERC-721 transfers that `logs` state, in the order of
/// the logs: one for each log that is such a transfer, none for the
/// others.
pub open spec fn are_erc721_rows(rows: Seq<DatabaseERC721Transfer>, logs: Seq<Log>) -> bool
    decreases logs.len(),
{
    if logs.len() == 0 {
        rows.len() == 0
    } else {
        match event_of(logs.last()) {
            EventView::Erc721Transfer { from, to, id } => {
                &&& rows.len() > 0
                &&& is_erc721_row(rows.last(), logs.last(), from, to, id)
                &&& are_erc721_rows(rows.drop_last(), logs.drop_last())
            },
            _ => are_erc721_rows(rows, logs.drop_last()),
        }
    }
}

/// `rows` are the ERC-1155 transfers that `logs` state, in the order of
/// the logs and, within a log, of its pairs: one for each pair of id and
/// value.
pub open spec fn are_erc1155_rows(rows: Seq<DatabaseERC1155Transfer>, logs: Seq<Log>) -> bool
    decreases logs.len(),
{
    if logs.len() == 0 {
        rows.len() == 0
    } else {
        match event_of(logs.last()) {
            EventView::Erc1155Transfer { operator, from, to, ids, values } => {
                let before = rows.len() - ids.len();
                &&& before >= 0
                &&& forall|k: int|
                    before <= k < rows.len() ==> is_erc1155_row(
                        #[trigger] rows[k],
                        logs.last(),
                        operator,
                        from,
                        to,
                        k - before,
                        ids[k - before],
                        values[k - before],
                    )
                &&& are_erc1155_rows(rows.take(before), logs.drop_last())
            },
            _ => are_erc1155_rows(rows, logs.drop_last()),
        }
    }
}

/// The amounts of the trade that an event states, where it states one.
pub open spec fn trade_of(event: EventView) -> Option<(Seq<u8>, Seq<u8>, DexTradeAmounts)> {
    match event {
        EventView::SwapV2 {
            sender,
            recipient,
            amount0_in,
            amount1_in,
            amount0_out,
            amount1_out,
        } => Some(
            (
                sender,
                recipient,
                DexTradeAmounts::V2 { amount0_in, amount1_in, amount0_out, amount1_out },
            ),
        ),
        EventView::SwapV3 {
            sender,
            recipient,
            amount0,
            amount1,
            sqrt_price_x96,
            liquidity,
            tick,
        } => Some(
            (
                sender,
                recipient,
                DexTradeAmounts::V3 { amount0, amount1, sqrt_price_x96, liquidity, tick },
            ),
        ),
        _ => None,
    }
}

/// `rows` are the trades that `logs` state, in the order of the logs: one
/// for each log that is a swap, none for the others.
pub open spec fn are_dex_trade_rows(rows: Seq<DatabaseDexTrade>, logs: Seq<Log>) -> bool
    decreases logs.len(),
{
    if logs.len() == 0 {
        rows.len() == 0
    } else {
        match trade_of(event_of(logs.last())) {
            Some((sender, recipient, amounts)) => {
                &&& rows.len() > 0
                &&& is_dex_trade_row(rows.last(), logs.last(), sender, recipient, amounts)
                &&& are_dex_trade_rows(rows.drop_last(), logs.drop_last())
            },
            None => are_dex_trade_rows(rows, logs.drop_last()),
        }
    }
}

/// The records that the decoder derives from logs.
#[derive(Debug)]
pub struct DecodedLogs {
    pub erc20_transfers: Vec<DatabaseERC20Transfer>,
    pub erc721_transfers: Vec<DatabaseERC721Transfer>,
    pub erc1155_transfers: Vec<DatabaseERC1155Transfer>,
    pub dex_trades: Vec<DatabaseDexTrade>,
}

impl DecodedLogs {
    /// `self` holds what `logs` state, and nothing else.
    pub open spec fn holds(&self, logs: Seq<Log>) -> bool {
        &&& are_erc20_rows(self.erc20_transfers@, logs)
        &&& are_erc721_rows(self.erc721_transfers@, logs)
        &&& are_erc1155_rows(self.erc1155_transfers@, logs)
        &&& are_dex_trade_rows(self.dex_trades@, logs)
    }

    /// No records.
    pub fn new() -> (decoded: DecodedLogs)
        ensures
            decoded.holds(Seq::empty()),
    {
        DecodedLogs {
            erc20_transfers: Vec::new(),
            erc721_transfers: Vec::new(),
            erc1155_transfers: Vec::new(),
            dex_trades: Vec::new(),
        }
    }

    /// Adds what one more log states.
    pub(crate) fn push_log(&mut self, log: &Log, Ghost(logs): Ghost<Seq<Log>>)
        requires
            old(self).holds(logs),
        ensures
            final(self).holds(logs.push(*log)),
    {
        let ghost after = logs.push(*log);
        assert(after.drop_last() == logs);
        assert(after.last() == *log);
        let event = decode_log(&log.topics, &log.data);
        let ghost old20 = self.erc20_transfers@;
        let ghost old721 = self.erc721_transfers@;
        let ghost old1155 = self.erc1155_transfers@;
        let ghost old_trades = self.dex_trades@;
        match event {
            Event::Unknown => {},
            Event::Erc20Transfer { from, to, value } => {
                self.erc20_transfers.push(
                    DatabaseERC20Transfer {
                        chain: log.chain,
                        transaction_hash: format_hash(&log.transaction_hash),
                        log_index: log.log_index,
                        token_address: format_address(&log.address),
                        from: format_address(&from),
                        to: format_address(&to),
                        value,
                        block_number: log.block_number,
                        timestamp: log.timestamp,
                    },
                );
                assert(self.erc20_transfers@.drop_last() == old20);
            },
            Event::Erc721Transfer { from, to, id } => {
                self.erc721_transfers.push(
                    DatabaseERC721Transfer {
                        chain: log.chain,
                        transaction_hash: format_hash(&log.transaction_hash),
                        log_index: log.log_index,
                        token_address: format_address(&log.address),
                        from: format_address(&from),
                        to: format_address(&to),
                        id,
                        block_number: log.block_number,
                        timestamp: log.timestamp,
                    },
                );
                assert(self.erc721_transfers@.drop_last() == old721);
            },
            Event::Erc1155Transfer { operator, from, to, ids, values } => {
                let mut i: usize = 0;
                while i < ids.len()
                    invariant
                        i <= ids@.len(),
                        ids@.len() == values@.len(),
                        event_of(*log) == (EventView::Erc1155Transfer {
                            operator: operator@,
                            from: from@,
                            to: to@,
                            ids: ids@,
                            values: values@,
                        }),
                        self.erc20_transfers@ == old20,
                        self.erc721_transfers@ == old721,
                        self.dex_trades@ == old_trades,
                        self.erc1155_transfers@.len() == old1155.len() + i,
                        self.erc1155_transfers@.take(old1155.len() as int) == old1155,
                        forall|k: int|
                            old1155.len() <= k < old1155.len() + i ==> is_erc1155_row(
                                #[trigger] self.erc1155_transfers@[k],
                                *log,
                                operator@,
                                from@,
                                to@,
                                k - old1155.len(),
                                ids@[k - old1155.len()],
                                values@[k - old1155.len()],
                            ),
                    decreases ids@.len() - i,
                {
                    let ghost before = self.erc1155_transfers@;
                    self.erc1155_transfers.push(
                        DatabaseERC1155Transfer {
                            chain: log.chain,
                            transaction_hash: format_hash(&log.transaction_hash),
                            log_index: log.log_index,
                            batch_index: i as u64,
                            token_address: format_address(&log.address),
                            operator: format_address(&operator),
                            from: format_address(&from),
                            to: format_address(&to),
                            id: ids[i],
                            value: values[i],
                            block_number: log.block_number,
                            timestamp: log.timestamp,
                        },
                    );
                    assert(self.erc1155_transfers@.take(old1155.len() as int) =~= before.take(
                        old1155.len() as int,
                    ));
                    assert forall|k: int|
                        old1155.len() <= k < old1155.len() + i implies is_erc1155_row(
                        #[trigger] self.erc1155_transfers@[k],
                        *log,
                        operator@,
                        from@,
                        to@,
                        k - old1155.len(),
                        ids@[k - old1155.len()],
                        values@[k - old1155.len()],
                    ) by {
                        assert(self.erc1155_transfers@[k] == before[k]);
                    }
                    i += 1;
                }
            },
            Event::SwapV2 {
                sender,
                recipient,
                amount0_in,
                amount1_in,
                amount0_out,
                amount1_out,
            } => {
                self.dex_trades.push(
                    DatabaseDexTrade {
                        chain: log.chain,
                        transaction_hash: format_hash(&log.transaction_hash),
                        log_index: log.log_index,
                        pair_address: format_address(&log.address),
                        sender: format_address(&sender),
                        recipient: format_address(&recipient),
                        amounts: DexTradeAmounts::V2 {
                            amount0_in,
                            amount1_in,
                            amount0_out,
                            amount1_out,
                        },
                        block_number: log.block_number,
                        timestamp: log.timestamp,
                    },
                );
                assert(self.dex_trades@.drop_last() == old_trades);
            },
            Event::SwapV3 {
                sender,
                recipient,
                amount0,
                amount1,
                sqrt_price_x96,
                liquidity,
                tick,
            } => {
                self.dex_trades.push(
                    DatabaseDexTrade {
                        chain: log.chain,
                        transaction_hash: format_hash(&log.transaction_hash),
                        log_index: log.log_index,
                        pair_address: format_address(&log.address),
                        sender: format_address(&sender),
                        recipient: format_address(&recipient),
                        amounts: DexTradeAmounts::V3 {
                            amount0,
                            amount1,
                            sqrt_price_x96,
                            liquidity,
                            tick,
                        },
                        block_number: log.block_number,
                        timestamp: log.timestamp,
                    },
                );
                assert(self.dex_trades@.drop_last() == old_trades);
            },
        }
    }
}

/// Derives the transfers and the trades that a list of logs states.
pub fn decode_logs(logs: &Vec<Log>) -> (decoded: DecodedLogs)
    ensures
        decoded.holds(logs@),
{
    let mut decoded = DecodedLogs::new();
    let mut i: usize = 0;
    while i < logs.len()
        invariant
            i <= logs@.len(),
            decoded.holds(logs@.take(i as int)),
        decreases logs@.len() - i,
    {
        decoded.push_log(&logs[i], Ghost(logs@.take(i as int)));
        assert(logs@.take(i as int).push(logs@[i as int]) == logs@.take(i + 1));
        i += 1;
    }
    assert(logs@.take(logs@.len() as int) == logs@);
    decoded
}

/// Every `Transfer` log with three indexed arguments gives exactly one
/// ERC-721 transfer, whose token is the number in the fourth topic, and
/// gives nothing else.
pub proof fn lemma_indexed_transfer_is_one_erc721(decoded: DecodedLogs, log: Log)
    requires
        log.topics@.len() == 4,
        log.topics@[0]@ == transfer_topic(),
        decoded.holds(seq![log]),
    ensures
        decoded.erc721_transfers@.len() == 1,
        is_erc721_row(
            decoded.erc721_transfers@[0],
            log,
            topic_address(log.topics@[1]),
            topic_address(log.topics@[2]),
            U256::of(be_value(log.topics@[3]@)),
        ),
        decoded.erc721_transfers@[0].id@ == be_value(log.topics@[3]@),
        decoded.erc20_transfers@.len() == 0,
        decoded.erc1155_transfers@.len() == 0,
        decoded.dex_trades@.len() == 0,
{
    let logs = seq![log];
    assert(logs.last() == log);
    assert(logs.drop_last() == Seq::<Log>::empty());
    assert(event_of(log) == (EventView::Erc721Transfer {
        from: topic_address(log.topics@[1]),
        to: topic_address(log.topics@[2]),
        id: U256::of(be_value(log.topics@[3]@)),
    }));
    let rows = decoded.erc721_transfers@;
    assert(are_erc721_rows(rows.drop_last(), Seq::<Log>::empty()));
    assert(rows.drop_last().len() == 0);
    assert(are_erc20_rows(decoded.erc20_transfers@, Seq::<Log>::empty()));
    assert(are_erc1155_rows(decoded.erc1155_transfers@, Seq::<Log>::empty()));
    assert(are_dex_trade_rows(decoded.dex_trades@, Seq::<Log>::empty()));
    lemma_be_value_bound(log.topics@[3]@);
    assert(pow256(32) == pow2_256()) by {
        reveal_with_fuel(pow256, 33);
    }
    U256::lemma_view_of(be_value(log.topics@[3]@));
}

/// The record with this transaction hash and log index was derived from
/// `log`.
pub open spec fn joins(log: Log, transaction_hash: Seq<char>, log_index: u32) -> bool {
    transaction_hash == hex_of(log.transaction_hash@) && log_index == log.log_index
}

/// One of `logs` has this transaction hash and log index.
pub open spec fn has_log(logs: Seq<Log>, transaction_hash: Seq<char>, log_index: u32) -> bool {
    exists|i: int| 0 <= i < logs.len() && joins(#[trigger] logs[i], transaction_hash, log_index)
}

/// Every ERC-20 transfer joins back to a log: it carries the transaction hash
/// and the index of one of the logs that it was derived from.
pub proof fn lemma_erc20_rows_join_their_logs(rows: Seq<DatabaseERC20Transfer>, logs: Seq<Log>)
    requires
        are_erc20_rows(rows, logs),
    ensures
        forall|k: int|
            0 <= k < rows.len() ==> has_log(
                logs,
                (#[trigger] rows[k]).transaction_hash@,
                rows[k].log_index,
            ),
    decreases logs.len(),
{
    if logs.len() > 0 {
        let last = logs.len() - 1;
        match event_of(logs.last()) {
            EventView::Erc20Transfer { from, to, value } => {
                lemma_erc20_rows_join_their_logs(rows.drop_last(), logs.drop_last());
                assert forall|k: int| 0 <= k < rows.len() implies has_log(
                    logs,
                    (#[trigger] rows[k]).transaction_hash@,
                    rows[k].log_index,
                ) by {
                    if k < rows.len() - 1 {
                        assert(rows.drop_last()[k] == rows[k]);
                        let i = choose|i: int|
                            0 <= i < logs.drop_last().len() && joins(
                                #[trigger] logs.drop_last()[i],
                                rows.drop_last()[k].transaction_hash@,
                                rows.drop_last()[k].log_index,
                            );
                        assert(joins(logs[i], rows[k].transaction_hash@, rows[k].log_index));
                    } else {
                        assert(joins(logs[last], rows[k].transaction_hash@, rows[k].log_index));
                    }
                }
            },
            _ => {
                lemma_erc20_rows_join_their_logs(rows, logs.drop_last());
                assert forall|k: int| 0 <= k < rows.len() implies has_log(
                    logs,
                    (#[trigger] rows[k]).transaction_hash@,
                    rows[k].log_index,
                ) by {
                    let i = choose|i: int|
                        0 <= i < logs.drop_last().len() && joins(
                            #[trigger] logs.drop_last()[i],
                            rows[k].transaction_hash@,
                            rows[k].log_index,
                        );
                    assert(joins(logs[i], rows[k].transaction_hash@, rows[k].log_index));
                }
            },
        }
    }
}

/// Every ERC-721 transfer joins back to a log: it carries the transaction hash
/// and the index of one of the logs that it was derived from.
pub proof fn lemma_erc721_rows_join_their_logs(rows: Seq<DatabaseERC721Transfer>, logs: Seq<Log>)
    requires
        are_erc721_rows(rows, logs),
    ensures
        forall|k: int|
            0 <= k < rows.len() ==> has_log(
                logs,
                (#[trigger] rows[k]).transaction_hash@,
                rows[k].log_index,
            ),
    decreases logs.len(),
{
    if logs.len() > 0 {
        let last = logs.len() - 1;
        match event_of(logs.last()) {
            EventView::Erc721Transfer { from, to, id } => {
                lemma_erc721_rows_join_their_logs(rows.drop_last(), logs.drop_last());
                assert forall|k: int| 0 <= k < rows.len() implies has_log(
                    logs,
                    (#[trigger] rows[k]).transaction_hash@,
                    rows[k].log_index,
                ) by {
                    if k < rows.len() - 1 {
                        assert(rows.drop_last()[k] == rows[k]);
                        let i = choose|i: int|
                            0 <= i < logs.drop_last().len() && joins(
                                #[trigger] logs.drop_last()[i],
                                rows.drop_last()[k].transaction_hash@,
                                rows.drop_last()[k].log_index,
                            );
                        assert(joins(logs[i], rows[k].transaction_hash@, rows[k].log_index));
                    } else {
                        assert(joins(logs[last], rows[k].transaction_hash@, rows[k].log_index));
                    }
                }
            },
            _ => {
                lemma_erc721_rows_join_their_logs(rows, logs.drop_last());
                assert forall|k: int| 0 <= k < rows.len() implies has_log(
                    logs,
                    (#[trigger] rows[k]).transaction_hash@,
                    rows[k].log_index,
                ) by {
                    let i = choose|i: int|
                        0 <= i < logs.drop_last().len() && joins(
                            #[trigger] logs.drop_last()[i],
                            rows[k].transaction_hash@,
                            rows[k].log_index,
                        );
                    assert(joins(logs[i], rows[k].transaction_hash@, rows[k].log_index));
                }
            },
        }
    }
}

/// Every ERC-1155 transfer joins back to a log: it carries the transaction hash
/// and the index of one of the logs that it was derived from.
pub proof fn lemma_erc1155_rows_join_their_logs(rows: Seq<DatabaseERC1155Transfer>, logs: Seq<Log>)
    requires
        are_erc1155_rows(rows, logs),
    ensures
        forall|k: int|
            0 <= k < rows.len() ==> has_log(
                logs,
                (#[trigger] rows[k]).transaction_hash@,
                rows[k].log_index,
            ),
    decreases logs.len(),
{
    if logs.len() > 0 {
        let last = logs.len() - 1;
        match event_of(logs.last()) {
            EventView::Erc1155Transfer { operator, from, to, ids, values } => {
                let before = rows.len() - ids.len();
                lemma_erc1155_rows_join_their_logs(rows.take(before), logs.drop_last());
                assert forall|k: int| 0 <= k < rows.len() implies has_log(
                    logs,
                    (#[trigger] rows[k]).transaction_hash@,
                    rows[k].log_index,
                ) by {
                    if k < before {
                        assert(rows.take(before)[k] == rows[k]);
                        let i = choose|i: int|
                            0 <= i < logs.drop_last().len() && joins(
                                #[trigger] logs.drop_last()[i],
                                rows.take(before)[k].transaction_hash@,
                                rows.take(before)[k].log_index,
                            );
                        assert(joins(logs[i], rows[k].transaction_hash@, rows[k].log_index));
                    } else {
                        assert(joins(logs[last], rows[k].transaction_hash@, rows[k].log_index));
                    }
                }
            },
            _ => {
                lemma_erc1155_rows_join_their_logs(rows, logs.drop_last());
                assert forall|k: int| 0 <= k < rows.len() implies has_log(
                    logs,
                    (#[trigger] rows[k]).transaction_hash@,
                    rows[k].log_index,
                ) by {
                    let i = choose|i: int|
                        0 <= i < logs.drop_last().len() && joins(
                            #[trigger] logs.drop_last()[i],
                            rows[k].transaction_hash@,
                            rows[k].log_index,
                        );
                    assert(joins(logs[i], rows[k].transaction_hash@, rows[k].log_index));
                }
            },
        }
    }
}

/// Every trade joins back to a log: it carries the transaction hash
/// and the index of one of the logs that it was derived from.
pub proof fn lemma_dex_trade_rows_join_their_logs(rows: Seq<DatabaseDexTrade>, logs: Seq<Log>)
    requires
        are_dex_trade_rows(rows, logs),
    ensures
        forall|k: int|
            0 <= k < rows.len() ==> has_log(
                logs,
                (#[trigger] rows[k]).transaction_hash@,
                rows[k].log_index,
            ),
    decreases logs.len(),
{
    if logs.len() > 0 {
        let last = logs.len() - 1;
        match trade_of(event_of(logs.last())) {
            Some((sender, recipient, amounts)) => {
                lemma_dex_trade_rows_join_their_logs(rows.drop_last(), logs.drop_last());
                assert forall|k: int| 0 <= k < rows.len() implies has_log(
                    logs,
                    (#[trigger] rows[k]).transaction_hash@,
                    rows[k].log_index,
                ) by {
                    if k < rows.len() - 1 {
                        assert(rows.drop_last()[k] == rows[k]);
                        let i = choose|i: int|
                            0 <= i < logs.drop_last().len() && joins(
                                #[trigger] logs.drop_last()[i],
                                rows.drop_last()[k].transaction_hash@,
                                rows.drop_last()[k].log_index,
                            );
                        assert(joins(logs[i], rows[k].transaction_hash@, rows[k].log_index));
                    } else {
                        assert(joins(logs[last], rows[k].transaction_hash@, rows[k].log_index));
                    }
                }
            },
            _ => {
                lemma_dex_trade_rows_join_their_logs(rows, logs.drop_last());
                assert forall|k: int| 0 <= k < rows.len() implies has_log(
                    logs,
                    (#[trigger] rows[k]).transaction_hash@,
                    rows[k].log_index,
                ) by {
                    let i = choose|i: int|
                        0 <= i < logs.drop_last().len() && joins(
                            #[trigger] logs.drop_last()[i],
                            rows[k].transaction_hash@,
                            rows[k].log_index,
                        );
                    assert(joins(logs[i], rows[k].transaction_hash@, rows[k].log_index));
                }
            },
        }
    }
}

/// Whether a log is an ERC-20 transfer.
pub open spec fn is_erc20_log(log: Log) -> bool {
    event_of(log) is Erc20Transfer
}

/// How many of the first `n` logs are an ERC-20 transfers.
pub open spec fn erc20_before(logs: Seq<Log>, n: int) -> int
    decreases n,
{
    if n <= 0 {
        0
    } else if is_erc20_log(logs[n - 1]) {
        erc20_before(logs, n - 1) + 1
    } else {
        erc20_before(logs, n - 1)
    }
}

/// The row at place `k` is that of a log of the kind: one with `k` such
/// logs before it.
pub open spec fn erc20_log_at(logs: Seq<Log>, k: int) -> bool {
    exists|i: int|
        0 <= i < logs.len() && is_erc20_log(#[trigger] logs[i]) && erc20_before(logs, i) == k
}

/// The count of such logs among the first `n` does not depend on what
/// follows them.
proof fn lemma_erc20_before_prefix(logs: Seq<Log>, n: int)
    requires
        0 <= n < logs.len(),
    ensures
        erc20_before(logs.drop_last(), n) == erc20_before(logs, n),
        0 <= erc20_before(logs, n) <= n,
    decreases n,
{
    if n > 0 {
        lemma_erc20_before_prefix(logs, n - 1);
        assert(logs.drop_last()[n - 1] == logs[n - 1]);
    }
}

/// Rows and logs correspond one to one. Every log that is an ERC-20 transfer
/// has its row, which stands at the place that the count of such logs
/// before it gives; and every row is the row of such a log.
pub proof fn lemma_erc20_rows_by_place(rows: Seq<DatabaseERC20Transfer>, logs: Seq<Log>)
    requires
        are_erc20_rows(rows, logs),
    ensures
        rows.len() == erc20_before(logs, logs.len() as int),
        forall|i: int|
            0 <= i < logs.len() && is_erc20_log(#[trigger] logs[i]) ==> {
                let place = erc20_before(logs, i);
                &&& 0 <= place < rows.len()
                &&& is_erc20_row(
                    rows[place],
                    logs[i],
                    event_of(logs[i])->Erc20Transfer_from,
                    event_of(logs[i])->Erc20Transfer_to,
                    event_of(logs[i])->Erc20Transfer_value,
                )
            },
        forall|k: int| 0 <= k < rows.len() ==> #[trigger] erc20_log_at(logs, k),
    decreases logs.len(),
{
    if logs.len() > 0 {
        let last = logs.len() - 1;
        let shorter = logs.drop_last();
        lemma_erc20_before_prefix(logs, last);
        assert forall|i: int| 0 <= i < last implies erc20_before(shorter, i) == erc20_before(
            logs,
            i,
        ) by {
            lemma_erc20_before_prefix(logs, i);
        }
        if is_erc20_log(logs[last]) {
            let fewer = rows.drop_last();
            lemma_erc20_rows_by_place(fewer, shorter);
            assert forall|i: int| 0 <= i < logs.len() && is_erc20_log(
                #[trigger] logs[i],
            ) implies {
                let place = erc20_before(logs, i);
                &&& 0 <= place < rows.len()
                &&& is_erc20_row(
                    rows[place],
                    logs[i],
                    event_of(logs[i])->Erc20Transfer_from,
                    event_of(logs[i])->Erc20Transfer_to,
                    event_of(logs[i])->Erc20Transfer_value,
                )
            } by {
                if i < last {
                    assert(shorter[i] == logs[i]);
                    assert(fewer[erc20_before(shorter, i)] == rows[erc20_before(logs, i)]);
                }
            }
            assert forall|k: int| 0 <= k < rows.len() implies #[trigger] erc20_log_at(
                logs,
                k,
            ) by {
                if k < fewer.len() {
                    assert(erc20_log_at(shorter, k));
                    let i = choose|i: int|
                        0 <= i < shorter.len() && is_erc20_log(#[trigger] shorter[i])
                            && erc20_before(shorter, i) == k;
                    assert(shorter[i] == logs[i]);
                    assert(is_erc20_log(logs[i]) && erc20_before(logs, i) == k);
                } else {
                    assert(is_erc20_log(logs[last]) && erc20_before(logs, last) == k);
                }
            }
        } else {
            lemma_erc20_rows_by_place(rows, shorter);
            assert forall|i: int| 0 <= i < logs.len() && is_erc20_log(
                #[trigger] logs[i],
            ) implies {
                let place = erc20_before(logs, i);
                &&& 0 <= place < rows.len()
                &&& is_erc20_row(
                    rows[place],
                    logs[i],
                    event_of(logs[i])->Erc20Transfer_from,
                    event_of(logs[i])->Erc20Transfer_to,
                    event_of(logs[i])->Erc20Transfer_value,
                )
            } by {
                assert(shorter[i] == logs[i]);
            }
            assert forall|k: int| 0 <= k < rows.len() implies #[trigger] erc20_log_at(
                logs,
                k,
            ) by {
                assert(erc20_log_at(shorter, k));
                let i = choose|i: int|
                    0 <= i < shorter.len() && is_erc20_log(#[trigger] shorter[i])
                        && erc20_before(shorter, i) == k;
                assert(shorter[i] == logs[i]);
                assert(is_erc20_log(logs[i]) && erc20_before(logs, i) == k);
            }
        }
    }
}

/// Whether a log is an ERC-721 transfer.
pub open spec fn is_erc721_log(log: Log) -> bool {
    event_of(log) is Erc721Transfer
}

/// How many of the first `n` logs are an ERC-721 transfers.
pub open spec fn erc721_before(logs: Seq<Log>, n: int) -> int
    decreases n,
{
    if n <= 0 {
        0
    } else if is_erc721_log(logs[n - 1]) {
        erc721_before(logs, n - 1) + 1
    } else {
        erc721_before(logs, n - 1)
    }
}

/// The row at place `k` is that of a log of the kind: one with `k` such
/// logs before it.
pub open spec fn erc721_log_at(logs: Seq<Log>, k: int) -> bool {
    exists|i: int|
        0 <= i < logs.len() && is_erc721_log(#[trigger] logs[i]) && erc721_before(logs, i) == k
}

/// The count of such logs among the first `n` does not depend on what
/// follows them.
proof fn lemma_erc721_before_prefix(logs: Seq<Log>, n: int)
    requires
        0 <= n < logs.len(),
    ensures
        erc721_before(logs.drop_last(), n) == erc721_before(logs, n),
        0 <= erc721_before(logs, n) <= n,
    decreases n,
{
    if n > 0 {
        lemma_erc721_before_prefix(logs, n - 1);
        assert(logs.drop_last()[n - 1] == logs[n - 1]);
    }
}

/// Rows and logs correspond one to one. Every log that is an ERC-721 transfer
/// has its row, which stands at the place that the count of such logs
/// before it gives; and every row is the row of such a log.
pub proof fn lemma_erc721_rows_by_place(rows: Seq<DatabaseERC721Transfer>, logs: Seq<Log>)
    requires
        are_erc721_rows(rows, logs),
    ensures
        rows.len() == erc721_before(logs, logs.len() as int),
        forall|i: int|
            0 <= i < logs.len() && is_erc721_log(#[trigger] logs[i]) ==> {
                let place = erc721_before(logs, i);
                &&& 0 <= place < rows.len()
                &&& is_erc721_row(
                    rows[place],
                    logs[i],
                    event_of(logs[i])->Erc721Transfer_from,
                    event_of(logs[i])->Erc721Transfer_to,
                    event_of(logs[i])->Erc721Transfer_id,
                )
            },
        forall|k: int| 0 <= k < rows.len() ==> #[trigger] erc721_log_at(logs, k),
    decreases logs.len(),
{
    if logs.len() > 0 {
        let last = logs.len() - 1;
        let shorter = logs.drop_last();
        lemma_erc721_before_prefix(logs, last);
        assert forall|i: int| 0 <= i < last implies erc721_before(shorter, i) == erc721_before(
            logs,
            i,
        ) by {
            lemma_erc721_before_prefix(logs, i);
        }
        if is_erc721_log(logs[last]) {
            let fewer = rows.drop_last();
            lemma_erc721_rows_by_place(fewer, shorter);
            assert forall|i: int| 0 <= i < logs.len() && is_erc721_log(
                #[trigger] logs[i],
            ) implies {
                let place = erc721_before(logs, i);
                &&& 0 <= place < rows.len()
                &&& is_erc721_row(
                    rows[place],
                    logs[i],
                    event_of(logs[i])->Erc721Transfer_from,
                    event_of(logs[i])->Erc721Transfer_to,
                    event_of(logs[i])->Erc721Transfer_id,
                )
            } by {
                if i < last {
                    assert(shorter[i] == logs[i]);
                    assert(fewer[erc721_before(shorter, i)] == rows[erc721_before(logs, i)]);
                }
            }
            assert forall|k: int| 0 <= k < rows.len() implies #[trigger] erc721_log_at(
                logs,
                k,
            ) by {
                if k < fewer.len() {
                    assert(erc721_log_at(shorter, k));
                    let i = choose|i: int|
                        0 <= i < shorter.len() && is_erc721_log(#[trigger] shorter[i])
                            && erc721_before(shorter, i) == k;
                    assert(shorter[i] == logs[i]);
                    assert(is_erc721_log(logs[i]) && erc721_before(logs, i) == k);
                } else {
                    assert(is_erc721_log(logs[last]) && erc721_before(logs, last) == k);
                }
            }
        } else {
            lemma_erc721_rows_by_place(rows, shorter);
            assert forall|i: int| 0 <= i < logs.len() && is_erc721_log(
                #[trigger] logs[i],
            ) implies {
                let place = erc721_before(logs, i);
                &&& 0 <= place < rows.len()
                &&& is_erc721_row(
                    rows[place],
                    logs[i],
                    event_of(logs[i])->Erc721Transfer_from,
                    event_of(logs[i])->Erc721Transfer_to,
                    event_of(logs[i])->Erc721Transfer_id,
                )
            } by {
                assert(shorter[i] == logs[i]);
            }
            assert forall|k: int| 0 <= k < rows.len() implies #[trigger] erc721_log_at(
                logs,
                k,
            ) by {
                assert(erc721_log_at(shorter, k));
                let i = choose|i: int|
                    0 <= i < shorter.len() && is_erc721_log(#[trigger] shorter[i])
                        && erc721_before(shorter, i) == k;
                assert(shorter[i] == logs[i]);
                assert(is_erc721_log(logs[i]) && erc721_before(logs, i) == k);
            }
        }
    }
}

/// No two logs of the list share a transaction hash and a log index.
pub open spec fn have_distinct_keys(logs: Seq<Log>) -> bool {
    forall|a: int, b: int|
        0 <= a < b < logs.len() ==> !((#[trigger] logs[a]).transaction_hash@ == (
        #[trigger] logs[b]).transaction_hash@ && logs[a].log_index == logs[b].log_index)
}

/// Among any logs with distinct keys, every `Transfer` log with three
/// indexed arguments gives exactly one ERC-721 transfer: one row carries
/// the log's transaction hash and index, its token is the number in the
/// fourth topic, no other ERC-721 row carries that key, and no ERC-20
/// row does.
pub proof fn lemma_indexed_transfer_gives_one_erc721_row(
    erc721: Seq<DatabaseERC721Transfer>,
    erc20: Seq<DatabaseERC20Transfer>,
    logs: Seq<Log>,
    i: int,
)
    requires
        are_erc721_rows(erc721, logs),
        are_erc20_rows(erc20, logs),
        have_distinct_keys(logs),
        0 <= i < logs.len(),
        logs[i].topics@.len() == 4,
        logs[i].topics@[0]@ == transfer_topic(),
    ensures
        0 <= erc721_before(logs, i) < erc721.len(),
        is_erc721_row(
            erc721[erc721_before(logs, i)],
            logs[i],
            topic_address(logs[i].topics@[1]),
            topic_address(logs[i].topics@[2]),
            U256::of(be_value(logs[i].topics@[3]@)),
        ),
        erc721[erc721_before(logs, i)].id@ == be_value(logs[i].topics@[3]@),
        forall|k: int|
            0 <= k < erc721.len() && joins(
                logs[i],
                (#[trigger] erc721[k]).transaction_hash@,
                erc721[k].log_index,
            ) ==> k == erc721_before(logs, i),
        forall|k: int|
            0 <= k < erc20.len() ==> !joins(
                logs[i],
                (#[trigger] erc20[k]).transaction_hash@,
                erc20[k].log_index,
            ),
{
    let log = logs[i];
    assert(event_of(log) == (EventView::Erc721Transfer {
        from: topic_address(log.topics@[1]),
        to: topic_address(log.topics@[2]),
        id: U256::of(be_value(log.topics@[3]@)),
    }));
    assert(is_erc721_log(logs[i]));
    lemma_erc721_rows_by_place(erc721, logs);
    lemma_erc20_rows_by_place(erc20, logs);
    lemma_be_value_bound(log.topics@[3]@);
    assert(pow256(32) == pow2_256()) by {
        reveal_with_fuel(pow256, 33);
    }
    U256::lemma_view_of(be_value(log.topics@[3]@));
    assert forall|k: int|
        0 <= k < erc721.len() && joins(
            logs[i],
            (#[trigger] erc721[k]).transaction_hash@,
            erc721[k].log_index,
        ) implies k == erc721_before(logs, i) by {
        assert(erc721_log_at(logs, k));
        let j = choose|j: int|
            0 <= j < logs.len() && is_erc721_log(#[trigger] logs[j]) && erc721_before(logs, j)
                == k;
        lemma_hex_is_injective(logs[i].transaction_hash@, logs[j].transaction_hash@);
        if j < i {
            assert(!(logs[j].transaction_hash@ == logs[i].transaction_hash@ && logs[j].log_index
                == logs[i].log_index));
        } else if i < j {
            assert(!(logs[i].transaction_hash@ == logs[j].transaction_hash@ && logs[i].log_index
                == logs[j].log_index));
        }
    }
    assert forall|k: int| 0 <= k < erc20.len() implies !joins(
        logs[i],
        (#[trigger] erc20[k]).transaction_hash@,
        erc20[k].log_index,
    ) by {
        assert(erc20_log_at(logs, k));
        let j = choose|j: int|
            0 <= j < logs.len() && is_erc20_log(#[trigger] logs[j]) && erc20_before(logs, j) == k;
        if joins(logs[i], erc20[k].transaction_hash@, erc20[k].log_index) {
            lemma_hex_is_injective(logs[i].transaction_hash@, logs[j].transaction_hash@);
            if j < i {
                assert(!(logs[j].transaction_hash@ == logs[i].transaction_hash@
                    && logs[j].log_index == logs[i].log_index));
            } else if i < j {
                assert(!(logs[i].transaction_hash@ == logs[j].transaction_hash@
                    && logs[i].log_index == logs[j].log_index));
            }
        }
    }
}

} // verus!
