//! A client-side adapter for the Ethplorer web service: request descriptors
//! built from typed call parameters, and typed records read out of the
//! service's loosely typed answers.
//!
//! The library neither sends a request nor parses the bytes of an answer. It
//! says where a call goes and what it carries (`request`), and it reads the
//! records out of an answer that a parser has turned into `WireValue`s
//! (`leaf`, `record`, `model`).

pub mod consts;
pub mod endpoints;
pub mod laws;
pub mod leaf;
pub mod model;
pub mod options;
pub mod record;
pub mod request;
pub mod text;
pub mod timestamp;
pub mod wire;

pub use crate::consts::{
    API_KEY_PARAM, FREE_KEY, GET_ADDRESS_HISTORY, GET_ADDRESS_INFO_ROUTE,
    GET_ADDRESS_TRANSACTIONS_ROUTE, GET_LAST_BLOCK_ROUTE, GET_TOKENS_NEW_ROUTE,
    GET_TOKEN_DAILY_TRANSACTION_COUNT_ROUTE, GET_TOKEN_HISTORY_GROUPED_ROUTE,
    GET_TOKEN_HISTORY_ROUTE, GET_TOKEN_INFO_ROUTE, GET_TOKEN_PRICE_HISTORY_GROUPED,
    GET_TOKEN_PRICE_HISTORY_GROUPED_ROUTE, GET_TOP_ROUTE, GET_TOP_TOKENS_ROUTE,
    GET_TOP_TOKEN_HOLDERS_ROUTE, NETWORK,
};
pub use crate::leaf::{
    date_or_timestamp, plain_bool, plain_number, plain_text, plain_texts, plain_u64, str_or_u128,
    str_or_u64,
};
pub use crate::model::address::{AddressInfo, AddressTransaction, ContractInfo, Token, ETH};
pub use crate::model::counts::{CountTxs, LastBlock, TokenDailyTransactionCounts, TransactionDate};
pub use crate::model::history::{
    History, Operations, Price, Prices, TokenDailyPriceHistory, TokenHistory,
};
pub use crate::model::token::{Holder, TokenInfo, TokenPrice, TopTokenHolders, TopTokens};
pub use crate::options::{
    GetAddressHistoryParams, GetAddressInfoParams, GetAddressTransactionsParams,
    GetTokenHistoryParams, GetTopParams,
};
pub use crate::record::{decode, decode_list, string_or_struct, zero, Record};
pub use crate::request::{api_key_param, RequestConfig, LIMIT_MAX, PERIOD_MAX};
pub use crate::endpoints::{
    get_address_history_config, get_address_info_config, get_address_transactions_config,
    get_last_block_config, get_token_daily_price_history_config,
    get_token_daily_transaction_count_config, get_token_history_config, get_token_info_config,
    get_tokens_new_config, get_top_config, get_top_token_holders_config, get_top_tokens_config,
};
pub use crate::text::{decimal_string, parse_unsigned, signed_decimal_string};
pub use crate::timestamp::Timestamp;
pub use crate::wire::{lookup, DecodeError, Number, ValueKind, WireValue};
