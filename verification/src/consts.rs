//! The service's address, its route names and the key that anyone may use.

use vstd::prelude::*;

verus! {

/// The key sent when the caller has none of their own.
pub const FREE_KEY: &'static str = "freekey";

/// The name under which the key travels in the query.
pub const API_KEY_PARAM: &'static str = "apiKey";

/// The base address of the service.
pub const NETWORK: &'static str = "https://api.ethplorer.io";

pub const GET_ADDRESS_INFO_ROUTE: &'static str = "getAddressInfo";

pub const GET_TOKEN_INFO_ROUTE: &'static str = "getTokenInfo";

pub const GET_TOP_TOKEN_HOLDERS_ROUTE: &'static str = "getTopTokenHolders";

pub const GET_LAST_BLOCK_ROUTE: &'static str = "getLastBlock";

pub const GET_TOKENS_NEW_ROUTE: &'static str = "getTokensNew";

pub const GET_TOKEN_HISTORY_GROUPED_ROUTE: &'static str = "getTokenHistoryGrouped";

/// The daily transaction counts are served by the grouped-history route.
pub const GET_TOKEN_DAILY_TRANSACTION_COUNT_ROUTE: &'static str = "getTokenHistoryGrouped";

pub const GET_TOKEN_HISTORY_ROUTE: &'static str = "getTokenHistory";

pub const GET_ADDRESS_TRANSACTIONS_ROUTE: &'static str = "getAddressTransactions";

pub const GET_TOP_TOKENS_ROUTE: &'static str = "getTopTokens";

pub const GET_TOP_ROUTE: &'static str = "getTop";

pub const GET_TOKEN_PRICE_HISTORY_GROUPED: &'static str = "getTokenPriceHistoryGrouped";

pub const GET_TOKEN_PRICE_HISTORY_GROUPED_ROUTE: &'static str = "getTokenPriceHistoryGrouped";

pub const GET_ADDRESS_HISTORY: &'static str = "getAddressHistory";

} // verus!
