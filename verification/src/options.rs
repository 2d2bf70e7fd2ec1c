//! The options of the calls that take any.

use crate::timestamp::Timestamp;
use vstd::prelude::*;

verus! {

/// Options of the call for an address.
#[derive(Debug, PartialEq, Eq)]
pub struct GetAddressInfoParams {
    /// Tell of this token only; of all where empty.
    pub token: String,
    /// Whether to add up what went in and out in ether.
    pub show_eth_totals: bool,
}

impl Default for GetAddressInfoParams {
    fn default() -> (r: GetAddressInfoParams)
        ensures
            r.token@.len() == 0,
            !r.show_eth_totals,
    {
        GetAddressInfoParams { token: String::new(), show_eth_totals: false }
    }
}

/// Options of the call for the operations on a token.
#[derive(Debug, PartialEq, Eq)]
pub struct GetTokenHistoryParams {
    /// Tell of operations of this type only; of all where empty.
    pub history_type: String,
    /// At most this many operations; the service's own number where zero.
    pub limit: u64,
    /// Operations from this time on; all where it is the epoch.
    pub timestamp: Timestamp,
}

impl Default for GetTokenHistoryParams {
    fn default() -> (r: GetTokenHistoryParams)
        ensures
            r.history_type@.len() == 0,
            r.limit == 0,
            r.timestamp@ == 0,
    {
        GetTokenHistoryParams {
            history_type: String::new(),
            limit: 0,
            timestamp: Timestamp::default(),
        }
    }
}

/// Options of the call for the operations of an address.
#[derive(Debug, PartialEq, Eq)]
pub struct GetAddressHistoryParams {
    /// Tell of operations of this type only; of all where empty.
    pub history_type: String,
    /// At most this many operations; the service's own number where zero.
    pub limit: u64,
    /// Operations from this time on; all where it is the epoch.
    pub timestamp: Timestamp,
    /// Tell of this token only; of all where empty.
    pub token: String,
}

impl Default for GetAddressHistoryParams {
    fn default() -> (r: GetAddressHistoryParams)
        ensures
            r.history_type@.len() == 0,
            r.limit == 0,
            r.timestamp@ == 0,
            r.token@.len() == 0,
    {
        GetAddressHistoryParams {
            history_type: String::new(),
            limit: 0,
            timestamp: Timestamp::default(),
            token: String::new(),
        }
    }
}

/// Options of the call for the transactions of an address.
#[derive(Debug, PartialEq, Eq)]
pub struct GetAddressTransactionsParams {
    /// At most this many transactions; the service's own number where zero.
    pub limit: u64,
    /// Transactions from this time on; all where it is the epoch.
    pub timestamp: Timestamp,
    /// Whether to tell of transactions that moved nothing.
    pub show_zero_values: bool,
}

impl Default for GetAddressTransactionsParams {
    fn default() -> (r: GetAddressTransactionsParams)
        ensures
            r.limit == 0,
            r.timestamp@ == 0,
            !r.show_zero_values,
    {
        GetAddressTransactionsParams {
            limit: 0,
            timestamp: Timestamp::default(),
            show_zero_values: false,
        }
    }
}

/// Options of the call for the tokens that lead by some measure.
#[derive(Debug, PartialEq, Eq)]
pub struct GetTopParams {
    /// At most this many tokens; the service's own number where zero.
    pub limit: u64,
    /// The measure to rank by; the service's own where empty.
    pub criteria: String,
}

impl Default for GetTopParams {
    fn default() -> (r: GetTopParams)
        ensures
            r.limit == 0,
            r.criteria@.len() == 0,
    {
        GetTopParams { limit: 0, criteria: String::new() }
    }
}

} // verus!
