//! The newest block, and the transactions counted day by day.

use crate::leaf::{count_fault, count_value, plain_u64, Fault};
use crate::record::{
    decode, decode_list, entries, list_of_fault, list_of_value, record_fault, zero, Record,
};
use crate::wire::{field, lookup, DecodeError, Entries, WireValue};
use vstd::prelude::*;

verus! {

/// The number of the newest block that the service knows.
#[derive(Clone, Copy, Debug, PartialEq, Eq)]
pub struct LastBlock {
    /// Sent as `lastBlock`.
    pub last_block: u64,
}

impl DeepView for LastBlock {
    type V = LastBlock;

    open spec fn deep_view(&self) -> LastBlock {
        *self
    }
}

impl Record for LastBlock {
    open spec fn fault_in(e: Entries) -> Option<DecodeError> {
        count_fault(field(e, "lastBlock"@))
    }

    open spec fn value_in(e: Entries) -> LastBlock {
        LastBlock {
            last_block: count_value(field(e, "lastBlock"@)),
        }
    }

    proof fn lemma_empty_has_no_fault() {
    }

    fn decode_entries(e: &Vec<(String, WireValue)>) -> (r: Result<LastBlock, DecodeError>) {
        let last_block = plain_u64(lookup(e, "lastBlock"))?;
        Ok(LastBlock { last_block })
    }
}

impl Default for LastBlock {
    /// The record in which every field has its zero value.
    fn default() -> (r: LastBlock)
        ensures
            r.deep_view() == LastBlock::value_in(Seq::empty()),
    {
        zero::<LastBlock>()
    }
}

/// A calendar day.
#[derive(Clone, Copy, Debug, PartialEq, Eq)]
pub struct TransactionDate {
    pub year: u64,
    pub month: u64,
    pub day: u64,
}

impl DeepView for TransactionDate {
    type V = TransactionDate;

    open spec fn deep_view(&self) -> TransactionDate {
        *self
    }
}

impl Record for TransactionDate {
    open spec fn fault_in(e: Entries) -> Option<DecodeError> {
        count_fault(field(e, "year"@))
            .before(count_fault(field(e, "month"@)))
            .before(count_fault(field(e, "day"@)))
    }

    open spec fn value_in(e: Entries) -> TransactionDate {
        TransactionDate {
            year: count_value(field(e, "year"@)),
            month: count_value(field(e, "month"@)),
            day: count_value(field(e, "day"@)),
        }
    }

    proof fn lemma_empty_has_no_fault() {
    }

    fn decode_entries(e: &Vec<(String, WireValue)>) -> (r: Result<TransactionDate, DecodeError>) {
        let year = plain_u64(lookup(e, "year"))?;
        let month = plain_u64(lookup(e, "month"))?;
        let day = plain_u64(lookup(e, "day"))?;
        Ok(TransactionDate { year, month, day })
    }
}

impl Default for TransactionDate {
    /// The record in which every field has its zero value.
    fn default() -> (r: TransactionDate)
        ensures
            r.deep_view() == TransactionDate::value_in(Seq::empty()),
    {
        zero::<TransactionDate>()
    }
}

/// The transactions counted on one day.
#[derive(Clone, Copy, Debug, PartialEq, Eq)]
pub struct CountTxs {
    /// Sent as `_id`.
    pub id: TransactionDate,
    pub ts: u64,
    pub cnt: u64,
}

impl DeepView for CountTxs {
    type V = CountTxs;

    open spec fn deep_view(&self) -> CountTxs {
        *self
    }
}

impl Record for CountTxs {
    open spec fn fault_in(e: Entries) -> Option<DecodeError> {
        record_fault::<TransactionDate>(field(e, "_id"@))
            .before(count_fault(field(e, "ts"@)))
            .before(count_fault(field(e, "cnt"@)))
    }

    open spec fn value_in(e: Entries) -> CountTxs {
        CountTxs {
            id: TransactionDate::value_in(entries(field(e, "_id"@))),
            ts: count_value(field(e, "ts"@)),
            cnt: count_value(field(e, "cnt"@)),
        }
    }

    proof fn lemma_empty_has_no_fault() {
        TransactionDate::lemma_empty_has_no_fault();
    }

    fn decode_entries(e: &Vec<(String, WireValue)>) -> (r: Result<CountTxs, DecodeError>) {
        let id = decode::<TransactionDate>(lookup(e, "_id"))?;
        let ts = plain_u64(lookup(e, "ts"))?;
        let cnt = plain_u64(lookup(e, "cnt"))?;
        Ok(CountTxs { id, ts, cnt })
    }
}

impl Default for CountTxs {
    /// The record in which every field has its zero value.
    fn default() -> (r: CountTxs)
        ensures
            r.deep_view() == CountTxs::value_in(Seq::empty()),
    {
        zero::<CountTxs>()
    }
}

/// The transactions of one token, counted day by day.
#[derive(Debug, PartialEq, Eq)]
pub struct TokenDailyTransactionCounts {
    /// Sent as `countTxs`.
    pub count_txs: Vec<CountTxs>,
}

/// `TokenDailyTransactionCounts` as plain values.
pub struct TokenDailyTransactionCountsView {
    pub count_txs: Seq<CountTxs>,
}

impl DeepView for TokenDailyTransactionCounts {
    type V = TokenDailyTransactionCountsView;

    open spec fn deep_view(&self) -> TokenDailyTransactionCountsView {
        TokenDailyTransactionCountsView {
            count_txs: self.count_txs.deep_view(),
        }
    }
}

impl Record for TokenDailyTransactionCounts {
    open spec fn fault_in(e: Entries) -> Option<DecodeError> {
        list_of_fault::<CountTxs>(field(e, "countTxs"@))
    }

    open spec fn value_in(e: Entries) -> TokenDailyTransactionCountsView {
        TokenDailyTransactionCountsView {
            count_txs: list_of_value::<CountTxs>(field(e, "countTxs"@)),
        }
    }

    proof fn lemma_empty_has_no_fault() {
    }

    fn decode_entries(e: &Vec<(String, WireValue)>) -> (r: Result<
        TokenDailyTransactionCounts,
        DecodeError,
    >) {
        let count_txs = decode_list::<CountTxs>(lookup(e, "countTxs"))?;
        Ok(TokenDailyTransactionCounts { count_txs })
    }
}

impl Default for TokenDailyTransactionCounts {
    /// The record in which every field has its zero value.
    fn default() -> (r: TokenDailyTransactionCounts)
        ensures
            r.deep_view() == TokenDailyTransactionCounts::value_in(Seq::empty()),
    {
        zero::<TokenDailyTransactionCounts>()
    }
}
} // verus!
