//! What happened to a token over time: the operations on it and its prices.

use crate::leaf::{
    count_fault, count_value, date_or_timestamp, flexible_seconds, flexible_u128, list_fault,
    number_fault, number_value, plain_number, plain_text, plain_u64, str_or_u128, text_fault,
    text_value, Fault,
};
use crate::model::counts::CountTxs;
use crate::model::token::{TokenInfo, TokenInfoView};
use crate::record::{
    decode, decode_list, entries, list_of_fault, list_of_value, record_fault, zero, Record,
};
use crate::timestamp::Timestamp;
use crate::wire::{field, lookup, DecodeError, Entries, Number, WireValue};
use std::ops::Deref;
use vstd::prelude::*;

verus! {

/// One operation on a token.
#[derive(Debug, PartialEq, Eq)]
pub struct Operations {
    /// Comes as seconds since the epoch or as a calendar text.
    pub timestamp: Timestamp,
    pub transaction_hash: String,
    /// Sent as `tokenInfo`.
    pub token_info: TokenInfo,
    /// Sent as `type`.
    pub op_type: String,
    pub address: String,
    pub from: String,
    pub to: String,
    /// Comes as a number or as a text.
    pub value: u128,
}

/// `Operations` as plain values.
pub struct OperationsView {
    pub timestamp: int,
    pub transaction_hash: Seq<char>,
    pub token_info: TokenInfoView,
    pub op_type: Seq<char>,
    pub address: Seq<char>,
    pub from: Seq<char>,
    pub to: Seq<char>,
    pub value: u128,
}

impl DeepView for Operations {
    type V = OperationsView;

    open spec fn deep_view(&self) -> OperationsView {
        OperationsView {
            timestamp: self.timestamp@,
            transaction_hash: self.transaction_hash@,
            token_info: self.token_info.deep_view(),
            op_type: self.op_type@,
            address: self.address@,
            from: self.from@,
            to: self.to@,
            value: self.value,
        }
    }
}

impl Record for Operations {
    open spec fn fault_in(e: Entries) -> Option<DecodeError> {
        list_fault(field(e, "timestamp"@))
            .before(text_fault(field(e, "transaction_hash"@)))
            .before(record_fault::<TokenInfo>(field(e, "tokenInfo"@)))
            .before(text_fault(field(e, "type"@)))
            .before(text_fault(field(e, "address"@)))
            .before(text_fault(field(e, "from"@)))
            .before(text_fault(field(e, "to"@)))
            .before(list_fault(field(e, "value"@)))
    }

    open spec fn value_in(e: Entries) -> OperationsView {
        OperationsView {
            timestamp: flexible_seconds(field(e, "timestamp"@)),
            transaction_hash: text_value(field(e, "transaction_hash"@)),
            token_info: TokenInfo::value_in(entries(field(e, "tokenInfo"@))),
            op_type: text_value(field(e, "type"@)),
            address: text_value(field(e, "address"@)),
            from: text_value(field(e, "from"@)),
            to: text_value(field(e, "to"@)),
            value: flexible_u128(field(e, "value"@)),
        }
    }

    proof fn lemma_empty_has_no_fault() {
        TokenInfo::lemma_empty_has_no_fault();
    }

    fn decode_entries(e: &Vec<(String, WireValue)>) -> (r: Result<Operations, DecodeError>) {
        let timestamp = date_or_timestamp(lookup(e, "timestamp"))?;
        let transaction_hash = plain_text(lookup(e, "transaction_hash"))?;
        let token_info = decode::<TokenInfo>(lookup(e, "tokenInfo"))?;
        let op_type = plain_text(lookup(e, "type"))?;
        let address = plain_text(lookup(e, "address"))?;
        let from = plain_text(lookup(e, "from"))?;
        let to = plain_text(lookup(e, "to"))?;
        let value = str_or_u128(lookup(e, "value"))?;
        Ok(Operations {
            timestamp,
            transaction_hash,
            token_info,
            op_type,
            address,
            from,
            to,
            value,
        })
    }
}

impl Default for Operations {
    /// The record in which every field has its zero value.
    fn default() -> (r: Operations)
        ensures
            r.deep_view() == Operations::value_in(Seq::empty()),
    {
        zero::<Operations>()
    }
}

/// The operations on a token, or of an address.
#[derive(Debug, PartialEq, Eq)]
pub struct TokenHistory {
    pub operations: Vec<Operations>,
}

/// `TokenHistory` as plain values.
pub struct TokenHistoryView {
    pub operations: Seq<OperationsView>,
}

impl DeepView for TokenHistory {
    type V = TokenHistoryView;

    open spec fn deep_view(&self) -> TokenHistoryView {
        TokenHistoryView {
            operations: self.operations.deep_view(),
        }
    }
}

impl Record for TokenHistory {
    open spec fn fault_in(e: Entries) -> Option<DecodeError> {
        list_of_fault::<Operations>(field(e, "operations"@))
    }

    open spec fn value_in(e: Entries) -> TokenHistoryView {
        TokenHistoryView {
            operations: list_of_value::<Operations>(field(e, "operations"@)),
        }
    }

    proof fn lemma_empty_has_no_fault() {
    }

    fn decode_entries(e: &Vec<(String, WireValue)>) -> (r: Result<TokenHistory, DecodeError>) {
        let operations = decode_list::<Operations>(lookup(e, "operations"))?;
        Ok(TokenHistory { operations })
    }
}

impl Default for TokenHistory {
    /// The record in which every field has its zero value.
    fn default() -> (r: TokenHistory)
        ensures
            r.deep_view() == TokenHistory::value_in(Seq::empty()),
    {
        zero::<TokenHistory>()
    }
}

/// The prices of a token on one day.
#[derive(Debug, PartialEq, Eq)]
pub struct Price {
    pub ts: u64,
    /// Comes as seconds since the epoch or as a calendar text.
    pub date: Timestamp,
    pub open: Number,
    pub close: Number,
    pub high: Number,
    pub low: Number,
    pub volume: Number,
    /// Sent as `volumeConverted`.
    pub volume_usd: Number,
    pub average: Number,
}

/// `Price` as plain values.
pub struct PriceView {
    pub ts: u64,
    pub date: int,
    pub open: Number,
    pub close: Number,
    pub high: Number,
    pub low: Number,
    pub volume: Number,
    pub volume_usd: Number,
    pub average: Number,
}

impl DeepView for Price {
    type V = PriceView;

    open spec fn deep_view(&self) -> PriceView {
        PriceView {
            ts: self.ts,
            date: self.date@,
            open: self.open,
            close: self.close,
            high: self.high,
            low: self.low,
            volume: self.volume,
            volume_usd: self.volume_usd,
            average: self.average,
        }
    }
}

impl Record for Price {
    open spec fn fault_in(e: Entries) -> Option<DecodeError> {
        count_fault(field(e, "ts"@))
            .before(list_fault(field(e, "date"@)))
            .before(number_fault(field(e, "open"@)))
            .before(number_fault(field(e, "close"@)))
            .before(number_fault(field(e, "high"@)))
            .before(number_fault(field(e, "low"@)))
            .before(number_fault(field(e, "volume"@)))
            .before(number_fault(field(e, "volumeConverted"@)))
            .before(number_fault(field(e, "average"@)))
    }

    open spec fn value_in(e: Entries) -> PriceView {
        PriceView {
            ts: count_value(field(e, "ts"@)),
            date: flexible_seconds(field(e, "date"@)),
            open: number_value(field(e, "open"@)),
            close: number_value(field(e, "close"@)),
            high: number_value(field(e, "high"@)),
            low: number_value(field(e, "low"@)),
            volume: number_value(field(e, "volume"@)),
            volume_usd: number_value(field(e, "volumeConverted"@)),
            average: number_value(field(e, "average"@)),
        }
    }

    proof fn lemma_empty_has_no_fault() {
    }

    fn decode_entries(e: &Vec<(String, WireValue)>) -> (r: Result<Price, DecodeError>) {
        let ts = plain_u64(lookup(e, "ts"))?;
        let date = date_or_timestamp(lookup(e, "date"))?;
        let open = plain_number(lookup(e, "open"))?;
        let close = plain_number(lookup(e, "close"))?;
        let high = plain_number(lookup(e, "high"))?;
        let low = plain_number(lookup(e, "low"))?;
        let volume = plain_number(lookup(e, "volume"))?;
        let volume_usd = plain_number(lookup(e, "volumeConverted"))?;
        let average = plain_number(lookup(e, "average"))?;
        Ok(Price { ts, date, open, close, high, low, volume, volume_usd, average })
    }
}

impl Default for Price {
    /// The record in which every field has its zero value.
    fn default() -> (r: Price)
        ensures
            r.deep_view() == Price::value_in(Seq::empty()),
    {
        zero::<Price>()
    }
}

/// The prices of a token, day by day.
#[derive(Debug, PartialEq, Eq)]
pub struct Prices(pub Vec<Price>);

impl DeepView for Prices {
    type V = Seq<PriceView>;

    open spec fn deep_view(&self) -> Seq<PriceView> {
        self.0.deep_view()
    }
}

impl Deref for Prices {
    type Target = Vec<Price>;

    fn deref(&self) -> (r: &Vec<Price>)
        ensures
            *r == self.0,
    {
        &self.0
    }
}

/// The transactions and the prices of a token, day by day.
#[derive(Debug, PartialEq, Eq)]
pub struct History {
    /// Sent as `countTxs`.
    pub count_txs: Vec<CountTxs>,
    pub prices: Prices,
}

/// `History` as plain values.
pub struct HistoryView {
    pub count_txs: Seq<CountTxs>,
    pub prices: Seq<PriceView>,
}

impl DeepView for History {
    type V = HistoryView;

    open spec fn deep_view(&self) -> HistoryView {
        HistoryView {
            count_txs: self.count_txs.deep_view(),
            prices: self.prices.deep_view(),
        }
    }
}

impl Record for History {
    open spec fn fault_in(e: Entries) -> Option<DecodeError> {
        list_of_fault::<CountTxs>(field(e, "countTxs"@))
            .before(list_of_fault::<Price>(field(e, "prices"@)))
    }

    open spec fn value_in(e: Entries) -> HistoryView {
        HistoryView {
            count_txs: list_of_value::<CountTxs>(field(e, "countTxs"@)),
            prices: list_of_value::<Price>(field(e, "prices"@)),
        }
    }

    proof fn lemma_empty_has_no_fault() {
    }

    fn decode_entries(e: &Vec<(String, WireValue)>) -> (r: Result<History, DecodeError>) {
        let count_txs = decode_list::<CountTxs>(lookup(e, "countTxs"))?;
        let prices = Prices(decode_list::<Price>(lookup(e, "prices"))?);
        Ok(History { count_txs, prices })
    }
}

impl Default for History {
    /// The record in which every field has its zero value.
    fn default() -> (r: History)
        ensures
            r.deep_view() == History::value_in(Seq::empty()),
    {
        zero::<History>()
    }
}

/// The answer that carries the history of a token.
#[derive(Debug, PartialEq, Eq)]
pub struct TokenDailyPriceHistory {
    pub history: History,
}

/// `TokenDailyPriceHistory` as plain values.
pub struct TokenDailyPriceHistoryView {
    pub history: HistoryView,
}

impl DeepView for TokenDailyPriceHistory {
    type V = TokenDailyPriceHistoryView;

    open spec fn deep_view(&self) -> TokenDailyPriceHistoryView {
        TokenDailyPriceHistoryView {
            history: self.history.deep_view(),
        }
    }
}

impl Record for TokenDailyPriceHistory {
    open spec fn fault_in(e: Entries) -> Option<DecodeError> {
        record_fault::<History>(field(e, "history"@))
    }

    open spec fn value_in(e: Entries) -> TokenDailyPriceHistoryView {
        TokenDailyPriceHistoryView {
            history: History::value_in(entries(field(e, "history"@))),
        }
    }

    proof fn lemma_empty_has_no_fault() {
        History::lemma_empty_has_no_fault();
    }

    fn decode_entries(e: &Vec<(String, WireValue)>) -> (r: Result<
        TokenDailyPriceHistory,
        DecodeError,
    >) {
        let history = decode::<History>(lookup(e, "history"))?;
        Ok(TokenDailyPriceHistory { history })
    }
}

impl Default for TokenDailyPriceHistory {
    /// The record in which every field has its zero value.
    fn default() -> (r: TokenDailyPriceHistory)
        ensures
            r.deep_view() == TokenDailyPriceHistory::value_in(Seq::empty()),
    {
        zero::<TokenDailyPriceHistory>()
    }
}
} // verus!
