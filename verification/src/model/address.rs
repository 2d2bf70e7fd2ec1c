//! Addresses: what one holds, and what it has sent and received.

use crate::leaf::{
    bool_fault, bool_value, date_or_timestamp, flexible_seconds, list_fault, number_fault,
    number_value, plain_bool, plain_number, plain_text, text_fault, text_value, Fault,
};
use crate::model::token::{TokenInfo, TokenInfoView, TokenPrice, TokenPriceView};
use crate::record::{
    decode, decode_list, entries, list_of_fault, list_of_value, placeholder_fault, record_fault,
    string_or_struct, zero, Record,
};
use crate::timestamp::Timestamp;
use crate::wire::{field, lookup, DecodeError, Entries, Number, WireValue};
use vstd::prelude::*;

verus! {

/// What an address holds of one token.
#[derive(Debug, PartialEq, Eq)]
pub struct Token {
    /// Sent as `tokenInfo`.
    pub token_info: TokenInfo,
    pub balance: Number,
    /// Sent as `rawBalance`.
    pub raw_balance: String,
    /// Sent as `totalIn`.
    pub total_in: Number,
    /// Sent as `totalOut`.
    pub total_out: Number,
}

/// `Token` as plain values.
pub struct TokenView {
    pub token_info: TokenInfoView,
    pub balance: Number,
    pub raw_balance: Seq<char>,
    pub total_in: Number,
    pub total_out: Number,
}

impl DeepView for Token {
    type V = TokenView;

    open spec fn deep_view(&self) -> TokenView {
        TokenView {
            token_info: self.token_info.deep_view(),
            balance: self.balance,
            raw_balance: self.raw_balance@,
            total_in: self.total_in,
            total_out: self.total_out,
        }
    }
}

impl Record for Token {
    open spec fn fault_in(e: Entries) -> Option<DecodeError> {
        record_fault::<TokenInfo>(field(e, "tokenInfo"@))
            .before(number_fault(field(e, "balance"@)))
            .before(text_fault(field(e, "rawBalance"@)))
            .before(number_fault(field(e, "totalIn"@)))
            .before(number_fault(field(e, "totalOut"@)))
    }

    open spec fn value_in(e: Entries) -> TokenView {
        TokenView {
            token_info: TokenInfo::value_in(entries(field(e, "tokenInfo"@))),
            balance: number_value(field(e, "balance"@)),
            raw_balance: text_value(field(e, "rawBalance"@)),
            total_in: number_value(field(e, "totalIn"@)),
            total_out: number_value(field(e, "totalOut"@)),
        }
    }

    proof fn lemma_empty_has_no_fault() {
        TokenInfo::lemma_empty_has_no_fault();
    }

    fn decode_entries(e: &Vec<(String, WireValue)>) -> (r: Result<Token, DecodeError>) {
        let token_info = decode::<TokenInfo>(lookup(e, "tokenInfo"))?;
        let balance = plain_number(lookup(e, "balance"))?;
        let raw_balance = plain_text(lookup(e, "rawBalance"))?;
        let total_in = plain_number(lookup(e, "totalIn"))?;
        let total_out = plain_number(lookup(e, "totalOut"))?;
        Ok(Token { token_info, balance, raw_balance, total_in, total_out })
    }
}

impl Default for Token {
    /// The record in which every field has its zero value.
    fn default() -> (r: Token)
        ensures
            r.deep_view() == Token::value_in(Seq::empty()),
    {
        zero::<Token>()
    }
}

/// What an address holds in ether.
#[derive(Debug, PartialEq, Eq)]
pub struct ETH {
    /// Comes as a structure, or as a scalar where no price is known.
    pub price: TokenPrice,
    pub balance: Number,
    /// Sent as `rawBalance`.
    pub raw_balance: String,
    /// Sent as `totalIn`.
    pub total_in: Number,
    /// Sent as `totalOut`.
    pub total_out: Number,
}

/// `ETH` as plain values.
pub struct ETHView {
    pub price: TokenPriceView,
    pub balance: Number,
    pub raw_balance: Seq<char>,
    pub total_in: Number,
    pub total_out: Number,
}

impl DeepView for ETH {
    type V = ETHView;

    open spec fn deep_view(&self) -> ETHView {
        ETHView {
            price: self.price.deep_view(),
            balance: self.balance,
            raw_balance: self.raw_balance@,
            total_in: self.total_in,
            total_out: self.total_out,
        }
    }
}

impl Record for ETH {
    open spec fn fault_in(e: Entries) -> Option<DecodeError> {
        placeholder_fault::<TokenPrice>(field(e, "price"@))
            .before(number_fault(field(e, "balance"@)))
            .before(text_fault(field(e, "rawBalance"@)))
            .before(number_fault(field(e, "totalIn"@)))
            .before(number_fault(field(e, "totalOut"@)))
    }

    open spec fn value_in(e: Entries) -> ETHView {
        ETHView {
            price: TokenPrice::value_in(entries(field(e, "price"@))),
            balance: number_value(field(e, "balance"@)),
            raw_balance: text_value(field(e, "rawBalance"@)),
            total_in: number_value(field(e, "totalIn"@)),
            total_out: number_value(field(e, "totalOut"@)),
        }
    }

    proof fn lemma_empty_has_no_fault() {
        TokenPrice::lemma_empty_has_no_fault();
    }

    fn decode_entries(e: &Vec<(String, WireValue)>) -> (r: Result<ETH, DecodeError>) {
        let price = string_or_struct::<TokenPrice>(lookup(e, "price"))?;
        let balance = plain_number(lookup(e, "balance"))?;
        let raw_balance = plain_text(lookup(e, "rawBalance"))?;
        let total_in = plain_number(lookup(e, "totalIn"))?;
        let total_out = plain_number(lookup(e, "totalOut"))?;
        Ok(ETH { price, balance, raw_balance, total_in, total_out })
    }
}

impl Default for ETH {
    /// The record in which every field has its zero value.
    fn default() -> (r: ETH)
        ensures
            r.deep_view() == ETH::value_in(Seq::empty()),
    {
        zero::<ETH>()
    }
}

/// How a contract came to be.
#[derive(Debug, PartialEq, Eq)]
pub struct ContractInfo {
    pub creator_hash: String,
    pub transaction_hash: String,
    /// Comes as seconds since the epoch or as a calendar text.
    pub timestamp: Timestamp,
}

/// `ContractInfo` as plain values.
pub struct ContractInfoView {
    pub creator_hash: Seq<char>,
    pub transaction_hash: Seq<char>,
    pub timestamp: int,
}

impl DeepView for ContractInfo {
    type V = ContractInfoView;

    open spec fn deep_view(&self) -> ContractInfoView {
        ContractInfoView {
            creator_hash: self.creator_hash@,
            transaction_hash: self.transaction_hash@,
            timestamp: self.timestamp@,
        }
    }
}

impl Record for ContractInfo {
    open spec fn fault_in(e: Entries) -> Option<DecodeError> {
        text_fault(field(e, "creator_hash"@))
            .before(text_fault(field(e, "transaction_hash"@)))
            .before(list_fault(field(e, "timestamp"@)))
    }

    open spec fn value_in(e: Entries) -> ContractInfoView {
        ContractInfoView {
            creator_hash: text_value(field(e, "creator_hash"@)),
            transaction_hash: text_value(field(e, "transaction_hash"@)),
            timestamp: flexible_seconds(field(e, "timestamp"@)),
        }
    }

    proof fn lemma_empty_has_no_fault() {
    }

    fn decode_entries(e: &Vec<(String, WireValue)>) -> (r: Result<ContractInfo, DecodeError>) {
        let creator_hash = plain_text(lookup(e, "creator_hash"))?;
        let transaction_hash = plain_text(lookup(e, "transaction_hash"))?;
        let timestamp = date_or_timestamp(lookup(e, "timestamp"))?;
        Ok(ContractInfo { creator_hash, transaction_hash, timestamp })
    }
}

impl Default for ContractInfo {
    /// The record in which every field has its zero value.
    fn default() -> (r: ContractInfo)
        ensures
            r.deep_view() == ContractInfo::value_in(Seq::empty()),
    {
        zero::<ContractInfo>()
    }
}

/// What the service knows of an address.
#[derive(Debug, PartialEq, Eq)]
pub struct AddressInfo {
    pub address: String,
    pub eth: ETH,
    pub contract_info: ContractInfo,
    pub token_info: TokenInfo,
    pub tokens: Vec<Token>,
}

/// `AddressInfo` as plain values.
pub struct AddressInfoView {
    pub address: Seq<char>,
    pub eth: ETHView,
    pub contract_info: ContractInfoView,
    pub token_info: TokenInfoView,
    pub tokens: Seq<TokenView>,
}

impl DeepView for AddressInfo {
    type V = AddressInfoView;

    open spec fn deep_view(&self) -> AddressInfoView {
        AddressInfoView {
            address: self.address@,
            eth: self.eth.deep_view(),
            contract_info: self.contract_info.deep_view(),
            token_info: self.token_info.deep_view(),
            tokens: self.tokens.deep_view(),
        }
    }
}

impl Record for AddressInfo {
    open spec fn fault_in(e: Entries) -> Option<DecodeError> {
        text_fault(field(e, "address"@))
            .before(record_fault::<ETH>(field(e, "eth"@)))
            .before(record_fault::<ContractInfo>(field(e, "contract_info"@)))
            .before(record_fault::<TokenInfo>(field(e, "token_info"@)))
            .before(list_of_fault::<Token>(field(e, "tokens"@)))
    }

    open spec fn value_in(e: Entries) -> AddressInfoView {
        AddressInfoView {
            address: text_value(field(e, "address"@)),
            eth: ETH::value_in(entries(field(e, "eth"@))),
            contract_info: ContractInfo::value_in(entries(field(e, "contract_info"@))),
            token_info: TokenInfo::value_in(entries(field(e, "token_info"@))),
            tokens: list_of_value::<Token>(field(e, "tokens"@)),
        }
    }

    proof fn lemma_empty_has_no_fault() {
        ETH::lemma_empty_has_no_fault();
        ContractInfo::lemma_empty_has_no_fault();
        TokenInfo::lemma_empty_has_no_fault();
    }

    fn decode_entries(e: &Vec<(String, WireValue)>) -> (r: Result<AddressInfo, DecodeError>) {
        let address = plain_text(lookup(e, "address"))?;
        let eth = decode::<ETH>(lookup(e, "eth"))?;
        let contract_info = decode::<ContractInfo>(lookup(e, "contract_info"))?;
        let token_info = decode::<TokenInfo>(lookup(e, "token_info"))?;
        let tokens = decode_list::<Token>(lookup(e, "tokens"))?;
        Ok(AddressInfo { address, eth, contract_info, token_info, tokens })
    }
}

impl Default for AddressInfo {
    /// The record in which every field has its zero value.
    fn default() -> (r: AddressInfo)
        ensures
            r.deep_view() == AddressInfo::value_in(Seq::empty()),
    {
        zero::<AddressInfo>()
    }
}

/// One transaction of an address.
#[derive(Debug, PartialEq, Eq)]
pub struct AddressTransaction {
    /// Comes as seconds since the epoch or as a calendar text.
    pub timestamp: Timestamp,
    pub from: String,
    pub to: String,
    pub hash: String,
    pub value: Number,
    pub input: String,
    pub success: bool,
}

/// `AddressTransaction` as plain values.
pub struct AddressTransactionView {
    pub timestamp: int,
    pub from: Seq<char>,
    pub to: Seq<char>,
    pub hash: Seq<char>,
    pub value: Number,
    pub input: Seq<char>,
    pub success: bool,
}

impl DeepView for AddressTransaction {
    type V = AddressTransactionView;

    open spec fn deep_view(&self) -> AddressTransactionView {
        AddressTransactionView {
            timestamp: self.timestamp@,
            from: self.from@,
            to: self.to@,
            hash: self.hash@,
            value: self.value,
            input: self.input@,
            success: self.success,
        }
    }
}

impl Record for AddressTransaction {
    open spec fn fault_in(e: Entries) -> Option<DecodeError> {
        list_fault(field(e, "timestamp"@))
            .before(text_fault(field(e, "from"@)))
            .before(text_fault(field(e, "to"@)))
            .before(text_fault(field(e, "hash"@)))
            .before(number_fault(field(e, "value"@)))
            .before(text_fault(field(e, "input"@)))
            .before(bool_fault(field(e, "success"@)))
    }

    open spec fn value_in(e: Entries) -> AddressTransactionView {
        AddressTransactionView {
            timestamp: flexible_seconds(field(e, "timestamp"@)),
            from: text_value(field(e, "from"@)),
            to: text_value(field(e, "to"@)),
            hash: text_value(field(e, "hash"@)),
            value: number_value(field(e, "value"@)),
            input: text_value(field(e, "input"@)),
            success: bool_value(field(e, "success"@)),
        }
    }

    proof fn lemma_empty_has_no_fault() {
    }

    fn decode_entries(e: &Vec<(String, WireValue)>) -> (r: Result<
        AddressTransaction,
        DecodeError,
    >) {
        let timestamp = date_or_timestamp(lookup(e, "timestamp"))?;
        let from = plain_text(lookup(e, "from"))?;
        let to = plain_text(lookup(e, "to"))?;
        let hash = plain_text(lookup(e, "hash"))?;
        let value = plain_number(lookup(e, "value"))?;
        let input = plain_text(lookup(e, "input"))?;
        let success = plain_bool(lookup(e, "success"))?;
        Ok(AddressTransaction { timestamp, from, to, hash, value, input, success })
    }
}

impl Default for AddressTransaction {
    /// The record in which every field has its zero value.
    fn default() -> (r: AddressTransaction)
        ensures
            r.deep_view() == AddressTransaction::value_in(Seq::empty()),
    {
        zero::<AddressTransaction>()
    }
}
} // verus!
