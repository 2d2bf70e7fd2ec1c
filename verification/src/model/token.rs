//! Tokens: what is known of one, what it costs, and who holds it.

use crate::leaf::{
    count_fault, count_value, flexible_u64, list_fault, number_fault, number_value, plain_number,
    plain_text, plain_texts, plain_u64, str_or_u64, text_fault, text_value, texts_fault,
    texts_value, Fault,
};
use crate::record::{
    decode_list, entries, list_of_fault, list_of_value, placeholder_fault, string_or_struct, zero,
    Record,
};
use crate::wire::{field, lookup, DecodeError, Entries, Number, WireValue};
use vstd::prelude::*;

verus! {

/// What a token costs and how its price and its trade have moved.
#[derive(Debug, PartialEq, Eq)]
pub struct TokenPrice {
    pub rate: Number,
    pub currency: String,
    pub diff: Number,
    pub diff7d: Number,
    pub diff30d: Number,
    /// Sent as `volume24h`.
    pub volume_24h: Number,
    /// Sent as `volDiff1`.
    pub volume_diff1: Number,
    /// Sent as `volDiff7`.
    pub volume_diff7: Number,
    /// Sent as `volDiff30`.
    pub volume_diff30: Number,
    /// Sent as `marketCapUsd`.
    pub market_cap_usd: Number,
    /// Sent as `availableSupply`.
    pub available_supply: Number,
    pub ts: u64,
}

/// `TokenPrice` as plain values.
pub struct TokenPriceView {
    pub rate: Number,
    pub currency: Seq<char>,
    pub diff: Number,
    pub diff7d: Number,
    pub diff30d: Number,
    pub volume_24h: Number,
    pub volume_diff1: Number,
    pub volume_diff7: Number,
    pub volume_diff30: Number,
    pub market_cap_usd: Number,
    pub available_supply: Number,
    pub ts: u64,
}

impl DeepView for TokenPrice {
    type V = TokenPriceView;

    open spec fn deep_view(&self) -> TokenPriceView {
        TokenPriceView {
            rate: self.rate,
            currency: self.currency@,
            diff: self.diff,
            diff7d: self.diff7d,
            diff30d: self.diff30d,
            volume_24h: self.volume_24h,
            volume_diff1: self.volume_diff1,
            volume_diff7: self.volume_diff7,
            volume_diff30: self.volume_diff30,
            market_cap_usd: self.market_cap_usd,
            available_supply: self.available_supply,
            ts: self.ts,
        }
    }
}

impl Record for TokenPrice {
    open spec fn fault_in(e: Entries) -> Option<DecodeError> {
        number_fault(field(e, "rate"@))
            .before(text_fault(field(e, "currency"@)))
            .before(number_fault(field(e, "diff"@)))
            .before(number_fault(field(e, "diff7d"@)))
            .before(number_fault(field(e, "diff30d"@)))
            .before(number_fault(field(e, "volume24h"@)))
            .before(number_fault(field(e, "volDiff1"@)))
            .before(number_fault(field(e, "volDiff7"@)))
            .before(number_fault(field(e, "volDiff30"@)))
            .before(number_fault(field(e, "marketCapUsd"@)))
            .before(number_fault(field(e, "availableSupply"@)))
            .before(count_fault(field(e, "ts"@)))
    }

    open spec fn value_in(e: Entries) -> TokenPriceView {
        TokenPriceView {
            rate: number_value(field(e, "rate"@)),
            currency: text_value(field(e, "currency"@)),
            diff: number_value(field(e, "diff"@)),
            diff7d: number_value(field(e, "diff7d"@)),
            diff30d: number_value(field(e, "diff30d"@)),
            volume_24h: number_value(field(e, "volume24h"@)),
            volume_diff1: number_value(field(e, "volDiff1"@)),
            volume_diff7: number_value(field(e, "volDiff7"@)),
            volume_diff30: number_value(field(e, "volDiff30"@)),
            market_cap_usd: number_value(field(e, "marketCapUsd"@)),
            available_supply: number_value(field(e, "availableSupply"@)),
            ts: count_value(field(e, "ts"@)),
        }
    }

    proof fn lemma_empty_has_no_fault() {
    }

    fn decode_entries(e: &Vec<(String, WireValue)>) -> (r: Result<TokenPrice, DecodeError>) {
        let rate = plain_number(lookup(e, "rate"))?;
        let currency = plain_text(lookup(e, "currency"))?;
        let diff = plain_number(lookup(e, "diff"))?;
        let diff7d = plain_number(lookup(e, "diff7d"))?;
        let diff30d = plain_number(lookup(e, "diff30d"))?;
        let volume_24h = plain_number(lookup(e, "volume24h"))?;
        let volume_diff1 = plain_number(lookup(e, "volDiff1"))?;
        let volume_diff7 = plain_number(lookup(e, "volDiff7"))?;
        let volume_diff30 = plain_number(lookup(e, "volDiff30"))?;
        let market_cap_usd = plain_number(lookup(e, "marketCapUsd"))?;
        let available_supply = plain_number(lookup(e, "availableSupply"))?;
        let ts = plain_u64(lookup(e, "ts"))?;
        Ok(TokenPrice {
            rate,
            currency,
            diff,
            diff7d,
            diff30d,
            volume_24h,
            volume_diff1,
            volume_diff7,
            volume_diff30,
            market_cap_usd,
            available_supply,
            ts,
        })
    }
}

impl Default for TokenPrice {
    /// The record in which every field has its zero value.
    fn default() -> (r: TokenPrice)
        ensures
            r.deep_view() == TokenPrice::value_in(Seq::empty()),
    {
        zero::<TokenPrice>()
    }
}

/// What the service knows of a token.
#[derive(Debug, PartialEq, Eq)]
pub struct TokenInfo {
    pub address: String,
    pub name: String,
    /// Comes as a number or as a text.
    pub decimals: u64,
    pub symbol: String,
    /// Sent as `totalSupply`.
    pub total_supply: String,
    pub owner: String,
    pub txs_count: u64,
    /// Sent as `transfersCount`.
    pub transfers_count: u64,
    /// Sent as `lastUpdated`.
    pub last_updated: u64,
    pub slot: u64,
    /// Sent as `StorageTotalSupply`.
    pub storage_total_supply: u64,
    /// Sent as `issuancesCount`.
    pub issuances_count: u64,
    /// Sent as `holdersCount`.
    pub holders_count: u64,
    pub image: String,
    pub description: String,
    pub website: String,
    pub telegram: String,
    pub twitter: String,
    pub reddit: String,
    pub facebook: String,
    pub coingecko: String,
    /// Sent as `ethTransfersCount`.
    pub eth_transfer_count: u64,
    /// Comes as a structure, or as a scalar where no price is known.
    pub price: TokenPrice,
    /// Sent as `countOps`.
    pub count_ops: u64,
    /// Sent as `publicTags`.
    pub public_tags: Vec<String>,
    /// Sent as `opCount`.
    pub op_count: u64,
    pub added: u64,
}

/// `TokenInfo` as plain values.
pub struct TokenInfoView {
    pub address: Seq<char>,
    pub name: Seq<char>,
    pub decimals: u64,
    pub symbol: Seq<char>,
    pub total_supply: Seq<char>,
    pub owner: Seq<char>,
    pub txs_count: u64,
    pub transfers_count: u64,
    pub last_updated: u64,
    pub slot: u64,
    pub storage_total_supply: u64,
    pub issuances_count: u64,
    pub holders_count: u64,
    pub image: Seq<char>,
    pub description: Seq<char>,
    pub website: Seq<char>,
    pub telegram: Seq<char>,
    pub twitter: Seq<char>,
    pub reddit: Seq<char>,
    pub facebook: Seq<char>,
    pub coingecko: Seq<char>,
    pub eth_transfer_count: u64,
    pub price: TokenPriceView,
    pub count_ops: u64,
    pub public_tags: Seq<Seq<char>>,
    pub op_count: u64,
    pub added: u64,
}

impl DeepView for TokenInfo {
    type V = TokenInfoView;

    open spec fn deep_view(&self) -> TokenInfoView {
        TokenInfoView {
            address: self.address@,
            name: self.name@,
            decimals: self.decimals,
            symbol: self.symbol@,
            total_supply: self.total_supply@,
            owner: self.owner@,
            txs_count: self.txs_count,
            transfers_count: self.transfers_count,
            last_updated: self.last_updated,
            slot: self.slot,
            storage_total_supply: self.storage_total_supply,
            issuances_count: self.issuances_count,
            holders_count: self.holders_count,
            image: self.image@,
            description: self.description@,
            website: self.website@,
            telegram: self.telegram@,
            twitter: self.twitter@,
            reddit: self.reddit@,
            facebook: self.facebook@,
            coingecko: self.coingecko@,
            eth_transfer_count: self.eth_transfer_count,
            price: self.price.deep_view(),
            count_ops: self.count_ops,
            public_tags: self.public_tags.deep_view(),
            op_count: self.op_count,
            added: self.added,
        }
    }
}

impl Record for TokenInfo {
    open spec fn fault_in(e: Entries) -> Option<DecodeError> {
        text_fault(field(e, "address"@))
            .before(text_fault(field(e, "name"@)))
            .before(list_fault(field(e, "decimals"@)))
            .before(text_fault(field(e, "symbol"@)))
            .before(text_fault(field(e, "totalSupply"@)))
            .before(text_fault(field(e, "owner"@)))
            .before(count_fault(field(e, "txs_count"@)))
            .before(count_fault(field(e, "transfersCount"@)))
            .before(count_fault(field(e, "lastUpdated"@)))
            .before(count_fault(field(e, "slot"@)))
            .before(count_fault(field(e, "StorageTotalSupply"@)))
            .before(count_fault(field(e, "issuancesCount"@)))
            .before(count_fault(field(e, "holdersCount"@)))
            .before(text_fault(field(e, "image"@)))
            .before(text_fault(field(e, "description"@)))
            .before(text_fault(field(e, "website"@)))
            .before(text_fault(field(e, "telegram"@)))
            .before(text_fault(field(e, "twitter"@)))
            .before(text_fault(field(e, "reddit"@)))
            .before(text_fault(field(e, "facebook"@)))
            .before(text_fault(field(e, "coingecko"@)))
            .before(count_fault(field(e, "ethTransfersCount"@)))
            .before(placeholder_fault::<TokenPrice>(field(e, "price"@)))
            .before(count_fault(field(e, "countOps"@)))
            .before(texts_fault(field(e, "publicTags"@)))
            .before(count_fault(field(e, "opCount"@)))
            .before(count_fault(field(e, "added"@)))
    }

    open spec fn value_in(e: Entries) -> TokenInfoView {
        TokenInfoView {
            address: text_value(field(e, "address"@)),
            name: text_value(field(e, "name"@)),
            decimals: flexible_u64(field(e, "decimals"@)),
            symbol: text_value(field(e, "symbol"@)),
            total_supply: text_value(field(e, "totalSupply"@)),
            owner: text_value(field(e, "owner"@)),
            txs_count: count_value(field(e, "txs_count"@)),
            transfers_count: count_value(field(e, "transfersCount"@)),
            last_updated: count_value(field(e, "lastUpdated"@)),
            slot: count_value(field(e, "slot"@)),
            storage_total_supply: count_value(field(e, "StorageTotalSupply"@)),
            issuances_count: count_value(field(e, "issuancesCount"@)),
            holders_count: count_value(field(e, "holdersCount"@)),
            image: text_value(field(e, "image"@)),
            description: text_value(field(e, "description"@)),
            website: text_value(field(e, "website"@)),
            telegram: text_value(field(e, "telegram"@)),
            twitter: text_value(field(e, "twitter"@)),
            reddit: text_value(field(e, "reddit"@)),
            facebook: text_value(field(e, "facebook"@)),
            coingecko: text_value(field(e, "coingecko"@)),
            eth_transfer_count: count_value(field(e, "ethTransfersCount"@)),
            price: TokenPrice::value_in(entries(field(e, "price"@))),
            count_ops: count_value(field(e, "countOps"@)),
            public_tags: texts_value(field(e, "publicTags"@)),
            op_count: count_value(field(e, "opCount"@)),
            added: count_value(field(e, "added"@)),
        }
    }

    proof fn lemma_empty_has_no_fault() {
        TokenPrice::lemma_empty_has_no_fault();
    }

    fn decode_entries(e: &Vec<(String, WireValue)>) -> (r: Result<TokenInfo, DecodeError>) {
        let address = plain_text(lookup(e, "address"))?;
        let name = plain_text(lookup(e, "name"))?;
        let decimals = str_or_u64(lookup(e, "decimals"))?;
        let symbol = plain_text(lookup(e, "symbol"))?;
        let total_supply = plain_text(lookup(e, "totalSupply"))?;
        let owner = plain_text(lookup(e, "owner"))?;
        let txs_count = plain_u64(lookup(e, "txs_count"))?;
        let transfers_count = plain_u64(lookup(e, "transfersCount"))?;
        let last_updated = plain_u64(lookup(e, "lastUpdated"))?;
        let slot = plain_u64(lookup(e, "slot"))?;
        let storage_total_supply = plain_u64(lookup(e, "StorageTotalSupply"))?;
        let issuances_count = plain_u64(lookup(e, "issuancesCount"))?;
        let holders_count = plain_u64(lookup(e, "holdersCount"))?;
        let image = plain_text(lookup(e, "image"))?;
        let description = plain_text(lookup(e, "description"))?;
        let website = plain_text(lookup(e, "website"))?;
        let telegram = plain_text(lookup(e, "telegram"))?;
        let twitter = plain_text(lookup(e, "twitter"))?;
        let reddit = plain_text(lookup(e, "reddit"))?;
        let facebook = plain_text(lookup(e, "facebook"))?;
        let coingecko = plain_text(lookup(e, "coingecko"))?;
        let eth_transfer_count = plain_u64(lookup(e, "ethTransfersCount"))?;
        let price = string_or_struct::<TokenPrice>(lookup(e, "price"))?;
        let count_ops = plain_u64(lookup(e, "countOps"))?;
        let public_tags = plain_texts(lookup(e, "publicTags"))?;
        let op_count = plain_u64(lookup(e, "opCount"))?;
        let added = plain_u64(lookup(e, "added"))?;
        Ok(TokenInfo {
            address,
            name,
            decimals,
            symbol,
            total_supply,
            owner,
            txs_count,
            transfers_count,
            last_updated,
            slot,
            storage_total_supply,
            issuances_count,
            holders_count,
            image,
            description,
            website,
            telegram,
            twitter,
            reddit,
            facebook,
            coingecko,
            eth_transfer_count,
            price,
            count_ops,
            public_tags,
            op_count,
            added,
        })
    }
}

impl Default for TokenInfo {
    /// The record in which every field has its zero value.
    fn default() -> (r: TokenInfo)
        ensures
            r.deep_view() == TokenInfo::value_in(Seq::empty()),
    {
        zero::<TokenInfo>()
    }
}

/// The tokens that lead by some measure.
#[derive(Debug, PartialEq, Eq)]
pub struct TopTokens {
    pub tokens: Vec<TokenInfo>,
    /// Sent as `opCount`.
    pub op_count: u64,
}

/// `TopTokens` as plain values.
pub struct TopTokensView {
    pub tokens: Seq<TokenInfoView>,
    pub op_count: u64,
}

impl DeepView for TopTokens {
    type V = TopTokensView;

    open spec fn deep_view(&self) -> TopTokensView {
        TopTokensView {
            tokens: self.tokens.deep_view(),
            op_count: self.op_count,
        }
    }
}

impl Record for TopTokens {
    open spec fn fault_in(e: Entries) -> Option<DecodeError> {
        list_of_fault::<TokenInfo>(field(e, "tokens"@))
            .before(count_fault(field(e, "opCount"@)))
    }

    open spec fn value_in(e: Entries) -> TopTokensView {
        TopTokensView {
            tokens: list_of_value::<TokenInfo>(field(e, "tokens"@)),
            op_count: count_value(field(e, "opCount"@)),
        }
    }

    proof fn lemma_empty_has_no_fault() {
    }

    fn decode_entries(e: &Vec<(String, WireValue)>) -> (r: Result<TopTokens, DecodeError>) {
        let tokens = decode_list::<TokenInfo>(lookup(e, "tokens"))?;
        let op_count = plain_u64(lookup(e, "opCount"))?;
        Ok(TopTokens { tokens, op_count })
    }
}

impl Default for TopTokens {
    /// The record in which every field has its zero value.
    fn default() -> (r: TopTokens)
        ensures
            r.deep_view() == TopTokens::value_in(Seq::empty()),
    {
        zero::<TopTokens>()
    }
}

/// One who holds a token, and how much of it.
#[derive(Debug, PartialEq, Eq)]
pub struct Holder {
    pub address: String,
    pub balance: Number,
    pub share: Number,
}

/// `Holder` as plain values.
pub struct HolderView {
    pub address: Seq<char>,
    pub balance: Number,
    pub share: Number,
}

impl DeepView for Holder {
    type V = HolderView;

    open spec fn deep_view(&self) -> HolderView {
        HolderView {
            address: self.address@,
            balance: self.balance,
            share: self.share,
        }
    }
}

impl Record for Holder {
    open spec fn fault_in(e: Entries) -> Option<DecodeError> {
        text_fault(field(e, "address"@))
            .before(number_fault(field(e, "balance"@)))
            .before(number_fault(field(e, "share"@)))
    }

    open spec fn value_in(e: Entries) -> HolderView {
        HolderView {
            address: text_value(field(e, "address"@)),
            balance: number_value(field(e, "balance"@)),
            share: number_value(field(e, "share"@)),
        }
    }

    proof fn lemma_empty_has_no_fault() {
    }

    fn decode_entries(e: &Vec<(String, WireValue)>) -> (r: Result<Holder, DecodeError>) {
        let address = plain_text(lookup(e, "address"))?;
        let balance = plain_number(lookup(e, "balance"))?;
        let share = plain_number(lookup(e, "share"))?;
        Ok(Holder { address, balance, share })
    }
}

impl Default for Holder {
    /// The record in which every field has its zero value.
    fn default() -> (r: Holder)
        ensures
            r.deep_view() == Holder::value_in(Seq::empty()),
    {
        zero::<Holder>()
    }
}

/// Those who hold most of a token.
#[derive(Debug, PartialEq, Eq)]
pub struct TopTokenHolders {
    pub holders: Vec<Holder>,
}

/// `TopTokenHolders` as plain values.
pub struct TopTokenHoldersView {
    pub holders: Seq<HolderView>,
}

impl DeepView for TopTokenHolders {
    type V = TopTokenHoldersView;

    open spec fn deep_view(&self) -> TopTokenHoldersView {
        TopTokenHoldersView {
            holders: self.holders.deep_view(),
        }
    }
}

impl Record for TopTokenHolders {
    open spec fn fault_in(e: Entries) -> Option<DecodeError> {
        list_of_fault::<Holder>(field(e, "holders"@))
    }

    open spec fn value_in(e: Entries) -> TopTokenHoldersView {
        TopTokenHoldersView {
            holders: list_of_value::<Holder>(field(e, "holders"@)),
        }
    }

    proof fn lemma_empty_has_no_fault() {
    }

    fn decode_entries(e: &Vec<(String, WireValue)>) -> (r: Result<TopTokenHolders, DecodeError>) {
        let holders = decode_list::<Holder>(lookup(e, "holders"))?;
        Ok(TopTokenHolders { holders })
    }
}

impl Default for TopTokenHolders {
    /// The record in which every field has its zero value.
    fn default() -> (r: TopTokenHolders)
        ensures
            r.deep_view() == TopTokenHolders::value_in(Seq::empty()),
    {
        zero::<TopTokenHolders>()
    }
}
} // verus!
