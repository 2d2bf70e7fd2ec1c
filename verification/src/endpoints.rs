//! The calls of the service, one builder for each: the key first, then the
//! options of the call in the order in which the call declares them.

use crate::consts::{
    GET_ADDRESS_HISTORY, GET_ADDRESS_INFO_ROUTE, GET_ADDRESS_TRANSACTIONS_ROUTE,
    GET_LAST_BLOCK_ROUTE, GET_TOKENS_NEW_ROUTE, GET_TOKEN_DAILY_TRANSACTION_COUNT_ROUTE,
    GET_TOKEN_HISTORY_ROUTE, GET_TOKEN_INFO_ROUTE, GET_TOKEN_PRICE_HISTORY_GROUPED_ROUTE,
    GET_TOP_ROUTE, GET_TOP_TOKENS_ROUTE, GET_TOP_TOKEN_HOLDERS_ROUTE,
};
use crate::options::{
    GetAddressHistoryParams, GetAddressInfoParams, GetAddressTransactionsParams,
    GetTokenHistoryParams, GetTopParams,
};
use crate::request::{
    assemble, bool_param, bounded_param, canonical, key_param, lemma_param_names,
    lemma_values_nonempty, push_bool, push_bounded, push_text, push_time, request, start_params,
    text_param, time_param, RequestConfig, RequestConfigView, LIMIT_MAX, PERIOD_MAX,
};
use vstd::prelude::*;

verus! {

/// The descriptor of the call for an address.
pub open spec fn address_info_request(
    api_key: Seq<char>,
    address: Seq<char>,
    options: GetAddressInfoParams,
) -> RequestConfigView {
    request(
        GET_ADDRESS_INFO_ROUTE@,
        seq![address],
        seq![key_param(api_key)] + text_param("token"@, options.token@) + bool_param(
            "showETHTotals"@,
            options.show_eth_totals,
        ),
    )
}

/// Describes the call for an address.
pub fn get_address_info_config(
    api_key: &str,
    address: &str,
    in_params: &GetAddressInfoParams,
) -> (r: RequestConfig)
    ensures
        r@ == address_info_request(api_key@, address@, *in_params),
        canonical(r@.params),
{
    let mut params = start_params(api_key);
    push_text(&mut params, "token", &in_params.token);
    push_bool(&mut params, "showETHTotals", in_params.show_eth_totals);
    proof {
        lemma_param_names();
        lemma_values_nonempty(api_key@, 0, 0, in_params.show_eth_totals);
    }
    assemble(GET_ADDRESS_INFO_ROUTE, Some(address), params)
}

/// The descriptor of a call that carries the key and nothing else.
pub open spec fn keyed_request(route: Seq<char>, path: Seq<Seq<char>>, api_key: Seq<char>)
    -> RequestConfigView {
    request(route, path, seq![key_param(api_key)])
}

/// Describes the call for a token.
pub fn get_token_info_config(api_key: &str, address: &str) -> (r: RequestConfig)
    ensures
        r@ == keyed_request(GET_TOKEN_INFO_ROUTE@, seq![address@], api_key@),
        canonical(r@.params),
{
    let params = start_params(api_key);
    proof {
        lemma_param_names();
        lemma_values_nonempty(api_key@, 0, 0, false);
    }
    assemble(GET_TOKEN_INFO_ROUTE, Some(address), params)
}

/// The descriptor of a call that carries the key and one bounded number.
pub open spec fn bounded_request(
    route: Seq<char>,
    address: Seq<char>,
    api_key: Seq<char>,
    name: Seq<char>,
    value: nat,
    bound: nat,
) -> RequestConfigView {
    request(route, seq![address], seq![key_param(api_key)] + bounded_param(name, value, bound))
}

/// Describes the call for those who hold most of a token.
pub fn get_top_token_holders_config(api_key: &str, address: &str, limit: u64) -> (r: RequestConfig)
    ensures
        r@ == bounded_request(
            GET_TOP_TOKEN_HOLDERS_ROUTE@,
            address@,
            api_key@,
            "limit"@,
            limit as nat,
            LIMIT_MAX as nat,
        ),
        canonical(r@.params),
{
    let mut params = start_params(api_key);
    push_bounded(&mut params, "limit", limit, LIMIT_MAX);
    proof {
        lemma_param_names();
        lemma_values_nonempty(api_key@, limit as nat, 0, false);
        lemma_values_nonempty(api_key@, LIMIT_MAX as nat, 0, false);
    }
    assemble(GET_TOP_TOKEN_HOLDERS_ROUTE, Some(address), params)
}

/// Describes the call for the newest block.
pub fn get_last_block_config(api_key: &str) -> (r: RequestConfig)
    ensures
        r@ == keyed_request(GET_LAST_BLOCK_ROUTE@, Seq::empty(), api_key@),
        canonical(r@.params),
{
    let params = start_params(api_key);
    proof {
        lemma_param_names();
        lemma_values_nonempty(api_key@, 0, 0, false);
    }
    assemble(GET_LAST_BLOCK_ROUTE, None, params)
}

/// Describes the call for the newest tokens.
pub fn get_tokens_new_config(api_key: &str) -> (r: RequestConfig)
    ensures
        r@ == keyed_request(GET_TOKENS_NEW_ROUTE@, Seq::empty(), api_key@),
        canonical(r@.params),
{
    let params = start_params(api_key);
    proof {
        lemma_param_names();
        lemma_values_nonempty(api_key@, 0, 0, false);
    }
    assemble(GET_TOKENS_NEW_ROUTE, None, params)
}

/// Describes the call for the transactions of a token, counted day by day.
pub fn get_token_daily_transaction_count_config(
    api_key: &str,
    address: &str,
    period: u64,
) -> (r: RequestConfig)
    ensures
        r@ == bounded_request(
            GET_TOKEN_DAILY_TRANSACTION_COUNT_ROUTE@,
            address@,
            api_key@,
            "period"@,
            period as nat,
            PERIOD_MAX as nat,
        ),
        canonical(r@.params),
{
    let mut params = start_params(api_key);
    push_bounded(&mut params, "period", period, PERIOD_MAX);
    proof {
        lemma_param_names();
        lemma_values_nonempty(api_key@, period as nat, 0, false);
        lemma_values_nonempty(api_key@, PERIOD_MAX as nat, 0, false);
    }
    assemble(GET_TOKEN_DAILY_TRANSACTION_COUNT_ROUTE, Some(address), params)
}

/// The descriptor of the call for the operations on a token.
pub open spec fn token_history_request(
    api_key: Seq<char>,
    address: Seq<char>,
    options: GetTokenHistoryParams,
) -> RequestConfigView {
    request(
        GET_TOKEN_HISTORY_ROUTE@,
        seq![address],
        seq![key_param(api_key)] + bounded_param(
            "limit"@,
            options.limit as nat,
            LIMIT_MAX as nat,
        ) + text_param("type"@, options.history_type@) + time_param(
            "timestamp"@,
            options.timestamp@,
        ),
    )
}

/// Describes the call for the operations on a token.
pub fn get_token_history_config(
    api_key: &str,
    address: &str,
    in_params: &GetTokenHistoryParams,
) -> (r: RequestConfig)
    ensures
        r@ == token_history_request(api_key@, address@, *in_params),
        canonical(r@.params),
{
    let mut params = start_params(api_key);
    push_bounded(&mut params, "limit", in_params.limit, LIMIT_MAX);
    push_text(&mut params, "type", &in_params.history_type);
    push_time(&mut params, "timestamp", &in_params.timestamp);
    proof {
        lemma_param_names();
        lemma_values_nonempty(api_key@, in_params.limit as nat, in_params.timestamp@, false);
        lemma_values_nonempty(api_key@, LIMIT_MAX as nat, 0, false);
    }
    assemble(GET_TOKEN_HISTORY_ROUTE, Some(address), params)
}

/// The descriptor of the call for the operations of an address.
pub open spec fn address_history_request(
    api_key: Seq<char>,
    address: Seq<char>,
    options: GetAddressHistoryParams,
) -> RequestConfigView {
    request(
        GET_ADDRESS_HISTORY@,
        seq![address],
        seq![key_param(api_key)] + bounded_param(
            "limit"@,
            options.limit as nat,
            LIMIT_MAX as nat,
        ) + text_param("type"@, options.history_type@) + time_param(
            "timestamp"@,
            options.timestamp@,
        ) + text_param("token"@, options.token@),
    )
}

/// Describes the call for the operations of an address.
pub fn get_address_history_config(
    api_key: &str,
    address: &str,
    in_params: &GetAddressHistoryParams,
) -> (r: RequestConfig)
    ensures
        r@ == address_history_request(api_key@, address@, *in_params),
        canonical(r@.params),
{
    let mut params = start_params(api_key);
    push_bounded(&mut params, "limit", in_params.limit, LIMIT_MAX);
    push_text(&mut params, "type", &in_params.history_type);
    push_time(&mut params, "timestamp", &in_params.timestamp);
    push_text(&mut params, "token", &in_params.token);
    proof {
        lemma_param_names();
        lemma_values_nonempty(api_key@, in_params.limit as nat, in_params.timestamp@, false);
        lemma_values_nonempty(api_key@, LIMIT_MAX as nat, 0, false);
    }
    assemble(GET_ADDRESS_HISTORY, Some(address), params)
}

/// The descriptor of the call for the transactions of an address.
pub open spec fn address_transactions_request(
    api_key: Seq<char>,
    address: Seq<char>,
    options: GetAddressTransactionsParams,
) -> RequestConfigView {
    request(
        GET_ADDRESS_TRANSACTIONS_ROUTE@,
        seq![address],
        seq![key_param(api_key)] + bounded_param(
            "limit"@,
            options.limit as nat,
            LIMIT_MAX as nat,
        ) + time_param("timestamp"@, options.timestamp@) + bool_param(
            "showZeroValues"@,
            options.show_zero_values,
        ),
    )
}

/// Describes the call for the transactions of an address.
pub fn get_address_transactions_config(
    api_key: &str,
    address: &str,
    in_params: &GetAddressTransactionsParams,
) -> (r: RequestConfig)
    ensures
        r@ == address_transactions_request(api_key@, address@, *in_params),
        canonical(r@.params),
{
    let mut params = start_params(api_key);
    push_bounded(&mut params, "limit", in_params.limit, LIMIT_MAX);
    push_time(&mut params, "timestamp", &in_params.timestamp);
    push_bool(&mut params, "showZeroValues", in_params.show_zero_values);
    proof {
        lemma_param_names();
        lemma_values_nonempty(
            api_key@,
            in_params.limit as nat,
            in_params.timestamp@,
            in_params.show_zero_values,
        );
        lemma_values_nonempty(api_key@, LIMIT_MAX as nat, 0, false);
    }
    assemble(GET_ADDRESS_TRANSACTIONS_ROUTE, Some(address), params)
}

/// Describes the call for the tokens that are traded most.
pub fn get_top_tokens_config(api_key: &str) -> (r: RequestConfig)
    ensures
        r@ == keyed_request(GET_TOP_TOKENS_ROUTE@, Seq::empty(), api_key@),
        canonical(r@.params),
{
    let params = start_params(api_key);
    proof {
        lemma_param_names();
        lemma_values_nonempty(api_key@, 0, 0, false);
    }
    assemble(GET_TOP_TOKENS_ROUTE, None, params)
}

/// The descriptor of the call for the tokens that lead by some measure.
pub open spec fn top_request(api_key: Seq<char>, options: GetTopParams) -> RequestConfigView {
    request(
        GET_TOP_ROUTE@,
        Seq::empty(),
        seq![key_param(api_key)] + bounded_param(
            "limit"@,
            options.limit as nat,
            LIMIT_MAX as nat,
        ) + text_param("criteria"@, options.criteria@),
    )
}

/// Describes the call for the tokens that lead by some measure.
pub fn get_top_config(api_key: &str, in_params: &GetTopParams) -> (r: RequestConfig)
    ensures
        r@ == top_request(api_key@, *in_params),
        canonical(r@.params),
{
    let mut params = start_params(api_key);
    push_bounded(&mut params, "limit", in_params.limit, LIMIT_MAX);
    push_text(&mut params, "criteria", &in_params.criteria);
    proof {
        lemma_param_names();
        lemma_values_nonempty(api_key@, in_params.limit as nat, 0, false);
        lemma_values_nonempty(api_key@, LIMIT_MAX as nat, 0, false);
    }
    assemble(GET_TOP_ROUTE, None, params)
}

/// Describes the call for the prices of a token, day by day.
pub fn get_token_daily_price_history_config(
    api_key: &str,
    address: &str,
    period: u64,
) -> (r: RequestConfig)
    ensures
        r@ == bounded_request(
            GET_TOKEN_PRICE_HISTORY_GROUPED_ROUTE@,
            address@,
            api_key@,
            "period"@,
            period as nat,
            PERIOD_MAX as nat,
        ),
        canonical(r@.params),
{
    let mut params = start_params(api_key);
    push_bounded(&mut params, "period", period, PERIOD_MAX);
    proof {
        lemma_param_names();
        lemma_values_nonempty(api_key@, period as nat, 0, false);
        lemma_values_nonempty(api_key@, PERIOD_MAX as nat, 0, false);
    }
    assemble(GET_TOKEN_PRICE_HISTORY_GROUPED_ROUTE, Some(address), params)
}

} // verus!
