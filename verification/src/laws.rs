//! What holds of every request descriptor that the library builds.

use crate::options::{
    GetAddressHistoryParams, GetAddressInfoParams, GetAddressTransactionsParams,
    GetTokenHistoryParams, GetTopParams,
};
use crate::endpoints::{
    address_history_request, address_info_request, address_transactions_request, bounded_request,
    keyed_request, token_history_request, top_request,
};
use crate::request::{
    bool_param, bool_text, bounded_param, effective_key, key_param, lemma_param_names,
    text_param, time_param, Param, RequestConfig, LIMIT_MAX,
};
use crate::leaf::{flexible_seconds, flexible_u128, flexible_u64, list_fault};
use crate::record::{entries, placeholder_fault, record_fault, Record};
use crate::text::{decimal_text, lemma_decimal_round_trip, signed_decimal_text, unsigned_value};
use crate::timestamp::calendar_seconds;
use crate::wire::{Number, WireValue};
use vstd::prelude::*;

verus! {

/// The value that a query sends under `name`: that of the first entry with
/// this name, `None` where the query has no such entry.
pub open spec fn sent(params: Seq<Param>, name: Seq<char>) -> Option<Seq<char>>
    decreases params.len(),
{
    if params.len() == 0 {
        None
    } else if params[0].0 == name {
        Some(params[0].1)
    } else {
        sent(params.drop_first(), name)
    }
}

/// What is sent for a text option: nothing where it is empty, else the text
/// itself.
pub open spec fn sent_text(value: Seq<char>) -> Option<Seq<char>> {
    if value.len() == 0 {
        None
    } else {
        Some(value)
    }
}

/// What is sent for a numeric option with an upper bound: nothing where it
/// is zero, its numeral up to the bound, the numeral of the bound above it.
pub open spec fn sent_bounded(value: nat, bound: nat) -> Option<Seq<char>> {
    if value == 0 {
        None
    } else if value <= bound {
        Some(decimal_text(value))
    } else {
        Some(decimal_text(bound))
    }
}

/// What is sent for a time option: nothing at the epoch, else its seconds.
pub open spec fn sent_time(seconds: int) -> Option<Seq<char>> {
    if seconds == 0 {
        None
    } else {
        Some(signed_decimal_text(seconds))
    }
}

/// A query made of two parts sends under a name what the first part sends,
/// and what the second sends where the first sends nothing.
pub proof fn lemma_sent_concat(a: Seq<Param>, b: Seq<Param>, name: Seq<char>)
    ensures
        sent(a + b, name) == if sent(a, name) is Some {
            sent(a, name)
        } else {
            sent(b, name)
        },
    decreases a.len(),
{
    if a.len() == 0 {
        assert(a + b =~= b);
    } else {
        assert((a + b).drop_first() =~= a.drop_first() + b);
        lemma_sent_concat(a.drop_first(), b, name);
    }
}

/// A query of one entry sends that entry's value under its name and nothing
/// under any other; the empty query sends nothing.
pub proof fn lemma_sent_single(entry: Param)
    ensures
        forall|name: Seq<char>| #[trigger]
            sent(seq![entry], name) == if entry.0 == name {
                Some(entry.1)
            } else {
                None
            },
        forall|name: Seq<char>| #[trigger] sent(Seq::<Param>::empty(), name) is None,
{
    assert(seq![entry].drop_first() =~= Seq::<Param>::empty());
    reveal_with_fuel(sent, 2);
}

/// What a text option sends.
pub proof fn lemma_sent_text(part: Seq<char>, text: Seq<char>)
    ensures
        forall|name: Seq<char>| #[trigger]
            sent(text_param(part, text), name) == if part == name {
                sent_text(text)
            } else {
                None
            },
{
    lemma_sent_single((part, text));
}

/// What a numeric option with an upper bound sends: nothing where it is zero,
/// its own numeral up to the bound, and the numeral of the bound above it.
pub proof fn lemma_sent_bounded(part: Seq<char>, value: nat, bound: nat)
    ensures
        forall|name: Seq<char>| #[trigger]
            sent(bounded_param(part, value, bound), name) == if part == name {
                sent_bounded(value, bound)
            } else {
                None
            },
{
    lemma_sent_single((part, decimal_text(value)));
    lemma_sent_single((part, decimal_text(bound)));
}

/// What a time option sends.
pub proof fn lemma_sent_time(part: Seq<char>, seconds: int)
    ensures
        forall|name: Seq<char>| #[trigger]
            sent(time_param(part, seconds), name) == if part == name {
                sent_time(seconds)
            } else {
                None
            },
{
    lemma_sent_single((part, signed_decimal_text(seconds)));
}

/// What a switch sends.
pub proof fn lemma_sent_bool(part: Seq<char>, switch: bool)
    ensures
        forall|name: Seq<char>| #[trigger]
            sent(bool_param(part, switch), name) == if part == name {
                Some(bool_text(switch))
            } else {
                None
            },
{
    lemma_sent_single((part, bool_text(switch)));
}

/// What the entry of the key sends: the caller's key, or the free key where
/// the caller gave none.
pub proof fn lemma_sent_key(api_key: Seq<char>)
    ensures
        forall|name: Seq<char>| #[trigger]
            sent(seq![key_param(api_key)], name) == if name == "apiKey"@ {
                Some(effective_key(api_key))
            } else {
                None
            },
        api_key.len() == 0 ==> effective_key(api_key) == "freekey"@,
        api_key.len() > 0 ==> effective_key(api_key) == api_key,
{
    lemma_sent_single(key_param(api_key));
}

/// A query of up to five parts sends under a name what the first of them
/// that sends anything under it sends.
pub proof fn lemma_sent_parts(
    a: Seq<Param>,
    b: Seq<Param>,
    c: Seq<Param>,
    d: Seq<Param>,
    e: Seq<Param>,
)
    ensures
        forall|name: Seq<char>| #[trigger]
            sent(a + b + c + d + e, name) == if sent(a, name) is Some {
                sent(a, name)
            } else if sent(b, name) is Some {
                sent(b, name)
            } else if sent(c, name) is Some {
                sent(c, name)
            } else if sent(d, name) is Some {
                sent(d, name)
            } else {
                sent(e, name)
            },
{
    assert forall|name: Seq<char>| #[trigger]
        sent(a + b + c + d + e, name) == if sent(a, name) is Some {
            sent(a, name)
        } else if sent(b, name) is Some {
            sent(b, name)
        } else if sent(c, name) is Some {
            sent(c, name)
        } else if sent(d, name) is Some {
            sent(d, name)
        } else {
            sent(e, name)
        } by {
        lemma_sent_concat(a, b, name);
        lemma_sent_concat(a + b, c, name);
        lemma_sent_concat(a + b + c, d, name);
        lemma_sent_concat(a + b + c + d, e, name);
    }
}

/// A call that carries nothing but the key sends it first.
pub proof fn lemma_keyed_request(route: Seq<char>, path: Seq<Seq<char>>, api_key: Seq<char>)
    ensures
        ({
            let q = keyed_request(route, path, api_key).params;
            &&& q[0] == key_param(api_key)
            &&& sent(q, "apiKey"@) == Some(effective_key(api_key))
        }),
{
    lemma_sent_key(api_key);
}

/// A call with one bounded number sends the key first; it leaves the number
/// out where it is zero, sends it unchanged up to the bound, and sends the
/// bound above it.
pub proof fn lemma_bounded_request(
    route: Seq<char>,
    address: Seq<char>,
    api_key: Seq<char>,
    name: Seq<char>,
    value: nat,
    bound: nat,
)
    requires
        name != "apiKey"@,
    ensures
        ({
            let q = bounded_request(route, address, api_key, name, value, bound).params;
            &&& q[0] == key_param(api_key)
            &&& sent(q, "apiKey"@) == Some(effective_key(api_key))
            &&& sent(q, name) == sent_bounded(value, bound)
        }),
{
    let a = seq![key_param(api_key)];
    let b = bounded_param(name, value, bound);
    let none = Seq::<Param>::empty();
    lemma_sent_key(api_key);
    lemma_sent_bounded(name, value, bound);
    lemma_sent_parts(a, b, none, none, none);
    assert(a + b + none + none + none =~= a + b);
}

/// The call for an address sends the key first, the token where one is
/// given, and the switch always.
pub proof fn lemma_address_info_request(
    api_key: Seq<char>,
    address: Seq<char>,
    options: GetAddressInfoParams,
)
    ensures
        ({
            let q = address_info_request(api_key, address, options).params;
            &&& q[0] == key_param(api_key)
            &&& sent(q, "apiKey"@) == Some(effective_key(api_key))
            &&& sent(q, "token"@) == sent_text(options.token@)
            &&& sent(q, "showETHTotals"@) == Some(bool_text(options.show_eth_totals))
        }),
{
    let a = seq![key_param(api_key)];
    let b = text_param("token"@, options.token@);
    let c = bool_param("showETHTotals"@, options.show_eth_totals);
    let none = Seq::<Param>::empty();
    lemma_param_names();
    lemma_sent_key(api_key);
    lemma_sent_text("token"@, options.token@);
    lemma_sent_bool("showETHTotals"@, options.show_eth_totals);
    lemma_sent_parts(a, b, c, none, none);
    assert(a + b + c + none + none =~= a + b + c);
}

/// The call for the operations on a token sends the key first, the limit
/// where it is not zero and never above a thousand, and the type and the
/// time where they are given.
pub proof fn lemma_token_history_request(
    api_key: Seq<char>,
    address: Seq<char>,
    options: GetTokenHistoryParams,
)
    ensures
        ({
            let q = token_history_request(api_key, address, options).params;
            &&& q[0] == key_param(api_key)
            &&& sent(q, "apiKey"@) == Some(effective_key(api_key))
            &&& sent(q, "limit"@) == sent_bounded(options.limit as nat, 1000)
            &&& sent(q, "type"@) == sent_text(options.history_type@)
            &&& sent(q, "timestamp"@) == sent_time(options.timestamp@)
        }),
{
    let a = seq![key_param(api_key)];
    let b = bounded_param("limit"@, options.limit as nat, LIMIT_MAX as nat);
    let c = text_param("type"@, options.history_type@);
    let d = time_param("timestamp"@, options.timestamp@);
    let none = Seq::<Param>::empty();
    lemma_param_names();
    lemma_sent_key(api_key);
    lemma_sent_bounded("limit"@, options.limit as nat, LIMIT_MAX as nat);
    lemma_sent_text("type"@, options.history_type@);
    lemma_sent_time("timestamp"@, options.timestamp@);
    lemma_sent_parts(a, b, c, d, none);
    assert(a + b + c + d + none =~= a + b + c + d);
}

/// The call for the operations of an address sends the key first, the limit
/// where it is not zero and never above a thousand, and the type, the time
/// and the token where they are given.
pub proof fn lemma_address_history_request(
    api_key: Seq<char>,
    address: Seq<char>,
    options: GetAddressHistoryParams,
)
    ensures
        ({
            let q = address_history_request(api_key, address, options).params;
            &&& q[0] == key_param(api_key)
            &&& sent(q, "apiKey"@) == Some(effective_key(api_key))
            &&& sent(q, "limit"@) == sent_bounded(options.limit as nat, 1000)
            &&& sent(q, "type"@) == sent_text(options.history_type@)
            &&& sent(q, "timestamp"@) == sent_time(options.timestamp@)
            &&& sent(q, "token"@) == sent_text(options.token@)
        }),
{
    let a = seq![key_param(api_key)];
    let b = bounded_param("limit"@, options.limit as nat, LIMIT_MAX as nat);
    let c = text_param("type"@, options.history_type@);
    let d = time_param("timestamp"@, options.timestamp@);
    let e = text_param("token"@, options.token@);
    lemma_param_names();
    lemma_sent_key(api_key);
    lemma_sent_bounded("limit"@, options.limit as nat, LIMIT_MAX as nat);
    lemma_sent_text("type"@, options.history_type@);
    lemma_sent_time("timestamp"@, options.timestamp@);
    lemma_sent_text("token"@, options.token@);
    lemma_sent_parts(a, b, c, d, e);
}

/// The call for the transactions of an address sends the key first, the
/// limit where it is not zero and never above a thousand, the time where it
/// is given, and the switch always.
pub proof fn lemma_address_transactions_request(
    api_key: Seq<char>,
    address: Seq<char>,
    options: GetAddressTransactionsParams,
)
    ensures
        ({
            let q = address_transactions_request(api_key, address, options).params;
            &&& q[0] == key_param(api_key)
            &&& sent(q, "apiKey"@) == Some(effective_key(api_key))
            &&& sent(q, "limit"@) == sent_bounded(options.limit as nat, 1000)
            &&& sent(q, "timestamp"@) == sent_time(options.timestamp@)
            &&& sent(q, "showZeroValues"@) == Some(bool_text(options.show_zero_values))
        }),
{
    let a = seq![key_param(api_key)];
    let b = bounded_param("limit"@, options.limit as nat, LIMIT_MAX as nat);
    let c = time_param("timestamp"@, options.timestamp@);
    let d = bool_param("showZeroValues"@, options.show_zero_values);
    let none = Seq::<Param>::empty();
    lemma_param_names();
    lemma_sent_key(api_key);
    lemma_sent_bounded("limit"@, options.limit as nat, LIMIT_MAX as nat);
    lemma_sent_time("timestamp"@, options.timestamp@);
    lemma_sent_bool("showZeroValues"@, options.show_zero_values);
    lemma_sent_parts(a, b, c, d, none);
    assert(a + b + c + d + none =~= a + b + c + d);
}

/// The call for the leading tokens sends the key first, the limit where it
/// is not zero and never above a thousand, and the measure where one is
/// given.
pub proof fn lemma_top_request(api_key: Seq<char>, options: GetTopParams)
    ensures
        ({
            let q = top_request(api_key, options).params;
            &&& q[0] == key_param(api_key)
            &&& sent(q, "apiKey"@) == Some(effective_key(api_key))
            &&& sent(q, "limit"@) == sent_bounded(options.limit as nat, 1000)
            &&& sent(q, "criteria"@) == sent_text(options.criteria@)
        }),
{
    let a = seq![key_param(api_key)];
    let b = bounded_param("limit"@, options.limit as nat, LIMIT_MAX as nat);
    let c = text_param("criteria"@, options.criteria@);
    let none = Seq::<Param>::empty();
    lemma_param_names();
    lemma_sent_key(api_key);
    lemma_sent_bounded("limit"@, options.limit as nat, LIMIT_MAX as nat);
    lemma_sent_text("criteria"@, options.criteria@);
    lemma_sent_parts(a, b, c, none, none);
    assert(a + b + c + none + none =~= a + b + c);
}

/// Two descriptors that are seen alike, as any two built from the same key,
/// path arguments and options are, have the same query in the same order and
/// the same address.
pub proof fn lemma_same_inputs_same_request(first: RequestConfig, second: RequestConfig)
    requires
        first@ == second@,
    ensures
        first@.params == second@.params,
        first@.rendered() == second@.rendered(),
{
}

/// A count reads alike whether it comes as a number or as the text of its
/// numeral, and a text that is no numeral reads as zero. No number and no
/// text is refused.
pub proof fn lemma_count_as_number_or_text(n: u64, text: String)
    ensures
        flexible_u64(WireValue::Number(Number::Unsigned(n as u128))) == n,
        text@ == decimal_text(n as nat) ==> flexible_u64(WireValue::Text(text)) == n,
        unsigned_value(text@) is None ==> flexible_u64(WireValue::Text(text)) == 0,
        list_fault(WireValue::Number(Number::Unsigned(n as u128))) is None,
        list_fault(WireValue::Text(text)) is None,
{
    lemma_decimal_round_trip(n as nat);
}

/// An amount reads alike whether it comes as a number or as the text of a
/// numeral for it.
pub proof fn lemma_amount_as_number_or_text(n: u128, text: String)
    ensures
        flexible_u128(WireValue::Number(Number::Unsigned(n))) == n,
        unsigned_value(text@) == Some(n as nat) ==> flexible_u128(WireValue::Text(text)) == n,
        unsigned_value(text@) is None ==> flexible_u128(WireValue::Text(text)) == 0,
{
}

/// A time reads alike whether it comes as seconds since the epoch or as a
/// calendar text that names the same instant, and a text that names no
/// instant reads as the epoch. No number and no text is refused.
pub proof fn lemma_time_as_seconds_or_text(seconds: i64, text: String)
    ensures
        flexible_seconds(WireValue::Number(Number::Signed(seconds as i128))) == seconds,
        calendar_seconds(text@) == Some(seconds) ==> flexible_seconds(WireValue::Text(text))
            == seconds,
        calendar_seconds(text@) is None ==> flexible_seconds(WireValue::Text(text)) == 0,
        list_fault(WireValue::Number(Number::Signed(seconds as i128))) is None,
        list_fault(WireValue::Text(text)) is None,
{
}

/// Where the service sends a scalar in place of a record, or nothing, the
/// record is read with every field at its zero value, and without a fault.
pub proof fn lemma_placeholder_reads_as_zero<T: Record>(v: WireValue)
    requires
        !(v is Struct),
        !(v is List),
    ensures
        placeholder_fault::<T>(v) is None,
        T::value_in(entries(v)) == T::value_in(Seq::empty()),
        record_fault::<T>(WireValue::Absent) is None,
{
    T::lemma_empty_has_no_fault();
}

} // verus!
