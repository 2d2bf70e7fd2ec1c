//! Request descriptors: where a call goes and what it carries in its query,
//! built from the caller's key, the path arguments and the call's options.

use crate::consts::{API_KEY_PARAM, FREE_KEY, NETWORK};
use crate::text::{
    decimal_string, decimal_text, lemma_decimal_text_nonempty, signed_decimal_string,
    signed_decimal_text,
};
use crate::timestamp::Timestamp;
use vstd::prelude::*;

verus! {

/// One entry of a query: its name and its value.
pub type Param = (Seq<char>, Seq<char>);

/// The most that a call may ask for at once.
pub const LIMIT_MAX: u64 = 1000;

/// The longest stretch of days that a call may ask for.
pub const PERIOD_MAX: u64 = 90;

/// Where a call goes and what it carries.
#[derive(Debug, PartialEq, Eq)]
pub struct RequestConfig {
    /// The base address.
    pub network: String,
    /// The segments of the path, in their order.
    pub routes: Vec<String>,
    /// The entries of the query, in their order.
    pub params: Vec<(String, String)>,
}

/// A `RequestConfig` as plain text.
pub struct RequestConfigView {
    pub network: Seq<char>,
    pub routes: Seq<Seq<char>>,
    pub params: Seq<Param>,
}

impl View for RequestConfig {
    type V = RequestConfigView;

    open spec fn view(&self) -> RequestConfigView {
        RequestConfigView {
            network: self.network@,
            routes: self.routes.deep_view(),
            params: self.params.deep_view(),
        }
    }
}

/// `base`, then each of `segments` behind a `/`.
pub open spec fn joined(base: Seq<char>, segments: Seq<Seq<char>>) -> Seq<char>
    decreases segments.len(),
{
    if segments.len() == 0 {
        base
    } else {
        joined(base, segments.drop_last()) + seq!['/'] + segments.last()
    }
}

/// No entry of `params` is empty in its name or its value, and no name
/// occurs twice.
pub open spec fn canonical(params: Seq<Param>) -> bool {
    &&& forall|i: int|
        0 <= i < params.len() ==> (#[trigger] params[i]).0.len() > 0 && params[i].1.len() > 0
    &&& forall|i: int, j: int|
        0 <= i < j < params.len() ==> (#[trigger] params[i]).0 != (#[trigger] params[j]).0
}

impl RequestConfigView {
    /// The address of the call: the base and the path, without the query.
    pub open spec fn rendered(self) -> Seq<char> {
        joined(self.network, self.routes)
    }
}

impl RequestConfig {
    /// The address of the call: the base and the path, without the query.
    pub fn to_string(&self) -> (s: String)
        ensures
            s@ == self@.rendered(),
    {
        let mut s: String = self.network.clone();
        let mut i: usize = 0;
        assert(self.routes.deep_view().take(0) =~= Seq::<Seq<char>>::empty());
        while i < self.routes.len()
            invariant
                i <= self.routes.len(),
                s@ == joined(self.network@, self.routes.deep_view().take(i as int)),
            decreases self.routes.len() - i,
        {
            proof {
                reveal_strlit("/");
                let done = self.routes.deep_view().take(i as int);
                let next = self.routes.deep_view().take(i + 1);
                assert(next.drop_last() =~= done);
                assert(next.last() == self.routes@[i as int]@);
            }
            s.append("/");
            s.append(self.routes[i].as_str());
            i += 1;
        }
        assert(self.routes.deep_view().take(i as int) =~= self.routes.deep_view());
        s
    }
}

/// The key that is sent: the caller's, or the free one where the caller gave
/// none.
pub open spec fn effective_key(api_key: Seq<char>) -> Seq<char> {
    if api_key.len() == 0 {
        FREE_KEY@
    } else {
        api_key
    }
}

/// The entry that carries the key.
pub open spec fn key_param(api_key: Seq<char>) -> Param {
    (API_KEY_PARAM@, effective_key(api_key))
}

/// A text option: left out where it is empty, else sent as it is.
pub open spec fn text_param(name: Seq<char>, value: Seq<char>) -> Seq<Param> {
    if value.len() == 0 {
        Seq::empty()
    } else {
        seq![(name, value)]
    }
}

/// `value`, but no more than `bound`.
pub open spec fn clamped(value: nat, bound: nat) -> nat {
    if value <= bound {
        value
    } else {
        bound
    }
}

/// A numeric option with an upper bound: left out where it is zero, else sent
/// as the decimal numeral of the value brought under the bound.
pub open spec fn bounded_param(name: Seq<char>, value: nat, bound: nat) -> Seq<Param> {
    if value == 0 {
        Seq::empty()
    } else {
        seq![(name, decimal_text(clamped(value, bound)))]
    }
}

/// A time option: left out at the epoch, else sent as its seconds since the
/// epoch.
pub open spec fn time_param(name: Seq<char>, seconds: int) -> Seq<Param> {
    if seconds == 0 {
        Seq::empty()
    } else {
        seq![(name, signed_decimal_text(seconds))]
    }
}

/// The text of a truth value.
pub open spec fn bool_text(value: bool) -> Seq<char> {
    if value {
        "true"@
    } else {
        "false"@
    }
}

/// A switch: always sent, as `true` or `false`.
pub open spec fn bool_param(name: Seq<char>, value: bool) -> Seq<Param> {
    seq![(name, bool_text(value))]
}

/// The descriptor of a call to `route` with these path arguments and this
/// query.
pub open spec fn request(route: Seq<char>, path: Seq<Seq<char>>, params: Seq<Param>)
    -> RequestConfigView {
    RequestConfigView { network: NETWORK@, routes: seq![route] + path, params }
}

/// The names of the query entries differ from one another, and none is empty.
pub proof fn lemma_param_names()
    ensures
        "apiKey"@.len() > 0,
        "token"@.len() > 0,
        "showETHTotals"@.len() > 0,
        "limit"@.len() > 0,
        "period"@.len() > 0,
        "type"@.len() > 0,
        "timestamp"@.len() > 0,
        "showZeroValues"@.len() > 0,
        "criteria"@.len() > 0,
        "apiKey"@ != "token"@,
        "apiKey"@ != "showETHTotals"@,
        "apiKey"@ != "limit"@,
        "apiKey"@ != "period"@,
        "apiKey"@ != "type"@,
        "apiKey"@ != "timestamp"@,
        "apiKey"@ != "showZeroValues"@,
        "apiKey"@ != "criteria"@,
        "token"@ != "showETHTotals"@,
        "token"@ != "limit"@,
        "token"@ != "period"@,
        "token"@ != "type"@,
        "token"@ != "timestamp"@,
        "token"@ != "showZeroValues"@,
        "token"@ != "criteria"@,
        "showETHTotals"@ != "limit"@,
        "showETHTotals"@ != "period"@,
        "showETHTotals"@ != "type"@,
        "showETHTotals"@ != "timestamp"@,
        "showETHTotals"@ != "showZeroValues"@,
        "showETHTotals"@ != "criteria"@,
        "limit"@ != "period"@,
        "limit"@ != "type"@,
        "limit"@ != "timestamp"@,
        "limit"@ != "showZeroValues"@,
        "limit"@ != "criteria"@,
        "period"@ != "type"@,
        "period"@ != "timestamp"@,
        "period"@ != "showZeroValues"@,
        "period"@ != "criteria"@,
        "type"@ != "timestamp"@,
        "type"@ != "showZeroValues"@,
        "type"@ != "criteria"@,
        "timestamp"@ != "showZeroValues"@,
        "timestamp"@ != "criteria"@,
        "showZeroValues"@ != "criteria"@,
{
    reveal_strlit("apiKey");
    reveal_strlit("token");
    reveal_strlit("showETHTotals");
    reveal_strlit("limit");
    reveal_strlit("period");
    reveal_strlit("type");
    reveal_strlit("timestamp");
    reveal_strlit("showZeroValues");
    reveal_strlit("criteria");
    assert("apiKey"@[0] == 'a');
    assert("period"@[0] == 'p');
    assert("token"@[0] == 't');
    assert("limit"@[0] == 'l');
}

/// Every value that an option is sent with has a character at least.
pub proof fn lemma_values_nonempty(api_key: Seq<char>, number: nat, seconds: int, switch: bool)
    ensures
        effective_key(api_key).len() > 0,
        decimal_text(number).len() > 0,
        signed_decimal_text(seconds).len() > 0,
        bool_text(switch).len() > 0,
{
    reveal_strlit("freekey");
    reveal_strlit("true");
    reveal_strlit("false");
    lemma_decimal_text_nonempty(number);
    if seconds < 0 {
        lemma_decimal_text_nonempty((-seconds) as nat);
    } else {
        lemma_decimal_text_nonempty(seconds as nat);
    }
}

/// The entry that carries the key: the caller's, or the free one where the
/// caller gave none.
pub fn api_key_param(api_key: &str) -> (r: (String, String))
    ensures
        r.deep_view() == key_param(api_key@),
{
    let out = if api_key.is_empty() {
        FREE_KEY.to_string()
    } else {
        api_key.to_string()
    };
    (API_KEY_PARAM.to_string(), out)
}

pub(crate) fn start_params(api_key: &str) -> (params: Vec<(String, String)>)
    ensures
        params.deep_view() == seq![key_param(api_key@)],
{
    let mut params: Vec<(String, String)> = Vec::new();
    params.push(api_key_param(api_key));
    assert(params.deep_view() =~= seq![key_param(api_key@)]);
    params
}

fn push_param(params: &mut Vec<(String, String)>, name: &str, value: String)
    ensures
        final(params).deep_view() == old(params).deep_view() + seq![(name@, value@)],
{
    params.push((name.to_string(), value));
    assert(params.deep_view() =~= old(params).deep_view() + seq![(name@, value@)]);
}

pub(crate) fn push_text(params: &mut Vec<(String, String)>, name: &str, value: &String)
    ensures
        final(params).deep_view() == old(params).deep_view() + text_param(name@, value@),
{
    if !value.as_str().is_empty() {
        push_param(params, name, value.clone());
    } else {
        assert(params.deep_view() =~= old(params).deep_view() + text_param(name@, value@));
    }
}

pub(crate) fn push_bounded(params: &mut Vec<(String, String)>, name: &str, value: u64, bound: u64)
    ensures
        final(params).deep_view() == old(params).deep_view() + bounded_param(
            name@,
            value as nat,
            bound as nat,
        ),
{
    if value != 0 {
        let sent: u64 = if value <= bound {
            value
        } else {
            bound
        };
        push_param(params, name, decimal_string(sent));
    } else {
        assert(params.deep_view() =~= old(params).deep_view() + bounded_param(
            name@,
            value as nat,
            bound as nat,
        ));
    }
}

pub(crate) fn push_time(params: &mut Vec<(String, String)>, name: &str, time: &Timestamp)
    ensures
        final(params).deep_view() == old(params).deep_view() + time_param(name@, time@),
{
    let seconds: i64 = time.timestamp();
    if seconds != 0 {
        push_param(params, name, signed_decimal_string(seconds));
    } else {
        assert(params.deep_view() =~= old(params).deep_view() + time_param(name@, time@));
    }
}

pub(crate) fn push_bool(params: &mut Vec<(String, String)>, name: &str, value: bool)
    ensures
        final(params).deep_view() == old(params).deep_view() + bool_param(name@, value),
{
    let text: String = if value {
        "true".to_string()
    } else {
        "false".to_string()
    };
    push_param(params, name, text);
}

pub(crate) fn assemble(route: &str, path: Option<&str>, params: Vec<(String, String)>) -> (r:
    RequestConfig)
    ensures
        r@ == request(
            route@,
            match path {
                Some(p) => seq![p@],
                None => Seq::empty(),
            },
            params.deep_view(),
        ),
{
    let mut routes: Vec<String> = Vec::new();
    routes.push(route.to_string());
    match path {
        Some(p) => {
            routes.push(p.to_string());
            assert(routes.deep_view() =~= seq![route@] + seq![p@]);
        },
        None => {
            assert(routes.deep_view() =~= seq![route@] + Seq::<Seq<char>>::empty());
        },
    }
    RequestConfig { network: NETWORK.to_string(), routes, params }
}

} // verus!
