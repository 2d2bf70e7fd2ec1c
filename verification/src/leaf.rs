//! Reading one value of an answer: the tolerant readers, which put up with
//! the forms in which the service is known to send a number or a time, and the
//! plain ones, which take a value of one kind only.
//!
//! Every reader is described by two functions of the value read: its fault,
//! which is `None` where the value can be read, and what is read out of it.
//! A value that is absent has no fault and reads as zero, as the empty text,
//! as `false` or as the empty list.

use crate::text::{parse_unsigned, unsigned_value_up_to};
use crate::timestamp::{text_seconds, Timestamp};
use crate::wire::{DecodeError, Number, WireValue};
use vstd::prelude::*;

verus! {

/// Faults in the order in which a reader meets them.
pub trait Fault: Sized {
    /// `self` where it is a fault, `later` where it is none.
    spec fn before(self, later: Self) -> Self;
}

impl Fault for Option<DecodeError> {
    open spec fn before(self, later: Option<DecodeError>) -> Option<DecodeError> {
        if self is Some {
            self
        } else {
            later
        }
    }
}

/// `r` is the outcome of a reader with this fault and this value: the fault
/// where there is one, else something that is seen as the value.
pub open spec fn reads<T: DeepView>(
    r: Result<T, DecodeError>,
    fault: Option<DecodeError>,
    value: T::V,
) -> bool {
    match r {
        Ok(x) => fault is None && x.deep_view() == value,
        Err(e) => fault == Some(e),
    }
}

/// The fault of the tolerant readers: they refuse a list and nothing else.
pub open spec fn list_fault(v: WireValue) -> Option<DecodeError> {
    if v is List {
        Some(v.unexpected())
    } else {
        None
    }
}

/// What a tolerant reader makes of `v` as a number from zero to `max`: a whole
/// number in that range is itself, a text is the number that it denotes in
/// that range, and anything else is zero.
pub open spec fn flexible_whole(v: WireValue, max: nat) -> nat {
    match v {
        WireValue::Number(n) => match n.integer_within(0, max as int) {
            Some(i) => i as nat,
            None => 0,
        },
        WireValue::Text(s) => match unsigned_value_up_to(s@, max) {
            Some(i) => i,
            None => 0,
        },
        _ => 0,
    }
}

/// What the tolerant reader of times makes of `v` in seconds since the epoch:
/// a whole number that an `i64` holds is itself, a text is the instant that it
/// names, and anything else is the epoch.
pub open spec fn flexible_seconds(v: WireValue) -> int {
    match v {
        WireValue::Number(n) => match n.integer_within(i64::MIN as int, i64::MAX as int) {
            Some(i) => i,
            None => 0,
        },
        WireValue::Text(s) => text_seconds(s@),
        _ => 0,
    }
}

/// What the tolerant reader of counts reads.
pub open spec fn flexible_u64(v: WireValue) -> u64 {
    flexible_whole(v, u64::MAX as nat) as u64
}

/// What the tolerant reader of amounts reads.
pub open spec fn flexible_u128(v: WireValue) -> u128 {
    flexible_whole(v, u128::MAX as nat) as u128
}

/// Reads a count that may come as a number or as a text.
pub fn str_or_u64(v: &WireValue) -> (r: Result<u64, DecodeError>)
    ensures
        reads(r, list_fault(*v), flexible_u64(*v)),
{
    match v {
        WireValue::Number(n) => match n.to_u64() {
            Some(i) => Ok(i),
            None => Ok(0),
        },
        WireValue::Text(s) => match parse_unsigned(s.as_str()) {
            Some(i) => if i <= u64::MAX as u128 {
                Ok(i as u64)
            } else {
                Ok(0)
            },
            None => Ok(0),
        },
        WireValue::List(_) => Err(v.reject()),
        _ => Ok(0),
    }
}

/// Reads an amount that may come as a number or as a text.
pub fn str_or_u128(v: &WireValue) -> (r: Result<u128, DecodeError>)
    ensures
        reads(r, list_fault(*v), flexible_u128(*v)),
{
    match v {
        WireValue::Number(n) => match n.to_u128() {
            Some(i) => Ok(i),
            None => Ok(0),
        },
        WireValue::Text(s) => match parse_unsigned(s.as_str()) {
            Some(i) => Ok(i),
            None => Ok(0),
        },
        WireValue::List(_) => Err(v.reject()),
        _ => Ok(0),
    }
}

/// Reads a time that may come as seconds since the epoch or as a calendar
/// text.
pub fn date_or_timestamp(v: &WireValue) -> (r: Result<Timestamp, DecodeError>)
    ensures
        reads(r, list_fault(*v), flexible_seconds(*v)),
{
    match v {
        WireValue::Number(n) => match n.to_i64() {
            Some(seconds) => Ok(Timestamp::from_seconds(seconds)),
            None => Ok(Timestamp::default()),
        },
        WireValue::Text(s) => Ok(Timestamp::from_text(s.as_str())),
        WireValue::List(_) => Err(v.reject()),
        _ => Ok(Timestamp::default()),
    }
}

/// The fault of a plain reader of whole numbers from zero to `max`.
pub open spec fn whole_fault(v: WireValue, max: nat) -> Option<DecodeError> {
    match v {
        WireValue::Absent => None,
        WireValue::Number(n) => if n.integer_within(0, max as int) is Some {
            None
        } else {
            Some(DecodeError::OutOfRange)
        },
        _ => Some(v.unexpected()),
    }
}

/// What a plain reader of whole numbers from zero to `max` reads.
pub open spec fn whole_value(v: WireValue, max: nat) -> nat {
    match v {
        WireValue::Number(n) => match n.integer_within(0, max as int) {
            Some(i) => i as nat,
            None => 0,
        },
        _ => 0,
    }
}

/// The fault of the plain reader of counts.
pub open spec fn count_fault(v: WireValue) -> Option<DecodeError> {
    whole_fault(v, u64::MAX as nat)
}

/// What the plain reader of counts reads.
pub open spec fn count_value(v: WireValue) -> u64 {
    whole_value(v, u64::MAX as nat) as u64
}

/// Reads a count that comes as a number.
pub fn plain_u64(v: &WireValue) -> (r: Result<u64, DecodeError>)
    ensures
        reads(r, count_fault(*v), count_value(*v)),
{
    match v {
        WireValue::Absent => Ok(0),
        WireValue::Number(n) => match n.to_u64() {
            Some(i) => Ok(i),
            None => Err(DecodeError::OutOfRange),
        },
        _ => Err(v.reject()),
    }
}

/// The fault of the reader that takes values of one kind, or none.
pub open spec fn kind_fault(v: WireValue, taken: bool) -> Option<DecodeError> {
    if v is Absent || taken {
        None
    } else {
        Some(v.unexpected())
    }
}

/// The fault of the plain reader of numbers.
pub open spec fn number_fault(v: WireValue) -> Option<DecodeError> {
    kind_fault(v, v is Number)
}

/// What the plain reader of numbers reads.
pub open spec fn number_value(v: WireValue) -> Number {
    match v {
        WireValue::Number(n) => n,
        _ => Number::zero(),
    }
}

/// Reads a number as it stands.
pub fn plain_number(v: &WireValue) -> (r: Result<Number, DecodeError>)
    ensures
        reads(r, number_fault(*v), number_value(*v)),
{
    match v {
        WireValue::Absent => Ok(Number::default()),
        WireValue::Number(n) => Ok(*n),
        _ => Err(v.reject()),
    }
}

/// The fault of the plain reader of truth values.
pub open spec fn bool_fault(v: WireValue) -> Option<DecodeError> {
    kind_fault(v, v is Bool)
}

/// What the plain reader of truth values reads.
pub open spec fn bool_value(v: WireValue) -> bool {
    match v {
        WireValue::Bool(b) => b,
        _ => false,
    }
}

/// Reads a truth value.
pub fn plain_bool(v: &WireValue) -> (r: Result<bool, DecodeError>)
    ensures
        reads(r, bool_fault(*v), bool_value(*v)),
{
    match v {
        WireValue::Absent => Ok(false),
        WireValue::Bool(b) => Ok(*b),
        _ => Err(v.reject()),
    }
}

/// The fault of the plain reader of texts.
pub open spec fn text_fault(v: WireValue) -> Option<DecodeError> {
    kind_fault(v, v is Text)
}

/// What the plain reader of texts reads.
pub open spec fn text_value(v: WireValue) -> Seq<char> {
    match v {
        WireValue::Text(s) => s@,
        _ => Seq::empty(),
    }
}

/// Reads a text.
pub fn plain_text(v: &WireValue) -> (r: Result<String, DecodeError>)
    ensures
        reads(r, text_fault(*v), text_value(*v)),
{
    match v {
        WireValue::Absent => Ok(String::new()),
        WireValue::Text(s) => Ok(s.clone()),
        _ => Err(v.reject()),
    }
}

/// The items of a list; none for any other value.
pub open spec fn items(v: WireValue) -> Seq<WireValue> {
    match v {
        WireValue::List(l) => l@,
        _ => Seq::empty(),
    }
}

/// The fault of the first of `items` that is no text.
pub open spec fn first_text_fault(items: Seq<WireValue>) -> Option<DecodeError>
    decreases items.len(),
{
    if items.len() == 0 {
        None
    } else {
        text_fault(items[0]).before(first_text_fault(items.drop_first()))
    }
}

/// The fault of the plain reader of lists of texts.
pub open spec fn texts_fault(v: WireValue) -> Option<DecodeError> {
    kind_fault(v, v is List).before(first_text_fault(items(v)))
}

/// What the plain reader of lists of texts reads.
pub open spec fn texts_value(v: WireValue) -> Seq<Seq<char>> {
    items(v).map_values(|item: WireValue| text_value(item))
}

/// Reads a list of texts.
pub fn plain_texts(v: &WireValue) -> (r: Result<Vec<String>, DecodeError>)
    ensures
        reads(r, texts_fault(*v), texts_value(*v)),
{
    match v {
        WireValue::List(list) => {
            let mut out: Vec<String> = Vec::new();
            let mut i: usize = 0;
            assert(list@.skip(0) =~= list@);
            while i < list.len()
                invariant
                    i <= list.len(),
                    *v is List,
                    items(*v) == list@,
                    first_text_fault(list@) == first_text_fault(list@.skip(i as int)),
                    out.len() == i,
                    forall|j: int| 0 <= j < i ==> (#[trigger] out@[j])@ == text_value(list@[j]),
                decreases list.len() - i,
            {
                proof {
                    assert(list@.skip(i as int).drop_first() =~= list@.skip(i + 1));
                    assert(list@.skip(i as int)[0] == list@[i as int]);
                }
                let one: String = plain_text(&list[i])?;
                out.push(one);
                i += 1;
            }
            assert(list@.skip(i as int).len() == 0);
            assert(out.deep_view() =~= texts_value(*v));
            Ok(out)
        },
        WireValue::Absent => {
            let out: Vec<String> = Vec::new();
            assert(out.deep_view() =~= texts_value(*v));
            Ok(out)
        },
        _ => Err(v.reject()),
    }
}

} // verus!
