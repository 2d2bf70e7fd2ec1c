//! Reading a record: a value with named fields, each read by a reader of its
//! own, in the order in which the record declares them. The first field that
//! cannot be read decides the fault of the record.

use crate::leaf::{items, kind_fault, list_fault, reads, Fault};
use crate::wire::{DecodeError, Entries, WireValue};
use vstd::pervasive::unreached;
use vstd::prelude::*;

verus! {

/// The entries of a structure; none for any other value.
pub open spec fn entries(v: WireValue) -> Entries {
    match v {
        WireValue::Struct(e) => e@,
        _ => Seq::empty(),
    }
}

/// A type that is read out of the entries of a structure.
pub trait Record: DeepView + Sized {
    /// The fault of the first field that cannot be read out of `e`.
    spec fn fault_in(e: Entries) -> Option<DecodeError>;

    /// The record that the fields of `e` make up, each field taken as its
    /// reader sees it.
    spec fn value_in(e: Entries) -> <Self as DeepView>::V;

    /// With no entries every field is absent, and an absent field is no fault.
    proof fn lemma_empty_has_no_fault()
        ensures
            Self::fault_in(Seq::empty()) is None,
    ;

    fn decode_entries(e: &Vec<(String, WireValue)>) -> (r: Result<Self, DecodeError>)
        ensures
            reads(r, Self::fault_in(e@), Self::value_in(e@)),
    ;
}

/// The fault of `v` read as a `T`: its own where it is neither a structure nor
/// absent, else that of its first faulty field.
pub open spec fn record_fault<T: Record>(v: WireValue) -> Option<DecodeError> {
    kind_fault(v, v is Struct).before(T::fault_in(entries(v)))
}

/// The fault of `v` read as a `T` or as a placeholder for one: its own where
/// it is a list, else that of its first faulty field.
pub open spec fn placeholder_fault<T: Record>(v: WireValue) -> Option<DecodeError> {
    list_fault(v).before(T::fault_in(entries(v)))
}

/// The fault of the first of `items` that cannot be read as a `T`.
pub open spec fn first_fault<T: Record>(items: Seq<WireValue>) -> Option<DecodeError>
    decreases items.len(),
{
    if items.len() == 0 {
        None
    } else {
        record_fault::<T>(items[0]).before(first_fault::<T>(items.drop_first()))
    }
}

/// The fault of `v` read as a list of `T`.
pub open spec fn list_of_fault<T: Record>(v: WireValue) -> Option<DecodeError> {
    kind_fault(v, v is List).before(first_fault::<T>(items(v)))
}

/// The records that the items of `v` make up.
pub open spec fn list_of_value<T: Record>(v: WireValue) -> Seq<<T as DeepView>::V> {
    items(v).map_values(|item: WireValue| T::value_in(entries(item)))
}

/// The record in which every field has its zero value.
pub fn zero<T: Record>() -> (r: T)
    ensures
        r.deep_view() == T::value_in(Seq::empty()),
{
    let none: Vec<(String, WireValue)> = Vec::new();
    proof {
        T::lemma_empty_has_no_fault();
    }
    match T::decode_entries(&none) {
        Ok(r) => r,
        Err(_) => unreached(),
    }
}

/// Reads a record. An absent value gives the record of zero values.
pub fn decode<T: Record>(v: &WireValue) -> (r: Result<T, DecodeError>)
    ensures
        reads(r, record_fault::<T>(*v), T::value_in(entries(*v))),
{
    match v {
        WireValue::Struct(e) => T::decode_entries(e),
        WireValue::Absent => {
            proof {
                T::lemma_empty_has_no_fault();
            }
            Ok(zero::<T>())
        },
        _ => Err(v.reject()),
    }
}

/// Reads a record from a place where the service sends a scalar when it has
/// nothing to tell: a structure is read as the record, a list is refused, and
/// anything else gives the record of zero values.
pub fn string_or_struct<T: Record>(v: &WireValue) -> (r: Result<T, DecodeError>)
    ensures
        reads(r, placeholder_fault::<T>(*v), T::value_in(entries(*v))),
{
    match v {
        WireValue::Struct(e) => T::decode_entries(e),
        WireValue::List(_) => Err(v.reject()),
        _ => {
            proof {
                T::lemma_empty_has_no_fault();
            }
            Ok(zero::<T>())
        },
    }
}

/// Reads a list of records. An absent value gives the empty list.
pub fn decode_list<T: Record>(v: &WireValue) -> (r: Result<Vec<T>, DecodeError>)
    ensures
        reads(r, list_of_fault::<T>(*v), list_of_value::<T>(*v)),
{
    match v {
        WireValue::List(list) => {
            let mut out: Vec<T> = Vec::new();
            let mut i: usize = 0;
            assert(list@.skip(0) =~= list@);
            while i < list.len()
                invariant
                    i <= list.len(),
                    *v is List,
                    items(*v) == list@,
                    first_fault::<T>(list@) == first_fault::<T>(list@.skip(i as int)),
                    out.len() == i,
                    forall|j: int|
                        0 <= j < i ==> (#[trigger] out@[j]).deep_view() == T::value_in(
                            entries(list@[j]),
                        ),
                decreases list.len() - i,
            {
                proof {
                    assert(list@.skip(i as int).drop_first() =~= list@.skip(i + 1));
                    assert(list@.skip(i as int)[0] == list@[i as int]);
                }
                let one: T = decode::<T>(&list[i])?;
                out.push(one);
                i += 1;
            }
            assert(list@.skip(i as int).len() == 0);
            assert(out.deep_view() =~= list_of_value::<T>(*v));
            Ok(out)
        },
        WireValue::Absent => {
            let out: Vec<T> = Vec::new();
            assert(out.deep_view() =~= list_of_value::<T>(*v));
            Ok(out)
        },
        _ => Err(v.reject()),
    }
}

} // verus!
