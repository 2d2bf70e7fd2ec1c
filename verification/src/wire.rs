//! The loosely typed values that the service answers with, as a parser hands
//! them over, and the one way in which reading them can fail.

use vstd::prelude::*;

verus! {

/// A number as it stood in the answer. The library moves a `Binary64` about by
/// its bit pattern and never computes on it.
#[derive(Clone, Copy, Debug, PartialEq, Eq)]
pub enum Number {
    /// A whole number that was written without a sign.
    Unsigned(u128),
    /// A whole number that was written with a sign.
    Signed(i128),
    /// Any other number, as the bits of an IEEE 754 double.
    Binary64(u64),
}

impl Number {
    /// The whole number that `self` is, if it is one.
    pub open spec fn integer(self) -> Option<int> {
        match self {
            Number::Unsigned(n) => Some(n as int),
            Number::Signed(n) => Some(n as int),
            Number::Binary64(_) => None,
        }
    }

    /// `self` as a whole number between `low` and `high`, both included.
    pub open spec fn integer_within(self, low: int, high: int) -> Option<int> {
        match self.integer() {
            Some(n) => if low <= n <= high {
                Some(n)
            } else {
                None
            },
            None => None,
        }
    }

    /// The number zero.
    pub open spec fn zero() -> Number {
        Number::Unsigned(0)
    }

    pub fn to_u128(&self) -> (r: Option<u128>)
        ensures
            match self.integer_within(0, u128::MAX as int) {
                Some(n) => r == Some(n as u128),
                None => r is None,
            },
    {
        match *self {
            Number::Unsigned(n) => Some(n),
            Number::Signed(n) => if n >= 0 {
                Some(n as u128)
            } else {
                None
            },
            Number::Binary64(_) => None,
        }
    }

    pub fn to_u64(&self) -> (r: Option<u64>)
        ensures
            match self.integer_within(0, u64::MAX as int) {
                Some(n) => r == Some(n as u64),
                None => r is None,
            },
    {
        match self.to_u128() {
            Some(n) => if n <= u64::MAX as u128 {
                Some(n as u64)
            } else {
                None
            },
            None => None,
        }
    }

    pub fn to_i64(&self) -> (r: Option<i64>)
        ensures
            match self.integer_within(i64::MIN as int, i64::MAX as int) {
                Some(n) => r == Some(n as i64),
                None => r is None,
            },
    {
        match *self {
            Number::Unsigned(n) => if n <= i64::MAX as u128 {
                Some(n as i64)
            } else {
                None
            },
            Number::Signed(n) => if i64::MIN as i128 <= n && n <= i64::MAX as i128 {
                Some(n as i64)
            } else {
                None
            },
            Number::Binary64(_) => None,
        }
    }
}

impl DeepView for Number {
    type V = Number;

    open spec fn deep_view(&self) -> Number {
        *self
    }
}

impl Default for Number {
    fn default() -> (r: Number)
        ensures
            r == Number::zero(),
    {
        Number::Unsigned(0)
    }
}

/// One value of an answer.
#[derive(Debug, PartialEq, Eq)]
pub enum WireValue {
    /// No value: the key was missing, or it held `null`.
    Absent,
    Bool(bool),
    Number(Number),
    Text(String),
    List(Vec<WireValue>),
    /// Keys with their values, in the order in which they stood.
    Struct(Vec<(String, WireValue)>),
}

/// The kinds of `WireValue`.
#[derive(Clone, Copy, Debug, PartialEq, Eq, Structural)]
pub enum ValueKind {
    Absent,
    Bool,
    Number,
    Text,
    List,
    Struct,
}

/// Why an answer could not be read.
#[derive(Clone, Copy, Debug, PartialEq, Eq, Structural)]
pub enum DecodeError {
    /// A value of a kind that its place does not take.
    UnexpectedKind { found: ValueKind },
    /// A number that is no whole number, or one outside the range of its place.
    OutOfRange,
}

impl WireValue {
    pub open spec fn spec_kind(&self) -> ValueKind {
        match self {
            WireValue::Absent => ValueKind::Absent,
            WireValue::Bool(_) => ValueKind::Bool,
            WireValue::Number(_) => ValueKind::Number,
            WireValue::Text(_) => ValueKind::Text,
            WireValue::List(_) => ValueKind::List,
            WireValue::Struct(_) => ValueKind::Struct,
        }
    }

    #[verifier::when_used_as_spec(spec_kind)]
    pub fn kind(&self) -> (k: ValueKind)
        ensures
            k == self.spec_kind(),
    {
        match self {
            WireValue::Absent => ValueKind::Absent,
            WireValue::Bool(_) => ValueKind::Bool,
            WireValue::Number(_) => ValueKind::Number,
            WireValue::Text(_) => ValueKind::Text,
            WireValue::List(_) => ValueKind::List,
            WireValue::Struct(_) => ValueKind::Struct,
        }
    }

    /// The error that tells of `self` standing where its kind is not taken.
    pub open spec fn unexpected(&self) -> DecodeError {
        DecodeError::UnexpectedKind { found: self.spec_kind() }
    }

    pub fn reject(&self) -> (e: DecodeError)
        ensures
            e == self.unexpected(),
    {
        DecodeError::UnexpectedKind { found: self.kind() }
    }
}

/// The entries of a structure: keys with their values.
pub type Entries = Seq<(String, WireValue)>;

/// The value under `key`: that of the first entry with this key, `Absent`
/// where there is none.
pub open spec fn field(entries: Entries, key: Seq<char>) -> WireValue
    decreases entries.len(),
{
    if entries.len() == 0 {
        WireValue::Absent
    } else if entries[0].0@ == key {
        entries[0].1
    } else {
        field(entries.drop_first(), key)
    }
}

/// The value under `key`, see `field`.
pub fn lookup<'a>(entries: &'a Vec<(String, WireValue)>, key: &str) -> (r: &'a WireValue)
    ensures
        *r == field(entries@, key@),
{
    let wanted: String = key.to_owned();
    let mut i: usize = 0;
    assert(entries@.skip(0) =~= entries@);
    while i < entries.len()
        invariant
            i <= entries.len(),
            wanted@ == key@,
            field(entries@, key@) == field(entries@.skip(i as int), key@),
        decreases entries.len() - i,
    {
        if entries[i].0 == wanted {
            return &entries[i].1;
        }
        proof {
            assert(entries@.skip(i as int).drop_first() =~= entries@.skip(i + 1));
        }
        i += 1;
    }
    &WireValue::Absent
}

} // verus!
