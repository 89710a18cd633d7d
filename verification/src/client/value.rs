//! The values of device variables. The protocol gives its fields no types:
//! a value is an integer or a text, and the caller narrows it.

use vstd::prelude::*;

verus! {

/// The value of a device variable.
#[derive(Debug, PartialEq, Eq)]
pub enum Value {
    Int(i64),
    Str(String),
}

/// A value as the contracts see it.
pub ghost enum Scalar {
    Int(int),
    Str(Seq<char>),
}

impl View for Value {
    type V = Scalar;

    open spec fn view(&self) -> Scalar {
        match self {
            Value::Int(n) => Scalar::Int(*n as int),
            Value::Str(s) => Scalar::Str(s@),
        }
    }
}

impl Clone for Value {
    fn clone(&self) -> (copy: Value)
        ensures
            copy@ == self@,
    {
        match self {
            Value::Int(n) => Value::Int(*n),
            Value::Str(s) => Value::Str(s.clone()),
        }
    }
}

impl Value {
    /// The value as an integer, if it is one.
    pub fn as_int(&self) -> (r: Option<i64>)
        ensures
            match r {
                Some(n) => self@ == Scalar::Int(n as int),
                None => self@ is Str,
            },
    {
        match self {
            Value::Int(n) => Some(*n),
            Value::Str(_) => None,
        }
    }

    /// The value as an integer that is not negative, if it is one.
    pub fn as_u64(&self) -> (r: Option<u64>)
        ensures
            match r {
                Some(n) => self@ == Scalar::Int(n as int),
                None => !(self@ matches Scalar::Int(n) && n >= 0),
            },
    {
        match self {
            Value::Int(n) => if *n >= 0 {
                Some(*n as u64)
            } else {
                None
            },
            Value::Str(_) => None,
        }
    }

    /// The value as a text, if it is one.
    pub fn as_str(&self) -> (r: Option<&str>)
        ensures
            match r {
                Some(s) => self@ == Scalar::Str(s@),
                None => self@ is Int,
            },
    {
        match self {
            Value::Int(_) => None,
            Value::Str(s) => Some(s.as_str()),
        }
    }

    /// Whether two values are the same.
    pub fn same(&self, other: &Value) -> (r: bool)
        ensures
            r == (self@ == other@),
    {
        match (self, other) {
            (Value::Int(a), Value::Int(b)) => *a == *b,
            (Value::Str(a), Value::Str(b)) => *a == *b,
            _ => false,
        }
    }
}

} // verus!
