//! The tagged values that cross the connector's boundary: positional
//! parameters of a prepared statement, the cells of a result row, and the
//! generated identifier read back after an insert.
use vstd::prelude::*;

verus! {

/// Tagged value passed positionally into a prepared statement, and the shape
/// of every cell of a query result.
///
/// A REAL cell is carried as the IEEE-754 bit pattern of the engine's 64-bit
/// floating-point value, so that it can be stored and compared exactly;
/// callers that need the numeric value reinterpret the bits.
#[derive(Clone, PartialEq, Debug)]
pub enum ParameterizedValue {
    Null,
    Integer(i64),
    /// IEEE-754 bit pattern of a 64-bit floating-point value.
    Real(u64),
    Text(String),
    Boolean(bool),
    Bytes(Vec<u8>),
}

/// An auto-generated primary key, read back from the connection that
/// performed the insert.
#[derive(Clone, PartialEq, Eq, Structural, Debug)]
pub enum Id {
    Int(i64),
}

impl ParameterizedValue {
    pub fn as_i64(&self) -> (r: Option<i64>)
        ensures
            r == (match *self {
                ParameterizedValue::Integer(i) => Some(i),
                _ => None::<i64>,
            }),
    {
        match self {
            ParameterizedValue::Integer(i) => Some(*i),
            _ => None,
        }
    }

    /// The IEEE-754 bit pattern of a REAL cell.
    pub fn as_real_bits(&self) -> (r: Option<u64>)
        ensures
            r == (match *self {
                ParameterizedValue::Real(b) => Some(b),
                _ => None::<u64>,
            }),
    {
        match self {
            ParameterizedValue::Real(b) => Some(*b),
            _ => None,
        }
    }

    pub fn as_str(&self) -> (r: Option<&str>)
        ensures
            (r matches Some(s) ==> (self matches ParameterizedValue::Text(t) && s@ == t@)),
            (r is None ==> !(self matches ParameterizedValue::Text(_))),
    {
        match self {
            ParameterizedValue::Text(t) => Some(t.as_str()),
            _ => None,
        }
    }

    pub fn as_bool(&self) -> (r: Option<bool>)
        ensures
            r == (match *self {
                ParameterizedValue::Boolean(b) => Some(b),
                _ => None::<bool>,
            }),
    {
        match self {
            ParameterizedValue::Boolean(b) => Some(*b),
            _ => None,
        }
    }

    pub fn is_null(&self) -> (r: bool)
        ensures
            r == (*self is Null),
    {
        match self {
            ParameterizedValue::Null => true,
            _ => false,
        }
    }
}

} // verus!
