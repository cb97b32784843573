//! Typed errors of the connector: address-string rejection, malformed
//! connection arguments, and a wrapper carrying the native engine's
//! diagnostic unchanged.
use vstd::prelude::*;

verus! {

#[derive(Debug)]
pub enum ConnectorError {
    /// The address string's path component names an existing directory.
    DatabaseUrlIsInvalid(String),
    /// A `connection_limit` parameter did not parse as a positive integer.
    InvalidConnectionArguments,
    /// A parameter carried a floating-point value; the connector stores such
    /// a value only as its bit pattern and does not bind it into a statement.
    UnsupportedParameter,
    /// Any prepare/bind/execute/attach/batch failure of the native engine,
    /// carried unchanged.
    Engine(rusqlite::Error),
}

impl ConnectorError {
    pub fn is_invalid_connection_arguments(&self) -> (r: bool)
        ensures
            r == (*self is InvalidConnectionArguments),
    {
        match self {
            ConnectorError::InvalidConnectionArguments => true,
            _ => false,
        }
    }

    pub fn is_database_url_is_invalid(&self) -> (r: bool)
        ensures
            r == (*self is DatabaseUrlIsInvalid),
    {
        match self {
            ConnectorError::DatabaseUrlIsInvalid(_) => true,
            _ => false,
        }
    }
}

} // verus!
