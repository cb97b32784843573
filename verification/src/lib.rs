//! A connector adapter for an embedded SQLite engine: it parses a
//! connection-string dialect into a typed configuration, owns exactly one
//! native connection behind a mutual-exclusion lock, runs raw SQL with
//! positional parameters through a single choke point, and translates
//! engine rows into a backend-agnostic result representation.
//!
//! The native engine itself, the structured-query visitor that renders SQL
//! text, and the metrics sink that wraps operations are collaborators
//! outside this crate; the engine is reached only through the declared
//! boundary in [`engine`].
pub mod connector;
pub mod engine;
pub mod error;
pub mod params;
pub mod result_set;
pub mod text;
pub mod value;

pub use connector::{Sqlite, Transaction};
pub use error::ConnectorError;
pub use params::SqliteParams;
pub use result_set::ResultSet;
pub use value::{Id, ParameterizedValue};
