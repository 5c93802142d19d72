//! Typed request building and response decoding for the aoe4guides
//! build-order API.

pub mod decode;
pub mod error;
pub mod json;
pub mod parse;
pub mod query;
pub mod request;
pub mod schema;
pub mod types;

pub use query::Civilization;
pub use query::Query;
pub use query::SortBy;
