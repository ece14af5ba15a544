//! Normalizes XUnit / JUnit test reports into one validated in-memory model.
//!
//! A report arrives as a raw document that mirrors the XML grammar
//! ([`read_xml`]); [`model`] resolves the shape of its root, reads its
//! timestamps ([`date_time`]) and fills in defaults, or names the first
//! failure ([`errors`]).

pub mod date_time;
pub mod errors;
pub mod model;
pub mod read_xml;
