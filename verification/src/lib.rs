//! Conversion of blockchain transaction receipts into a generic,
//! schema-less document representation.
//!
//! The mapping is a pure, total function: every structurally valid
//! receipt yields exactly one document, with a fixed key set in a fixed
//! order, hex-string encodings for byte fields, decimal-string encodings
//! for large integers, and explicit nulls for absent optional fields.

pub mod decimal;
pub mod doc;
pub mod hexcodec;
pub mod laws;
pub mod mapper;
pub mod receipt;
