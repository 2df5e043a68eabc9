//! Compile-time preparation of embedded stylesheet and markup literals.
//!
//! The crate reconstructs syntactically valid CSS text from a literal that was
//! serialized through a lossy tokenizer, decides whether a stylesheet literal
//! is inline text or a quoted file reference, and converts a parsed stylesheet
//! into a canonical, order-preserving rule list ready for embedding.

pub mod bytes;
pub mod compile;
pub mod error;
pub mod normalize;
pub mod resolve;
pub mod stylesheet;
