//! Four-byte PNG chunk-type tags: validated construction from raw bytes or
//! text, the property flags that the case of each byte encodes, and text
//! rendering.
//!
//! Every executable function carries a contract over the tag's byte sequence,
//! and the laws that tie the functions together are proved in [`laws`].

pub mod ascii;
pub mod chunk_type;
pub mod laws;
pub mod string_specs;
