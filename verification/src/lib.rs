//! Front end for a small financial-contract language: parsing of the native
//! textual form into a typed, deeply recursive contract document, inline
//! resolution of named constant and timeout parameters, and deterministic
//! re-serialization to the native text and to a JSON form.

pub mod types;
pub mod parsing;
