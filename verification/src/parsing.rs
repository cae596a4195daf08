pub mod cst;
pub mod numbers;
pub mod deserialization;
pub mod parser;
pub mod serialization;
