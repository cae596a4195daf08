pub mod marlowe;
pub mod json;
