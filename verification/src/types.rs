pub mod marlowe;
pub mod views;
