//! What holds of the operations of the store.
//!
//! The laws are stated over the tables of [`crate::database`], over the functions that say what the
//! operations do with the answers of the database, and over what the operations return when they
//! are called.
pub mod append;
pub mod calls;
pub mod listing;
pub mod reading;
pub mod sessions;
pub mod values;
pub mod views;
