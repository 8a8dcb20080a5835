//! Session credentials, role-gated access and the expense-claim workflow.
//!
//! Storage, HTTP and mail delivery stay with the caller: the functions here
//! take what was loaded and return what is to be written or answered.

pub mod role;
pub mod text;
pub mod error;
pub mod category;
pub mod claim;
pub mod token;
pub mod forms;
pub mod account;
pub mod config;
