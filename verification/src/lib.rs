//! The logic of a personal finance tracker, verified with Verus.
//!
//! The modules compute on plain values. Whatever talks to the network, the
//! disk, the database or the environment stands outside this crate, and hands
//! the values in and takes the decisions back.

pub mod amount;
pub mod assistant;
pub mod assistant_laws;
pub mod auth;
pub mod banks;
pub mod cash;
pub mod categories;
pub mod category_laws;
pub mod exchange;
pub mod isolation;
pub mod money_laws;
pub mod outside;
pub mod pdf;
pub mod record;
pub mod record_laws;
pub mod reply;
pub mod statement_laws;
pub mod store;
pub mod summary;
pub mod sync_laws;
pub mod teller;
pub mod text;
pub mod text_laws;
pub mod upload;
pub mod user_laws;
pub mod word_laws;
