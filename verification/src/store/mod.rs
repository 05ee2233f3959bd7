//! Rows of the local store: watchlist, wheel state, order journal, pending
//! rolls and automated positions.

pub mod journal_status;
pub mod models;
pub mod zerodte_status;
