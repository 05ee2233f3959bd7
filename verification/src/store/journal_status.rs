//! The vocabulary of the journal's status column. Queries that guard against
//! stacking orders match these texts, so every writer uses these constants.

use vstd::prelude::*;

verus! {

pub const PREVIEWED: &'static str = "previewed";

pub const SUBMITTED: &'static str = "submitted";

pub const FILLED: &'static str = "filled";

pub const CANCELLED: &'static str = "cancelled";

pub const REJECTED: &'static str = "rejected";

} // verus!
