//! The life of an automated position: `pending`, `open`, `closing`, `closed`, or
//! `cancelled` where the entry never filled.

use vstd::prelude::*;

verus! {

pub const PENDING: &'static str = "pending";

pub const OPEN: &'static str = "open";

pub const CLOSING: &'static str = "closing";

pub const CLOSED: &'static str = "closed";

pub const CANCELLED: &'static str = "cancelled";

} // verus!
