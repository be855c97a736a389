//! Server-side status values for authorizations and orders, with their
//! wire-string parsers. Any status string outside the enumerated set is a
//! protocol error for the caller to surface.

use vstd::prelude::*;

verus! {

use crate::text::str_eq;

/// Status of one authorization: `Pending -> Processing -> {Valid | Invalid}`.
/// `Valid` and `Invalid` are terminal.
#[derive(Clone, Copy, Debug, PartialEq, Eq, Structural)]
pub enum AuthorizationStatus {
    Pending,
    Processing,
    Valid,
    Invalid,
}

/// Status of one order: `Pending -> Ready -> Processing -> {Valid | Invalid}`.
/// `Valid` and `Invalid` are terminal.
#[derive(Clone, Copy, Debug, PartialEq, Eq, Structural)]
pub enum OrderStatus {
    Pending,
    Ready,
    Processing,
    Valid,
    Invalid,
}

/// The authorization status denoted by a wire string, if any; the wire is
/// case-sensitive.
pub open spec fn authorization_status_spec(s: Seq<char>) -> Option<AuthorizationStatus> {
    if s == "pending"@ {
        Some(AuthorizationStatus::Pending)
    } else if s == "processing"@ {
        Some(AuthorizationStatus::Processing)
    } else if s == "valid"@ {
        Some(AuthorizationStatus::Valid)
    } else if s == "invalid"@ {
        Some(AuthorizationStatus::Invalid)
    } else {
        None
    }
}

/// The order status denoted by a wire string, if any; the wire is
/// case-sensitive.
pub open spec fn order_status_spec(s: Seq<char>) -> Option<OrderStatus> {
    if s == "pending"@ {
        Some(OrderStatus::Pending)
    } else if s == "ready"@ {
        Some(OrderStatus::Ready)
    } else if s == "processing"@ {
        Some(OrderStatus::Processing)
    } else if s == "valid"@ {
        Some(OrderStatus::Valid)
    } else if s == "invalid"@ {
        Some(OrderStatus::Invalid)
    } else {
        None
    }
}

impl AuthorizationStatus {
    /// Parses an authorization status from its wire string; `None` for any
    /// string outside the enumerated set.
    pub fn from_wire(s: &str) -> (r: Option<AuthorizationStatus>)
        ensures
            r == authorization_status_spec(s@),
    {
        if str_eq(s, "pending") {
            Some(AuthorizationStatus::Pending)
        } else if str_eq(s, "processing") {
            Some(AuthorizationStatus::Processing)
        } else if str_eq(s, "valid") {
            Some(AuthorizationStatus::Valid)
        } else if str_eq(s, "invalid") {
            Some(AuthorizationStatus::Invalid)
        } else {
            None
        }
    }

}

impl OrderStatus {
    /// Parses an order status from its wire string; `None` for any string
    /// outside the enumerated set.
    pub fn from_wire(s: &str) -> (r: Option<OrderStatus>)
        ensures
            r == order_status_spec(s@),
    {
        if str_eq(s, "pending") {
            Some(OrderStatus::Pending)
        } else if str_eq(s, "ready") {
            Some(OrderStatus::Ready)
        } else if str_eq(s, "processing") {
            Some(OrderStatus::Processing)
        } else if str_eq(s, "valid") {
            Some(OrderStatus::Valid)
        } else if str_eq(s, "invalid") {
            Some(OrderStatus::Invalid)
        } else {
            None
        }
    }
}

} // verus!
