//! Plain request/response and record types carried across the boundary.
//!
//! These are data carriers: request handling hands them to the verified
//! engine and takes them back. Serialization lives outside the core.

use vstd::prelude::*;

verus! {

/// Status of an order in the ledger.
///
/// The state machine is `pending -> shipped -> delivered`, with
/// `pending | shipped -> cancelled`; `delivered` and `cancelled` are
/// terminal (see `fulfillment`).
#[derive(Clone, Copy, Debug, PartialEq, Eq, Structural)]
pub enum Status {
    Pending,
    Shipped,
    Delivered,
    Cancelled,
}

/// The canonical persisted spelling of a status.
pub open spec fn spec_status_str(s: Status) -> Seq<char> {
    match s {
        Status::Pending => "pending"@,
        Status::Shipped => "shipped"@,
        Status::Delivered => "delivered"@,
        Status::Cancelled => "cancelled"@,
    }
}

impl Status {
    /// The persisted spelling of this status.
    pub fn as_str(&self) -> (r: &'static str)
        ensures
            r@ == spec_status_str(*self),
    {
        match self {
            Status::Pending => "pending",
            Status::Shipped => "shipped",
            Status::Delivered => "delivered",
            Status::Cancelled => "cancelled",
        }
    }

    /// The status a persisted spelling denotes, if any.
    pub fn parse(s: &String) -> (r: Option<Status>)
        ensures
            r == spec_parse_status(s@),
    {
        if *s == "pending".to_string() {
            Some(Status::Pending)
        } else if *s == "shipped".to_string() {
            Some(Status::Shipped)
        } else if *s == "delivered".to_string() {
            Some(Status::Delivered)
        } else if *s == "cancelled".to_string() {
            Some(Status::Cancelled)
        } else {
            None
        }
    }
}

/// Inverse of `spec_status_str` on the four canonical spellings.
pub open spec fn spec_parse_status(s: Seq<char>) -> Option<Status> {
    if s == "pending"@ {
        Some(Status::Pending)
    } else if s == "shipped"@ {
        Some(Status::Shipped)
    } else if s == "delivered"@ {
        Some(Status::Delivered)
    } else if s == "cancelled"@ {
        Some(Status::Cancelled)
    } else {
        None
    }
}

/// A request to place an order: a supplier and parallel per-line arrays.
/// Index `i` across `products`, `categories` and `price_cents` describes
/// one line item.
pub struct OrdersRequest {
    pub supplier_name: String,
    pub products: Vec<(String, u64)>,
    pub categories: Vec<String>,
    pub price_cents: Vec<u64>,
}

/// Response payload for order placement.
pub struct OrdersRelatedResponse {
    pub message: String,
}

/// A request to move an order to a new status.
pub struct StatusChange {
    pub id: i32,
    pub status: String,
}

/// A request to record a sale: the selling employee and parallel per-line
/// arrays, correlated by index as in `OrdersRequest`.
pub struct SaleRequest {
    pub sale_by: i32,
    pub products: Vec<(String, u64)>,
    pub categories: Vec<String>,
    pub price_cents: Vec<u64>,
}

/// Response payload for sale recording.
pub struct SaleRelatedResponse {
    pub message: String,
}

/// One event handed to the notification sink per sold line item.
/// Delivery is fire-and-forget and happens outside the core.
pub struct NotificationEvent {
    pub database_name: String,
    pub category: String,
    pub quantity_sold: u64,
    pub timestamp: i64,
}

/// Cost and selling price of an item, in integral currency units.
pub struct Price {
    pub cost_price: i32,
    pub selling_price: i32,
}

/// Physical location of an item.
pub struct Location {
    pub warehouse: String,
    pub shelf: String,
}

/// Per-category inventory aggregate, as reported by the analytics proxy.
pub struct CategorySummary {
    pub category: String,
    pub total_quantity: i32,
}

/// A request forwarded to the generative-AI proxy.
#[allow(non_camel_case_types)]
pub struct genAI_request {
    pub action: String,
    pub message: Option<String>,
}

/// A request to register a new administrative user.
pub struct CreateUserRequest {
    pub name: String,
    pub email: String,
    pub password: String,
    pub role: String,
    pub company_name: String,
}

/// Response payload for user registration.
pub struct CreateUserResponse {
    pub message: String,
}

/// A request to log an administrative user in.
pub struct CreateUserLogInRequest {
    pub email: String,
    pub password: String,
}

/// Response payload for administrative login.
pub struct CreateUserLogInResponse {
    pub message: String,
}

/// A request to register a new employee.
pub struct CreateEmployeeRequest {
    pub name: String,
    pub password: String,
    pub email: String,
    pub permission: String,
}

/// A request to log an employee in.
pub struct EmployeeLogInRequest {
    pub email: String,
    pub password: String,
    pub company_name: String,
}

/// Response payload for employee login.
pub struct EmployeeLogInResponse {
    pub message: String,
}

/// An administrative change of an employee's permission.
pub struct EmployeeAdminControl {
    pub id: i32,
    pub permission: String,
}

} // verus!
