//! The errors of the library.
use vstd::prelude::*;
use crate::text::{int_text, push_int_text};

verus! {

/// Everything that can go wrong in the stores.
#[derive(Debug, Clone)]
pub enum StoremanError {
    /// The store refused a write; the text is the store's message.
    Database(String),
    AuthFailed,
    Unauthorized(String),
    NotFound(String),
    InvalidInput(String),
    InsufficientStock { available: i64, requested: i64 },
    AuditChainBroken(i64),
    Other(String),
}

/// The library's result type.
pub type Result<T> = std::result::Result<T, StoremanError>;

/// The message an error is displayed with.
pub open spec fn error_text(e: StoremanError) -> Seq<char> {
    match e {
        StoremanError::Database(m) => "Database error: "@ + m@,
        StoremanError::AuthFailed => "Authentication failed"@,
        StoremanError::Unauthorized(m) => "Insufficient permissions: "@ + m@,
        StoremanError::NotFound(m) => "Not found: "@ + m@,
        StoremanError::InvalidInput(m) => "Invalid input: "@ + m@,
        StoremanError::InsufficientStock { available, requested } =>
            "Insufficient stock: available "@ + int_text(available as int) + ", requested "@
                + int_text(requested as int),
        StoremanError::AuditChainBroken(n) => "Audit chain broken at entry "@ + int_text(n as int),
        StoremanError::Other(m) => m@,
    }
}

impl StoremanError {
    /// The message of the error.
    pub fn to_string(&self) -> (r: String)
        ensures
            r@ == error_text(*self),
    {
        match self {
            StoremanError::Database(m) => {
                let mut r = "Database error: ".to_string();
                r.append(m.as_str());
                r
            },
            StoremanError::AuthFailed => "Authentication failed".to_string(),
            StoremanError::Unauthorized(m) => {
                let mut r = "Insufficient permissions: ".to_string();
                r.append(m.as_str());
                r
            },
            StoremanError::NotFound(m) => {
                let mut r = "Not found: ".to_string();
                r.append(m.as_str());
                r
            },
            StoremanError::InvalidInput(m) => {
                let mut r = "Invalid input: ".to_string();
                r.append(m.as_str());
                r
            },
            StoremanError::InsufficientStock { available, requested } => {
                let mut r = "Insufficient stock: available ".to_string();
                push_int_text(*available, &mut r);
                r.append(", requested ");
                push_int_text(*requested, &mut r);
                r
            },
            StoremanError::AuditChainBroken(n) => {
                let mut r = "Audit chain broken at entry ".to_string();
                push_int_text(*n, &mut r);
                r
            },
            StoremanError::Other(m) => m.clone(),
        }
    }
}

} // verus!
