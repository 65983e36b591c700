//! Inventory management core for unit stores: items, locations, stock
//! balances, custody, transactions and a hash-chained audit log.
use vstd::prelude::*;

pub mod audit;
pub mod auth;
pub mod clock;
pub mod db;
pub mod error;
pub mod forms;
pub mod ids;
pub mod models;
pub mod order;
pub mod text;
pub mod transactions;

pub use audit::{AuditEntry, AuditLog};
pub use auth::{authenticate, hash_password, verify_password};
pub use db::Database;
pub use error::{Result, StoremanError};
pub use models::balance::{ConditionCode, StockBalance};
pub use models::custody::{CustodyRecord, CustodyStatus};
pub use models::equipment::{EquipmentCategory, EquipmentItem, EquipmentStatus, EquipmentVariant,
    NatoReference, ServiceBranch};
pub use models::item::{ControlledCategory, Item, ItemType};
pub use models::location::Location;
pub use models::lot::LotRecord;
pub use models::serial::SerialRecord;
pub use models::transaction::{Transaction, TransactionType};
pub use models::user::{Role, User};

verus! {
} // verus!
