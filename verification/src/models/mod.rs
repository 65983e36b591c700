//! The records the stores keep.
pub mod balance;
pub mod controlled;
pub mod custody;
pub mod equipment;
pub mod item;
pub mod location;
pub mod lot;
pub mod serial;
pub mod transaction;
pub mod user;
