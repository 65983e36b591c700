//! The application's forms: what is typed in, how it is checked, and what a submitted
//! form does to the store and to the form.
use vstd::prelude::*;
use crate::error::{StoremanError, error_text};
use crate::forms::input::{i64_value, usize_value, trimmed, trim_text, parse_i64, parse_usize};
use crate::models::balance::{ConditionCode, parse_condition_code, parses_to_condition};




pub mod admin;
pub mod dashboard;
pub mod equipment_ref;
pub mod input;
pub mod issue;
pub mod items;
pub mod login;



pub mod receive;
pub mod reports;
pub mod return_form;
pub mod stocktake;




verus! {

/// The screens of the application.
#[derive(Debug, Clone, Copy, PartialEq, Eq, Structural)]
pub enum Screen {
    Login,
    Dashboard,
    Items,
    Receive,
    Issue,
    Returns,
    Stocktake,
    Reports,
    Admin,
    EquipmentRef,
}

/// Reads the condition chosen in a form; any other text is a custom condition.
pub fn parse_condition(s: &str) -> (r: ConditionCode)
    ensures
        parses_to_condition(s@, r),
{
    parse_condition_code(s)
}

/// The message shown when a submission fails.
pub open spec fn error_message(e: StoremanError) -> Seq<char> {
    "✗ Error: "@ + error_text(e)
}

/// The message shown when a submission fails with `e`.
pub fn error_status(e: &StoremanError) -> (r: String)
    ensures
        r@ == error_message(*e),
{
    let mut m = "✗ Error: ".to_string();
    let t = e.to_string();
    m.append(t.as_str());
    m
}

/// A message as a status line.
pub open spec fn status_is(status: Option<String>, m: Seq<char>) -> bool {
    status matches Some(x) && x@ == m
}

/// The whole number typed into a box, read after trimming whitespace, or `default`
/// when it reads as none.
pub open spec fn typed_i64(s: Seq<char>, default: i64) -> i64 {
    match i64_value(trimmed(s)) {
        Some(v) => v,
        None => default,
    }
}

/// The count typed into a box, read after trimming whitespace, or `default` when it
/// reads as none.
pub open spec fn typed_usize(s: Seq<char>, default: usize) -> usize {
    match usize_value(trimmed(s)) {
        Some(v) => v,
        None => default,
    }
}

/// Reads the whole number typed into a box, or `default`.
pub fn read_i64(s: &str, default: i64) -> (r: i64)
    ensures
        r == typed_i64(s@, default),
{
    let t = trim_text(s);
    match parse_i64(t.as_str()) {
        Some(v) => v,
        None => default,
    }
}

/// Reads the count typed into a box, or `default`.
pub fn read_usize(s: &str, default: usize) -> (r: usize)
    ensures
        r == typed_usize(s@, default),
{
    let t = trim_text(s);
    match parse_usize(t.as_str()) {
        Some(v) => v,
        None => default,
    }
}

} // verus!
