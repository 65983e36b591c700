//! Transactions: every change of stock, with who made it and why.
use vstd::prelude::*;
use crate::text::{text_eq, dup_opt_text};

verus! {

/// The kind of a transaction.
#[derive(Debug, Clone, Copy, PartialEq, Eq, Structural)]
pub enum TransactionType {
    Receive,
    Issue,
    Return,
    Transfer,
    Adjust,
    Dispose,
    StocktakeCount,
    StocktakeAdjust,
}

/// The text a transaction type is displayed and stored as.
pub open spec fn transaction_type_text(t: TransactionType) -> Seq<char> {
    match t {
        TransactionType::Receive => "Receive"@,
        TransactionType::Issue => "Issue"@,
        TransactionType::Return => "Return"@,
        TransactionType::Transfer => "Transfer"@,
        TransactionType::Adjust => "Adjust"@,
        TransactionType::Dispose => "Dispose"@,
        TransactionType::StocktakeCount => "Stocktake Count"@,
        TransactionType::StocktakeAdjust => "Stocktake Adjust"@,
    }
}

/// The type `parse_transaction_type` reads from `s`: unknown text reads as `Adjust`.
pub open spec fn transaction_type_from_text(s: Seq<char>) -> TransactionType {
    if s == "Receive"@ {
        TransactionType::Receive
    } else if s == "Issue"@ {
        TransactionType::Issue
    } else if s == "Return"@ {
        TransactionType::Return
    } else if s == "Transfer"@ {
        TransactionType::Transfer
    } else if s == "Adjust"@ {
        TransactionType::Adjust
    } else if s == "Dispose"@ {
        TransactionType::Dispose
    } else if s == "Stocktake Count"@ {
        TransactionType::StocktakeCount
    } else if s == "Stocktake Adjust"@ {
        TransactionType::StocktakeAdjust
    } else {
        TransactionType::Adjust
    }
}

impl TransactionType {
    /// The display text of the type.
    pub fn to_string(&self) -> (r: String)
        ensures
            r@ == transaction_type_text(*self),
    {
        match self {
            TransactionType::Receive => "Receive".to_string(),
            TransactionType::Issue => "Issue".to_string(),
            TransactionType::Return => "Return".to_string(),
            TransactionType::Transfer => "Transfer".to_string(),
            TransactionType::Adjust => "Adjust".to_string(),
            TransactionType::Dispose => "Dispose".to_string(),
            TransactionType::StocktakeCount => "Stocktake Count".to_string(),
            TransactionType::StocktakeAdjust => "Stocktake Adjust".to_string(),
        }
    }
}

/// Reads a stored transaction type; unknown text reads as `Adjust`.
pub fn parse_transaction_type(s: &str) -> (r: TransactionType)
    ensures
        r == transaction_type_from_text(s@),
{
    if text_eq(s, "Receive") {
        TransactionType::Receive
    } else if text_eq(s, "Issue") {
        TransactionType::Issue
    } else if text_eq(s, "Return") {
        TransactionType::Return
    } else if text_eq(s, "Transfer") {
        TransactionType::Transfer
    } else if text_eq(s, "Adjust") {
        TransactionType::Adjust
    } else if text_eq(s, "Dispose") {
        TransactionType::Dispose
    } else if text_eq(s, "Stocktake Count") {
        TransactionType::StocktakeCount
    } else if text_eq(s, "Stocktake Adjust") {
        TransactionType::StocktakeAdjust
    } else {
        TransactionType::Adjust
    }
}

/// Reading the stored text of a transaction type gives the type back.
pub proof fn lemma_transaction_type_round_trip(t: TransactionType)
    ensures
        transaction_type_from_text(transaction_type_text(t)) == t,
{
    reveal_strlit("Receive");
    reveal_strlit("Issue");
    reveal_strlit("Return");
    reveal_strlit("Transfer");
    reveal_strlit("Adjust");
    reveal_strlit("Dispose");
    reveal_strlit("Stocktake Count");
    reveal_strlit("Stocktake Adjust");
    assert("Receive"@.len() == 7);
    assert("Issue"@.len() == 5);
    assert("Return"@.len() == 6);
    assert("Transfer"@.len() == 8);
    assert("Adjust"@.len() == 6);
    assert("Dispose"@.len() == 7);
    assert("Stocktake Count"@.len() == 15);
    assert("Stocktake Adjust"@.len() == 16);
    assert("Receive"@[0] != "Dispose"@[0]);
    assert("Return"@[0] != "Adjust"@[0]);
}

/// A recorded change of stock.
#[derive(Debug, Clone)]
pub struct Transaction {
    pub id: u128,
    pub transaction_type: TransactionType,
    pub item_id: u128,
    pub item_description: String,
    pub from_location_id: Option<u128>,
    pub to_location_id: Option<u128>,
    pub quantity: i64,
    pub serial_ids: Vec<u128>,
    pub lot_id: Option<u128>,
    pub user_id: u128,
    pub user_name: String,
    pub approved_by_id: Option<u128>,
    pub approved_by_name: Option<String>,
    pub reference: String,
    pub reason: String,
    pub notes: String,
    pub requires_approval: bool,
    pub approved: bool,
    pub timestamp: String,
}

/// A transaction as a value, with its serial numbers as a sequence.
pub ghost struct TransactionView {
    pub id: u128,
    pub transaction_type: TransactionType,
    pub item_id: u128,
    pub item_description: String,
    pub from_location_id: Option<u128>,
    pub to_location_id: Option<u128>,
    pub quantity: i64,
    pub serial_ids: Seq<u128>,
    pub lot_id: Option<u128>,
    pub user_id: u128,
    pub user_name: String,
    pub approved_by_id: Option<u128>,
    pub approved_by_name: Option<String>,
    pub reference: String,
    pub reason: String,
    pub notes: String,
    pub requires_approval: bool,
    pub approved: bool,
    pub timestamp: String,
}

impl View for Transaction {
    type V = TransactionView;

    open spec fn view(&self) -> TransactionView {
        TransactionView {
            id: self.id,
            transaction_type: self.transaction_type,
            item_id: self.item_id,
            item_description: self.item_description,
            from_location_id: self.from_location_id,
            to_location_id: self.to_location_id,
            quantity: self.quantity,
            serial_ids: self.serial_ids@,
            lot_id: self.lot_id,
            user_id: self.user_id,
            user_name: self.user_name,
            approved_by_id: self.approved_by_id,
            approved_by_name: self.approved_by_name,
            reference: self.reference,
            reason: self.reason,
            notes: self.notes,
            requires_approval: self.requires_approval,
            approved: self.approved,
            timestamp: self.timestamp,
        }
    }
}

/// A copy of a list of identifiers.
pub fn dup_ids(v: &Vec<u128>) -> (r: Vec<u128>)
    ensures
        r@ == v@,
{
    let mut r: Vec<u128> = Vec::new();
    let n = v.len();
    for i in 0..n
        invariant
            n == v@.len(),
            r@ == v@.take(i as int),
    {
        r.push(v[i]);
        assert(v@.take(i + 1) == v@.take(i as int).push(v@[i as int]));
    }
    assert(v@.take(n as int) == v@);
    r
}

impl Transaction {
    /// A copy of the transaction.
    pub fn duplicate(&self) -> (r: Transaction)
        ensures
            r@ == self@,
    {
        Transaction {
            id: self.id,
            transaction_type: self.transaction_type,
            item_id: self.item_id,
            item_description: self.item_description.clone(),
            from_location_id: self.from_location_id,
            to_location_id: self.to_location_id,
            quantity: self.quantity,
            serial_ids: dup_ids(&self.serial_ids),
            lot_id: self.lot_id,
            user_id: self.user_id,
            user_name: self.user_name.clone(),
            approved_by_id: self.approved_by_id,
            approved_by_name: dup_opt_text(&self.approved_by_name),
            reference: self.reference.clone(),
            reason: self.reason.clone(),
            notes: self.notes.clone(),
            requires_approval: self.requires_approval,
            approved: self.approved,
            timestamp: self.timestamp.clone(),
        }
    }
}

} // verus!
