//! Reading stored rows back: identifiers kept as UUID text, serial lists kept as
//! JSON arrays of that text, flags kept as integers.
use vstd::prelude::*;
use crate::models::transaction::{Transaction, TransactionView, parse_transaction_type,
    transaction_type_from_text};
use crate::text::uuid_text;

verus! {

/// The identifier a text denotes, when it parses as a UUID.
pub uninterp spec fn uuid_parsed(t: Seq<char>) -> Option<u128>;

/// The texts of a JSON array of strings, when the text is one.
pub uninterp spec fn json_string_list(t: Seq<char>) -> Option<Seq<Seq<char>>>;

/// Parses a UUID (`uuid::Uuid::parse_str`, taken as its 128-bit value). The contract
/// names the answer, a function of the text alone, and states what the crate
/// documents of the hyphenated lowercase form it writes: that form of a value parses
/// back to the value.
#[verifier::external_body]
fn parse_uuid(t: &str) -> (r: Option<u128>)
    ensures
        r == uuid_parsed(t@),
        forall|v: u128| t@ == uuid_text(v) ==> r == Some(v),
{
    uuid::Uuid::parse_str(t).ok().map(|u| u.as_u128())
}

/// Parses a JSON array of strings (`serde_json::from_str::<Vec<String>>`). The
/// contract names the answer, a function of the text alone.
#[verifier::external_body]
fn parse_id_list(t: &str) -> (r: Option<Vec<String>>)
    ensures
        match r {
            Some(v) => json_string_list(t@) == Some(v@.map_values(|s: String| s@)),
            None => json_string_list(t@) is None,
        },
{
    serde_json::from_str::<Vec<String>>(t).ok()
}

/// The identifier a text denotes, or the nil identifier when it does not parse.
pub open spec fn uuid_or_zero(t: Seq<char>) -> u128 {
    match uuid_parsed(t) {
        Some(v) => v,
        None => 0,
    }
}

/// The identifier an optional text denotes; none when absent or when it does not parse.
pub open spec fn opt_uuid(t: Option<String>) -> Option<u128> {
    match t {
        Some(s) => uuid_parsed(s@),
        None => None,
    }
}

/// Every text of the list parses as a UUID.
pub open spec fn all_uuids(ts: Seq<Seq<char>>) -> bool {
    forall|i: int| 0 <= i < ts.len() ==> #[trigger] uuid_parsed(ts[i]) is Some
}

/// The identifiers of a stored list: all of them when the text is a JSON array of UUID
/// texts, none otherwise.
pub open spec fn ids_of(list: Option<Seq<Seq<char>>>) -> Seq<u128> {
    match list {
        Some(ts) => if all_uuids(ts) {
            ts.map_values(|t: Seq<char>| uuid_parsed(t)->Some_0)
        } else {
            Seq::empty()
        },
        None => Seq::empty(),
    }
}

/// The identifier a text denotes, or the nil identifier when it does not parse.
pub fn id_from_text(t: &str) -> (r: u128)
    ensures
        r == uuid_or_zero(t@),
{
    match parse_uuid(t) {
        Some(v) => v,
        None => 0,
    }
}

/// The identifier an optional text denotes.
pub fn opt_id_from_text(t: &Option<String>) -> (r: Option<u128>)
    ensures
        r == opt_uuid(*t),
{
    match t {
        Some(s) => parse_uuid(s.as_str()),
        None => None,
    }
}

/// The identifiers of a stored list of UUID texts.
pub fn ids_from_json(t: &str) -> (r: Vec<u128>)
    ensures
        r@ == ids_of(json_string_list(t@)),
{
    let texts = match parse_id_list(t) {
        Some(v) => v,
        None => return Vec::new(),
    };
    let ghost ts = texts@.map_values(|s: String| s@);
    let mut ids: Vec<u128> = Vec::new();
    let n = texts.len();
    for i in 0..n
        invariant
            n == texts@.len() == ts.len(),
            ts == texts@.map_values(|s: String| s@),
            json_string_list(t@) == Some(ts),
            ids@.len() == i,
            forall|j: int| 0 <= j < i ==> #[trigger] uuid_parsed(ts[j]) == Some(ids@[j]),
    {
        assert(ts[i as int] == texts@[i as int]@);
        match parse_uuid(texts[i].as_str()) {
            Some(v) => ids.push(v),
            None => {
                assert(!all_uuids(ts));
                return Vec::new();
            },
        }
    }
    assert(all_uuids(ts));
    assert(ids@ =~= ts.map_values(|x: Seq<char>| uuid_parsed(x)->Some_0));
    ids
}

/// A transaction row as the store keeps it: identifiers as text, serial identifiers as
/// a JSON array of text, flags as integers.
pub struct TransactionRow {
    pub id: String,
    pub transaction_type: String,
    pub item_id: String,
    pub item_description: String,
    pub from_location_id: Option<String>,
    pub to_location_id: Option<String>,
    pub quantity: i64,
    pub serial_ids_json: String,
    pub lot_id: Option<String>,
    pub user_id: String,
    pub user_name: String,
    pub approved_by_id: Option<String>,
    pub approved_by_name: Option<String>,
    pub reference: String,
    pub reason: String,
    pub notes: String,
    pub requires_approval: i64,
    pub approved: i64,
    pub timestamp: String,
}

/// The transaction a stored row holds: identifiers that do not parse read as nil (or
/// as absent, where optional), a serial list that does not parse as empty, an unknown
/// type as an adjustment, and a flag as set when it is not zero.
pub open spec fn row_transaction(row: TransactionRow) -> TransactionView {
    TransactionView {
        id: uuid_or_zero(row.id@),
        transaction_type: transaction_type_from_text(row.transaction_type@),
        item_id: uuid_or_zero(row.item_id@),
        item_description: row.item_description,
        from_location_id: opt_uuid(row.from_location_id),
        to_location_id: opt_uuid(row.to_location_id),
        quantity: row.quantity,
        serial_ids: ids_of(json_string_list(row.serial_ids_json@)),
        lot_id: opt_uuid(row.lot_id),
        user_id: uuid_or_zero(row.user_id@),
        user_name: row.user_name,
        approved_by_id: opt_uuid(row.approved_by_id),
        approved_by_name: row.approved_by_name,
        reference: row.reference,
        reason: row.reason,
        notes: row.notes,
        requires_approval: row.requires_approval != 0,
        approved: row.approved != 0,
        timestamp: row.timestamp,
    }
}

/// Reads a transaction back from its stored row.
pub fn transaction_from_row(row: TransactionRow) -> (r: Transaction)
    ensures
        r@ == row_transaction(row),
{
    let transaction_type = parse_transaction_type(row.transaction_type.as_str());
    let id = id_from_text(row.id.as_str());
    let item_id = id_from_text(row.item_id.as_str());
    let from_location_id = opt_id_from_text(&row.from_location_id);
    let to_location_id = opt_id_from_text(&row.to_location_id);
    let serial_ids = ids_from_json(row.serial_ids_json.as_str());
    let lot_id = opt_id_from_text(&row.lot_id);
    let user_id = id_from_text(row.user_id.as_str());
    let approved_by_id = opt_id_from_text(&row.approved_by_id);
    Transaction {
        id,
        transaction_type,
        item_id,
        item_description: row.item_description,
        from_location_id,
        to_location_id,
        quantity: row.quantity,
        serial_ids,
        lot_id,
        user_id,
        user_name: row.user_name,
        approved_by_id,
        approved_by_name: row.approved_by_name,
        reference: row.reference,
        reason: row.reason,
        notes: row.notes,
        requires_approval: row.requires_approval != 0,
        approved: row.approved != 0,
        timestamp: row.timestamp,
    }
}

} // verus!
