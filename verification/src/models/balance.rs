//! Condition codes and stock balances.
use vstd::prelude::*;
use crate::text::text_eq;

verus! {

/// The condition that stock is held in.
#[derive(Debug, Clone, PartialEq)]
pub enum ConditionCode {
    Serviceable,
    Unserviceable,
    Repair,
    Quarantine,
    Condemned,
    Custom(String),
}

/// The text a condition code is displayed and stored as.
pub open spec fn condition_text(c: ConditionCode) -> Seq<char> {
    match c {
        ConditionCode::Serviceable => "Serviceable"@,
        ConditionCode::Unserviceable => "Unserviceable"@,
        ConditionCode::Repair => "Repair"@,
        ConditionCode::Quarantine => "Quarantine"@,
        ConditionCode::Condemned => "Condemned"@,
        ConditionCode::Custom(s) => s@,
    }
}

/// Whether `s` is the text of one of the five named condition codes.
pub open spec fn is_named_condition(s: Seq<char>) -> bool {
    ||| s == "Serviceable"@
    ||| s == "Unserviceable"@
    ||| s == "Repair"@
    ||| s == "Quarantine"@
    ||| s == "Condemned"@
}

/// `c` is what `parse_condition_code` gives for the text `s`.
pub open spec fn parses_to_condition(s: Seq<char>, c: ConditionCode) -> bool {
    if s == "Serviceable"@ {
        c is Serviceable
    } else if s == "Unserviceable"@ {
        c is Unserviceable
    } else if s == "Repair"@ {
        c is Repair
    } else if s == "Quarantine"@ {
        c is Quarantine
    } else if s == "Condemned"@ {
        c is Condemned
    } else {
        c matches ConditionCode::Custom(t) && t@ == s
    }
}

impl ConditionCode {
    /// The display text of the condition code.
    pub fn to_string(&self) -> (r: String)
        ensures
            r@ == condition_text(*self),
    {
        match self {
            ConditionCode::Serviceable => "Serviceable".to_string(),
            ConditionCode::Unserviceable => "Unserviceable".to_string(),
            ConditionCode::Repair => "Repair".to_string(),
            ConditionCode::Quarantine => "Quarantine".to_string(),
            ConditionCode::Condemned => "Condemned".to_string(),
            ConditionCode::Custom(s) => s.clone(),
        }
    }

    /// A copy of the condition code.
    pub fn duplicate(&self) -> (r: ConditionCode)
        ensures
            r == *self,
    {
        match self {
            ConditionCode::Serviceable => ConditionCode::Serviceable,
            ConditionCode::Unserviceable => ConditionCode::Unserviceable,
            ConditionCode::Repair => ConditionCode::Repair,
            ConditionCode::Quarantine => ConditionCode::Quarantine,
            ConditionCode::Condemned => ConditionCode::Condemned,
            ConditionCode::Custom(s) => ConditionCode::Custom(s.clone()),
        }
    }
}

/// Reads a condition code from its text; any other text is a custom code.
pub fn parse_condition_code(s: &str) -> (r: ConditionCode)
    ensures
        parses_to_condition(s@, r),
{
    if text_eq(s, "Serviceable") {
        ConditionCode::Serviceable
    } else if text_eq(s, "Unserviceable") {
        ConditionCode::Unserviceable
    } else if text_eq(s, "Repair") {
        ConditionCode::Repair
    } else if text_eq(s, "Quarantine") {
        ConditionCode::Quarantine
    } else if text_eq(s, "Condemned") {
        ConditionCode::Condemned
    } else {
        ConditionCode::Custom(s.to_string())
    }
}

/// Reading the display text of a condition code gives the code back: the same named
/// code, or a custom code with the same text, unless it is a custom code whose text is
/// that of a named code.
pub proof fn lemma_condition_round_trip(c: ConditionCode, r: ConditionCode)
    requires
        !(c is Custom && is_named_condition(condition_text(c))),
        parses_to_condition(condition_text(c), r),
    ensures
        !(c is Custom) ==> r == c,
        c is Custom ==> r is Custom && condition_text(r) == condition_text(c),
{
    reveal_strlit("Serviceable");
    reveal_strlit("Unserviceable");
    reveal_strlit("Repair");
    reveal_strlit("Quarantine");
    reveal_strlit("Condemned");
    lemma_named_condition_texts_distinct();
}

/// The five named condition texts are pairwise different.
proof fn lemma_named_condition_texts_distinct()
    ensures
        "Serviceable"@ != "Unserviceable"@,
        "Serviceable"@ != "Repair"@,
        "Serviceable"@ != "Quarantine"@,
        "Serviceable"@ != "Condemned"@,
        "Unserviceable"@ != "Repair"@,
        "Unserviceable"@ != "Quarantine"@,
        "Unserviceable"@ != "Condemned"@,
        "Repair"@ != "Quarantine"@,
        "Repair"@ != "Condemned"@,
        "Quarantine"@ != "Condemned"@,
{
    reveal_strlit("Serviceable");
    reveal_strlit("Unserviceable");
    reveal_strlit("Repair");
    reveal_strlit("Quarantine");
    reveal_strlit("Condemned");
    assert("Serviceable"@.len() == 11);
    assert("Unserviceable"@.len() == 13);
    assert("Repair"@.len() == 6);
    assert("Quarantine"@.len() == 10);
    assert("Condemned"@.len() == 9);
}

/// Displaying a parsed condition code gives back the text it was read from.
pub proof fn lemma_condition_text_round_trip(s: Seq<char>, c: ConditionCode)
    requires
        parses_to_condition(s, c),
    ensures
        condition_text(c) == s,
{
}

/// The condition code as it reads back from its text: a custom code whose text names
/// a named code becomes that named code; every other code stays as it is.
pub open spec fn normalized_condition(c: ConditionCode) -> ConditionCode {
    match c {
        ConditionCode::Custom(s) => if s@ == "Serviceable"@ {
            ConditionCode::Serviceable
        } else if s@ == "Unserviceable"@ {
            ConditionCode::Unserviceable
        } else if s@ == "Repair"@ {
            ConditionCode::Repair
        } else if s@ == "Quarantine"@ {
            ConditionCode::Quarantine
        } else if s@ == "Condemned"@ {
            ConditionCode::Condemned
        } else {
            c
        },
        _ => c,
    }
}

/// The condition code as the store keeps it: read back from its text.
pub fn normalize_condition(c: &ConditionCode) -> (r: ConditionCode)
    ensures
        r == normalized_condition(*c),
        parses_to_condition(condition_text(*c), r),
        condition_text(r) == condition_text(*c),
{
    proof {
        lemma_named_condition_texts_distinct();
    }
    match c {
        ConditionCode::Custom(s) => {
            let p = parse_condition_code(s.as_str());
            match p {
                ConditionCode::Custom(_) => c.duplicate(),
                _ => p,
            }
        },
        _ => c.duplicate(),
    }
}

/// A normalized condition code has the text of the code it came from.
pub proof fn lemma_normalized_condition_text(c: ConditionCode)
    ensures
        condition_text(normalized_condition(c)) == condition_text(c),
        parses_to_condition(condition_text(c), normalized_condition(c)),
{
    reveal_strlit("Serviceable");
    reveal_strlit("Unserviceable");
    reveal_strlit("Repair");
    reveal_strlit("Quarantine");
    reveal_strlit("Condemned");
    lemma_named_condition_texts_distinct();
}

/// Stock of one item at one location in one condition.
#[derive(Debug, Clone)]
pub struct StockBalance {
    pub id: u128,
    pub item_id: u128,
    pub location_id: u128,
    pub condition: ConditionCode,
    pub quantity: i64,
    pub updated_at: String,
}

impl StockBalance {
    /// A copy of the balance row.
    pub fn duplicate(&self) -> (r: StockBalance)
        ensures
            r == *self,
    {
        StockBalance {
            id: self.id,
            item_id: self.item_id,
            location_id: self.location_id,
            condition: self.condition.duplicate(),
            quantity: self.quantity,
            updated_at: self.updated_at.clone(),
        }
    }
}

} // verus!
