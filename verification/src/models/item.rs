//! Items of the item master.
use vstd::prelude::*;
use crate::text::{text_eq, dup_opt_text};

verus! {

/// How an item is managed.
#[derive(Debug, Clone, Copy, PartialEq, Eq, Structural)]
pub enum ItemType {
    Consumable,
    NonConsumable,
    Serialized,
    Controlled,
}

/// The text an item type is displayed and stored as.
pub open spec fn item_type_text(t: ItemType) -> Seq<char> {
    match t {
        ItemType::Consumable => "Consumable"@,
        ItemType::NonConsumable => "Non-Consumable"@,
        ItemType::Serialized => "Serialized"@,
        ItemType::Controlled => "Controlled"@,
    }
}

/// The item type `parse_item_type` reads from `s`: unknown text reads as non-consumable.
pub open spec fn item_type_from_text(s: Seq<char>) -> ItemType {
    if s == "Consumable"@ {
        ItemType::Consumable
    } else if s == "Non-Consumable"@ {
        ItemType::NonConsumable
    } else if s == "Serialized"@ {
        ItemType::Serialized
    } else if s == "Controlled"@ {
        ItemType::Controlled
    } else {
        ItemType::NonConsumable
    }
}

impl ItemType {
    /// The display text of the item type.
    pub fn to_string(&self) -> (r: String)
        ensures
            r@ == item_type_text(*self),
    {
        match self {
            ItemType::Consumable => "Consumable".to_string(),
            ItemType::NonConsumable => "Non-Consumable".to_string(),
            ItemType::Serialized => "Serialized".to_string(),
            ItemType::Controlled => "Controlled".to_string(),
        }
    }
}

/// The governance category of a controlled item.
#[derive(Debug, Clone, PartialEq)]
pub enum ControlledCategory {
    NotControlled,
    ControlledGoods,
    ITAR,
    COMSECMetadata,
    Custom(String),
}

/// The text a controlled category is displayed and stored as.
pub open spec fn controlled_category_text(c: ControlledCategory) -> Seq<char> {
    match c {
        ControlledCategory::NotControlled => "None"@,
        ControlledCategory::ControlledGoods => "Controlled Goods"@,
        ControlledCategory::ITAR => "ITAR"@,
        ControlledCategory::COMSECMetadata => "COMSEC Metadata"@,
        ControlledCategory::Custom(s) => "Custom: "@ + s@,
    }
}

/// The prefix a custom category's text is stored behind.
pub open spec fn custom_prefix() -> Seq<char> {
    "Custom: "@
}

/// `c` is what `parse_controlled_category` gives for the text `s`: a text behind the
/// custom prefix is that custom category; the named texts are their categories; any
/// other text is a custom category of that text.
pub open spec fn parses_to_controlled_category(s: Seq<char>, c: ControlledCategory) -> bool {
    if s.len() >= 8 && s.subrange(0, 8) == custom_prefix() {
        c matches ControlledCategory::Custom(t) && t@ == s.subrange(8, s.len() as int)
    } else if s == "None"@ {
        c is NotControlled
    } else if s == "Controlled Goods"@ {
        c is ControlledGoods
    } else if s == "ITAR"@ {
        c is ITAR
    } else if s == "COMSEC Metadata"@ {
        c is COMSECMetadata
    } else {
        c matches ControlledCategory::Custom(t) && t@ == s
    }
}

/// Two categories that read the same: the same named category, or custom categories
/// with the same text.
pub open spec fn same_category(a: ControlledCategory, b: ControlledCategory) -> bool {
    match (a, b) {
        (ControlledCategory::Custom(x), ControlledCategory::Custom(y)) => x@ == y@,
        _ => a == b,
    }
}

impl ControlledCategory {
    /// The display text of the category.
    pub fn to_string(&self) -> (r: String)
        ensures
            r@ == controlled_category_text(*self),
    {
        match self {
            ControlledCategory::NotControlled => "None".to_string(),
            ControlledCategory::ControlledGoods => "Controlled Goods".to_string(),
            ControlledCategory::ITAR => "ITAR".to_string(),
            ControlledCategory::COMSECMetadata => "COMSEC Metadata".to_string(),
            ControlledCategory::Custom(s) => {
                let mut r = "Custom: ".to_string();
                r.append(s.as_str());
                r
            },
        }
    }

    /// A copy of the category.
    pub fn duplicate(&self) -> (r: ControlledCategory)
        ensures
            r == *self,
    {
        match self {
            ControlledCategory::NotControlled => ControlledCategory::NotControlled,
            ControlledCategory::ControlledGoods => ControlledCategory::ControlledGoods,
            ControlledCategory::ITAR => ControlledCategory::ITAR,
            ControlledCategory::COMSECMetadata => ControlledCategory::COMSECMetadata,
            ControlledCategory::Custom(s) => ControlledCategory::Custom(s.clone()),
        }
    }
}

/// Reads a controlled category from its text: the text behind the custom prefix is a
/// custom category, and any text that names no category is a custom category too.
pub fn parse_controlled_category(s: &str) -> (r: ControlledCategory)
    ensures
        parses_to_controlled_category(s@, r),
{
    proof {
        reveal_strlit("Custom: ");
    }
    let n = s.unicode_len();
    if n >= 8 && text_eq(s.substring_char(0, 8), "Custom: ") {
        ControlledCategory::Custom(s.substring_char(8, n).to_string())
    } else if text_eq(s, "None") {
        ControlledCategory::NotControlled
    } else if text_eq(s, "Controlled Goods") {
        ControlledCategory::ControlledGoods
    } else if text_eq(s, "ITAR") {
        ControlledCategory::ITAR
    } else if text_eq(s, "COMSEC Metadata") {
        ControlledCategory::COMSECMetadata
    } else {
        ControlledCategory::Custom(s.to_string())
    }
}

/// Reads an item type from its text; unknown text reads as non-consumable.
pub fn parse_item_type(s: &str) -> (r: ItemType)
    ensures
        r == item_type_from_text(s@),
{
    if text_eq(s, "Consumable") {
        ItemType::Consumable
    } else if text_eq(s, "Non-Consumable") {
        ItemType::NonConsumable
    } else if text_eq(s, "Serialized") {
        ItemType::Serialized
    } else if text_eq(s, "Controlled") {
        ItemType::Controlled
    } else {
        ItemType::NonConsumable
    }
}

/// Reading the stored text of an item type gives the type back.
pub proof fn lemma_item_type_round_trip(t: ItemType)
    ensures
        item_type_from_text(item_type_text(t)) == t,
{
    reveal_strlit("Consumable");
    reveal_strlit("Non-Consumable");
    reveal_strlit("Serialized");
    reveal_strlit("Controlled");
    assert("Consumable"@.len() == 10);
    assert("Non-Consumable"@.len() == 14);
    assert("Serialized"@.len() == 10);
    assert("Controlled"@.len() == 10);
    assert("Consumable"@[0] != "Serialized"@[0]);
    assert("Controlled"@[0] != "Serialized"@[0]);
    assert("Consumable"@[3] != "Controlled"@[3]);
}

/// Reading the stored text of a controlled category gives it back, a custom category
/// with its own text.
pub proof fn lemma_controlled_category_round_trip(c: ControlledCategory, r: ControlledCategory)
    requires
        parses_to_controlled_category(controlled_category_text(c), r),
    ensures
        same_category(r, c),
{
    reveal_strlit("None");
    reveal_strlit("Controlled Goods");
    reveal_strlit("ITAR");
    reveal_strlit("COMSEC Metadata");
    reveal_strlit("Custom: ");
    assert("None"@.len() == 4);
    assert("ITAR"@.len() == 4);
    assert("Controlled Goods"@.len() == 16);
    assert("COMSEC Metadata"@.len() == 15);
    assert("Custom: "@.len() == 8);
    assert("None"@[0] != "ITAR"@[0]);
    assert("Controlled Goods"@.subrange(0, 8)[1] != custom_prefix()[1]);
    assert("COMSEC Metadata"@.subrange(0, 8)[1] != custom_prefix()[1]);
    if let ControlledCategory::Custom(s) = c {
        let t = "Custom: "@ + s@;
        assert(t.subrange(0, 8) =~= custom_prefix());
        assert(t.subrange(8, t.len() as int) =~= s@);
    }
}

/// An entry of the item master.
#[derive(Debug, Clone)]
pub struct Item {
    pub id: u128,
    pub barcode: Option<String>,
    pub nsn: Option<String>,
    pub part_number: Option<String>,
    pub description: String,
    pub category: String,
    pub item_type: ItemType,
    pub unit_of_issue: String,
    pub controlled_category: ControlledCategory,
    pub reorder_point: Option<i64>,
    pub shelf_life_days: Option<i64>,
    pub notes: String,
    pub active: bool,
    pub created_at: String,
    pub updated_at: String,
    pub equipment_variant_id: Option<u128>,
}

impl Item {
    /// Whether the item falls under a controlled category.
    pub fn is_controlled(&self) -> (r: bool)
        ensures
            r == !(self.controlled_category is NotControlled),
    {
        !matches!(self.controlled_category, ControlledCategory::NotControlled)
    }

    /// A copy of the item.
    pub fn duplicate(&self) -> (r: Item)
        ensures
            r == *self,
    {
        Item {
            id: self.id,
            barcode: dup_opt_text(&self.barcode),
            nsn: dup_opt_text(&self.nsn),
            part_number: dup_opt_text(&self.part_number),
            description: self.description.clone(),
            category: self.category.clone(),
            item_type: self.item_type,
            unit_of_issue: self.unit_of_issue.clone(),
            controlled_category: self.controlled_category.duplicate(),
            reorder_point: self.reorder_point,
            shelf_life_days: self.shelf_life_days,
            notes: self.notes.clone(),
            active: self.active,
            created_at: self.created_at.clone(),
            updated_at: self.updated_at.clone(),
            equipment_variant_id: self.equipment_variant_id,
        }
    }
}

} // verus!
