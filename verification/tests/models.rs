use sha2::Digest;
use storeman_core::audit::AuditLog;
use storeman_core::error::StoremanError;
use storeman_core::models::balance::parse_condition_code;
use storeman_core::models::custody::parse_custody_status;
use storeman_core::models::equipment::{parse_equipment_category, parse_equipment_status, parse_service_branch};
use storeman_core::models::item::{parse_controlled_category, parse_item_type};
use storeman_core::models::transaction::parse_transaction_type;
use storeman_core::models::user::{parse_role, role_to_str};
use storeman_core::text::int_to_text;
use storeman_core::{
    ConditionCode, ControlledCategory, CustodyStatus, EquipmentCategory, EquipmentStatus, ItemType,
    Location, LotRecord, Role, ServiceBranch, TransactionType,
};

#[test]
fn condition_codes_round_trip() {
    for c in [ConditionCode::Serviceable, ConditionCode::Unserviceable, ConditionCode::Repair,
        ConditionCode::Quarantine, ConditionCode::Condemned] {
        let t = c.to_string();
        assert_eq!(parse_condition_code(&t).to_string(), t);
    }
    assert!(matches!(parse_condition_code("Serviceable"), ConditionCode::Serviceable));
    match parse_condition_code("Awaiting parts") {
        ConditionCode::Custom(s) => assert_eq!(s, "Awaiting parts"),
        _ => panic!("expected a custom code"),
    }
}

#[test]
fn roles_round_trip() {
    for r in [Role::Storeman, Role::CQMS, Role::Officer, Role::Inspector, Role::Admin] {
        assert_eq!(parse_role(role_to_str(&r)), r);
        assert_eq!(r.to_string(), role_to_str(&r));
    }
    assert_eq!(parse_role("anything else"), Role::Admin);
}

#[test]
fn enums_round_trip() {
    for t in [ItemType::Consumable, ItemType::NonConsumable, ItemType::Serialized, ItemType::Controlled] {
        assert_eq!(parse_item_type(&t.to_string()), t);
    }
    for t in [TransactionType::Receive, TransactionType::Issue, TransactionType::Return,
        TransactionType::Transfer, TransactionType::Adjust, TransactionType::Dispose, TransactionType::StocktakeCount,
        TransactionType::StocktakeAdjust] {
        assert_eq!(parse_transaction_type(&t.to_string()), t);
    }
    for s in [CustodyStatus::Active, CustodyStatus::Returned, CustodyStatus::Lost, CustodyStatus::Disposed] {
        assert_eq!(parse_custody_status(&s.to_string()), s);
    }
    for c in [EquipmentCategory::Weapon, EquipmentCategory::Vehicle, EquipmentCategory::Optic,
        EquipmentCategory::CES, EquipmentCategory::Comms, EquipmentCategory::Tool,
        EquipmentCategory::Clothing, EquipmentCategory::Ammunition, EquipmentCategory::Other] {
        assert_eq!(parse_equipment_category(&c.to_string()), c);
    }
    for b in [ServiceBranch::Army, ServiceBranch::RCAF, ServiceBranch::RCN, ServiceBranch::Joint] {
        assert_eq!(parse_service_branch(&b.to_string()), b);
    }
    for s in [EquipmentStatus::InService, EquipmentStatus::Limited, EquipmentStatus::Legacy] {
        assert_eq!(parse_equipment_status(&s.to_string()), s);
    }
    assert_eq!(EquipmentStatus::InService.to_string(), "In Service");
    assert!(matches!(parse_controlled_category("None"), ControlledCategory::NotControlled));
    assert_eq!(ControlledCategory::NotControlled.to_string(), "None");
}

#[test]
fn integer_text() {
    assert_eq!(int_to_text(0), "0");
    assert_eq!(int_to_text(-45), "-45");
    assert_eq!(int_to_text(i64::MIN), i64::MIN.to_string());
    assert_eq!(int_to_text(i64::MAX), i64::MAX.to_string());
}

#[test]
fn error_messages() {
    assert_eq!(StoremanError::AuthFailed.to_string(), "Authentication failed");
    assert_eq!(
        StoremanError::InsufficientStock { available: 3, requested: 5 }.to_string(),
        "Insufficient stock: available 3, requested 5"
    );
    assert_eq!(StoremanError::NotFound("x".to_string()).to_string(), "Not found: x");
    assert_eq!(StoremanError::Database("y".to_string()).to_string(), "Database error: y");
    assert_eq!(StoremanError::Other("z".to_string()).to_string(), "z");
    assert_eq!(StoremanError::AuditChainBroken(4).to_string(), "Audit chain broken at entry 4");
    assert_eq!(StoremanError::InvalidInput("q".to_string()).to_string(), "Invalid input: q");
    assert_eq!(StoremanError::Unauthorized("u".to_string()).to_string(), "Insufficient permissions: u");
}

#[test]
fn location_code() {
    let l = Location {
        id: 1,
        warehouse: "WH-1".to_string(),
        aisle: "A".to_string(),
        rack: "01".to_string(),
        bin: "02".to_string(),
        description: String::new(),
        capacity_note: String::new(),
        active: true,
    };
    assert_eq!(l.display_code(), "WH-1-A-01-02");
}

fn lot(expiry: Option<i32>) -> LotRecord {
    LotRecord {
        id: 1,
        item_id: 2,
        lot_number: "L".to_string(),
        expiry_date: expiry,
        quantity: 1,
        location_id: None,
        received_at: String::new(),
        notes: String::new(),
        active: true,
    }
}

#[test]
fn lot_expiry() {
    let l = lot(Some(1000));
    assert_eq!(l.days_until_expiry_on(990), Some(10));
    assert!(!l.is_expired_on(1000));
    assert!(l.is_expired_on(1001));
    assert!(l.is_expiring_soon_on(990, 10));
    assert!(!l.is_expiring_soon_on(989, 10));
    assert!(!l.is_expiring_soon_on(1001, 10));
    let none = lot(None);
    assert_eq!(none.days_until_expiry_on(5), None);
    assert!(!none.is_expired_on(5));
}

fn sha256_hex(data: &str) -> String {
    hex::encode(<sha2::Sha256 as Digest>::digest(data.as_bytes()))
}

#[test]
fn audit_entry_is_sealed() {
    let e = AuditLog::create_entry_at(5, "2024-05-01T10:00:00+00:00", 6, "Admin", "RECEIVE", "Transaction", 7,
        "details", "GENESIS");
    let text = format!(
        "7:GENESIS|36:{}|25:2024-05-01T10:00:00+00:00|36:{}|5:Admin|7:RECEIVE|11:Transaction|36:{}|7:details|",
        uuid::Uuid::from_u128(5), uuid::Uuid::from_u128(6), uuid::Uuid::from_u128(7));
    assert_eq!(e.entry_hash, sha256_hex(&text));
    assert!(e.entry_hash.chars().all(|c| c.is_ascii_hexdigit() && !c.is_ascii_uppercase()));
    assert_eq!(e.entry_hash.len(), 64);
    let f = AuditLog::create_entry(6, "Admin", "ISSUE", "Transaction", 8, "more", &e.entry_hash);
    assert_eq!(f.previous_hash, e.entry_hash);
    assert_ne!(f.entry_id, e.entry_id);
}

#[test]
fn tampered_entry_no_longer_matches_its_hash() {
    let e = AuditLog::create_entry_at(5, "2024-05-01T10:00:00+00:00", 6, "Admin", "RECEIVE", "Transaction", 7,
        "Received 5 x Torch", "GENESIS");
    let next = AuditLog::create_entry_at(8, "2024-05-01T10:05:00+00:00", 6, "Admin", "ISSUE", "Transaction", 9,
        "Issued 1 x Torch", &e.entry_hash);
    // Altering the details while keeping the stored hash: the entry no longer seals.
    let altered = AuditLog::create_entry_at(5, "2024-05-01T10:00:00+00:00", 6, "Admin", "RECEIVE", "Transaction", 7,
        "Received 50 x Torch", "GENESIS");
    assert_ne!(altered.entry_hash, e.entry_hash);
    // Resealing the altered entry: the next entry still points at the old hash.
    assert_eq!(next.previous_hash, e.entry_hash);
    assert_ne!(next.previous_hash, altered.entry_hash);
    // Moving a `|` from the user name into the action changes the hash too.
    let a = AuditLog::create_entry_at(5, "t", 6, "a|b", "c", "Transaction", 7, "d", "GENESIS");
    let b = AuditLog::create_entry_at(5, "t", 6, "a", "b|c", "Transaction", 7, "d", "GENESIS");
    assert_ne!(a.entry_hash, b.entry_hash);
}
