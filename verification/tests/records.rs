use storeman_core::db::rows::{ids_from_json, id_from_text, transaction_from_row, TransactionRow};
use storeman_core::forms::admin::admin_notice;
use storeman_core::forms::login::{sign_out, LoginState};
use storeman_core::forms::reports::export_notice;
use storeman_core::forms::Screen;
use storeman_core::models::item::parse_controlled_category;
use storeman_core::{hash_password, verify_password, Role, TransactionType};
use storeman_core::transactions::issue::{issue, IssueParams};
use storeman_core::transactions::receive::{receive, ReceiveParams};
use storeman_core::{
    ConditionCode, ControlledCategory, CustodyStatus, Database, Item, ItemType, LotRecord, StoremanError,
    User,
};

fn item(id: u128, description: &str) -> Item {
    Item {
        id,
        barcode: None,
        nsn: None,
        part_number: None,
        description: description.to_string(),
        category: "Cat".to_string(),
        item_type: ItemType::Consumable,
        unit_of_issue: "EA".to_string(),
        controlled_category: ControlledCategory::NotControlled,
        reorder_point: None,
        shelf_life_days: None,
        notes: String::new(),
        active: true,
        created_at: "2024-01-01T00:00:00+00:00".to_string(),
        updated_at: "2024-01-01T00:00:00+00:00".to_string(),
        equipment_variant_id: None,
    }
}

fn setup() -> (Database, User, u128) {
    let db = Database::open_in_memory().unwrap();
    let (admin, _) = db.get_user_by_username("admin").unwrap().unwrap();
    let a = db.list_locations().unwrap()[0].id;
    (db, admin, a)
}

fn lot(expiry_date: Option<i32>) -> LotRecord {
    LotRecord {
        id: 1,
        item_id: 2,
        lot_number: "L1".to_string(),
        expiry_date,
        quantity: 5,
        location_id: None,
        received_at: "2024-01-01T00:00:00+00:00".to_string(),
        notes: String::new(),
        active: true,
    }
}

#[test]
fn lot_expiry_against_today() {
    // Day numbers count from 1 January of year 1.
    assert!(lot(Some(1)).is_expired());
    assert!(!lot(Some(1)).is_expiring_soon(30));
    assert!(!lot(Some(5_000_000)).is_expired());
    assert!(!lot(Some(5_000_000)).is_expiring_soon(30));
    assert!(!lot(None).is_expired());
    assert!(!lot(None).is_expiring_soon(30));
    assert!(lot(Some(100)).is_expired_on(101));
    assert!(!lot(Some(100)).is_expired_on(100));
    assert!(lot(Some(100)).is_expiring_soon_on(90, 10));
    assert!(!lot(Some(100)).is_expiring_soon_on(89, 10));
    assert!(!lot(Some(100)).is_expiring_soon_on(101, 10));
}

#[test]
fn user_lookup_and_updates() {
    let (mut db, admin, _) = setup();
    let found = db.get_user(admin.id).unwrap().unwrap();
    assert_eq!(found.username, "admin");
    assert_eq!(found.role, admin.role);
    assert!(db.get_user(admin.id.wrapping_add(1)).unwrap().is_none());

    db.update_user_password(admin.id, "new-hash").unwrap();
    let (_, hash) = db.get_user_by_username("admin").unwrap().unwrap();
    assert_eq!(hash, "new-hash");

    assert!(db.get_user(admin.id).unwrap().unwrap().last_login.is_none());
    db.update_last_login(admin.id).unwrap();
    assert!(db.get_user(admin.id).unwrap().unwrap().last_login.is_some());

    // An unknown user changes nothing.
    db.update_user_password(12345, "other").unwrap();
    let (_, hash) = db.get_user_by_username("admin").unwrap().unwrap();
    assert_eq!(hash, "new-hash");
}

#[test]
fn item_and_location_updates() {
    let (mut db, _, a) = setup();
    db.create_item(&item(7, "Torch")).unwrap();
    let mut it = db.get_item(7).unwrap().unwrap();
    it.description = "Torch, LED".to_string();
    db.update_item(&it).unwrap();
    let back = db.get_item(7).unwrap().unwrap();
    assert_eq!(back.description, "Torch, LED");
    assert_ne!(back.updated_at, "2024-01-01T00:00:00+00:00");

    let mut loc = db.get_location(a).unwrap().unwrap();
    assert_eq!(loc.display_code(), "WH-1-A-01-01");
    loc.bin = "07".to_string();
    db.update_location(&loc).unwrap();
    assert_eq!(db.get_location(a).unwrap().unwrap().display_code(), "WH-1-A-01-07");
    assert!(db.get_location(999).unwrap().is_none());
}

#[test]
fn balance_upserts_add_up() {
    let (mut db, _, a) = setup();
    db.create_item(&item(7, "Torch")).unwrap();
    assert_eq!(db.get_balance(7, a, &ConditionCode::Serviceable).unwrap(), 0);
    db.upsert_balance(7, a, &ConditionCode::Serviceable, 5).unwrap();
    db.upsert_balance(7, a, &ConditionCode::Serviceable, -2).unwrap();
    assert_eq!(db.get_balance(7, a, &ConditionCode::Serviceable).unwrap(), 3);
    assert_eq!(db.get_balance(7, a, &ConditionCode::Unserviceable).unwrap(), 0);
    assert_eq!(db.list_balances_for_item(7).unwrap().len(), 1);
    // A balance that would go below zero is refused and leaves the count alone.
    match db.upsert_balance(7, a, &ConditionCode::Serviceable, -4) {
        Err(StoremanError::InsufficientStock { available, requested }) => {
            assert_eq!((available, requested), (3, 4));
        }
        _ => panic!("expected a refusal"),
    }
    assert_eq!(db.get_balance(7, a, &ConditionCode::Serviceable).unwrap(), 3);
}

#[test]
fn closing_custody_marks_it_returned() {
    let (mut db, admin, a) = setup();
    db.create_item(&item(7, "Torch")).unwrap();
    let p = ReceiveParams {
        item_id: 7,
        to_location_id: a,
        quantity: 1,
        condition: ConditionCode::Serviceable,
        lot_number: None,
        expiry_date: None,
        serial_numbers: vec![],
        reference: String::new(),
        notes: String::new(),
    };
    receive(&mut db, &admin, p).unwrap();
    let ip = IssueParams {
        item_id: 7,
        from_location_id: a,
        quantity: 1,
        condition: ConditionCode::Serviceable,
        custodian_name: "Smith".to_string(),
        rank: "Cpl".to_string(),
        unit: "1 RCR".to_string(),
        reference: String::new(),
        notes: String::new(),
    };
    issue(&mut db, &admin, ip).unwrap();
    let active = db.list_active_custody().unwrap();
    assert_eq!(active.len(), 1);
    let id = active[0].id;
    db.close_custody(id).unwrap();
    assert!(db.list_active_custody().unwrap().is_empty());
    let all = db.list_all_custody().unwrap();
    assert_eq!(all.len(), 1);
    assert_eq!(all[0].status, CustodyStatus::Returned);
    assert!(all[0].returned_at.is_some());
}

#[test]
fn tables_round_trip_and_negative_balances_refused() {
    let (mut db, _, a) = setup();
    db.create_item(&item(7, "Torch")).unwrap();
    db.upsert_balance(7, a, &ConditionCode::Serviceable, 4).unwrap();
    let tables = db.to_tables();
    assert_eq!(tables.balances.len(), 1);
    let back = Database::from_tables(tables).unwrap();
    assert_eq!(back.get_balance(7, a, &ConditionCode::Serviceable).unwrap(), 4);
    assert_eq!(back.list_items(false).unwrap().len(), db.list_items(false).unwrap().len());
    assert_eq!(back.list_users().unwrap().len(), 1);

    let mut bad = db.to_tables();
    bad.balances[0].quantity = -1;
    match Database::from_tables(bad) {
        Err(StoremanError::InvalidInput(m)) => assert_eq!(m, "negative stock balance"),
        _ => panic!("expected a refusal"),
    }
}

#[test]
fn custom_controlled_category_survives_storage() {
    let (mut db, _, _) = setup();
    let mut it = item(7, "Radio");
    it.controlled_category = ControlledCategory::Custom("NATO Restricted".to_string());
    assert_eq!(it.controlled_category.to_string(), "Custom: NATO Restricted");
    db.create_item(&it).unwrap();
    let back = db.get_item(7).unwrap().unwrap();
    assert_eq!(back.controlled_category, ControlledCategory::Custom("NATO Restricted".to_string()));
    for c in [
        ControlledCategory::NotControlled,
        ControlledCategory::ControlledGoods,
        ControlledCategory::ITAR,
        ControlledCategory::COMSECMetadata,
        ControlledCategory::Custom("Custom: nested".to_string()),
        ControlledCategory::Custom(String::new()),
    ] {
        assert_eq!(parse_controlled_category(&c.to_string()), c);
    }
    assert_eq!(parse_controlled_category("Unit Sensitive"), ControlledCategory::Custom("Unit Sensitive".to_string()));
}

#[test]
fn hashing_gives_argon2id_strings() {
    let h1 = hash_password("s3cret").unwrap();
    let h2 = hash_password("s3cret").unwrap();
    assert!(h1.starts_with("$argon2id$"));
    assert_ne!(h1, h2);
    assert!(verify_password("s3cret", &h1) && verify_password("s3cret", &h2));
    assert!(!verify_password("other", &h1));
    assert!(!verify_password("s3cret", "not a hash"));
}

#[test]
fn default_admin_credentials_work() {
    let mut db = Database::open_in_memory().unwrap();
    let u = storeman_core::authenticate(&mut db, "admin", "admin").unwrap();
    assert_eq!(u.role, Role::Admin);
    assert!(matches!(storeman_core::authenticate(&mut db, "admin", "wrong"), Err(StoremanError::AuthFailed)));
    assert!(matches!(storeman_core::authenticate(&mut db, "ghost", "admin"), Err(StoremanError::AuthFailed)));
}

#[test]
fn signing_out_and_notices() {
    let (_, admin, _) = setup();
    let mut user = Some(admin.clone());
    let mut screen = Screen::Items;
    let mut login = LoginState { username: "admin".to_string(), password: "x".to_string(), error: Some("e".to_string()) };
    sign_out(&mut user, &mut screen, &mut login);
    assert!(user.is_none());
    assert_eq!(screen, Screen::Login);
    assert!(login.username.is_empty() && login.password.is_empty() && login.error.is_none());
    assert!(admin_notice(&admin).is_none());
    assert!(export_notice(&admin).is_none());
    let mut storeman = admin.clone();
    storeman.role = Role::Storeman;
    assert_eq!(admin_notice(&storeman).as_deref(), Some("⚠ Administrator access required."));
    assert_eq!(export_notice(&storeman).as_deref(), Some("⚠ You do not have permission to export reports."));
}

#[test]
fn transaction_rows_read_back() {
    let id = "67e55044-10b1-426f-9247-bb680e5fe0c8";
    assert_eq!(id_from_text(id), 0x67e5504410b1426f9247bb680e5fe0c8);
    assert_eq!(id_from_text("garbage"), 0);
    let list = format!("[\"{}\",\"{}\"]", id, "00000000-0000-0000-0000-000000000002");
    assert_eq!(ids_from_json(&list), vec![0x67e5504410b1426f9247bb680e5fe0c8, 2]);
    assert!(ids_from_json("[\"x\"]").is_empty());
    assert!(ids_from_json("not json").is_empty());
    let row = TransactionRow {
        id: id.to_string(),
        transaction_type: "Stocktake Count".to_string(),
        item_id: "00000000-0000-0000-0000-000000000007".to_string(),
        item_description: "Torch".to_string(),
        from_location_id: None,
        to_location_id: Some("bad".to_string()),
        quantity: 3,
        serial_ids_json: list,
        lot_id: None,
        user_id: id.to_string(),
        user_name: "Admin".to_string(),
        approved_by_id: None,
        approved_by_name: None,
        reference: "R".to_string(),
        reason: String::new(),
        notes: String::new(),
        requires_approval: 1,
        approved: 0,
        timestamp: "2024-01-01T00:00:00+00:00".to_string(),
    };
    let t = transaction_from_row(row);
    assert_eq!(t.id, 0x67e5504410b1426f9247bb680e5fe0c8);
    assert_eq!(t.transaction_type, TransactionType::StocktakeCount);
    assert_eq!(t.item_id, 7);
    assert_eq!(t.to_location_id, None);
    assert_eq!(t.serial_ids, vec![0x67e5504410b1426f9247bb680e5fe0c8, 2]);
    assert!(t.requires_approval && !t.approved);
}
