use storeman_core::transactions::issue::{issue, IssueParams};
use storeman_core::transactions::receive::{receive, ReceiveParams};
use storeman_core::{
    ConditionCode, ControlledCategory, Database, EquipmentItem, EquipmentVariant, Item, ItemType,
    Location, NatoReference, StoremanError, User,
};

fn item(id: u128, description: &str, reorder: Option<i64>, active: bool) -> Item {
    Item {
        id,
        barcode: None,
        nsn: None,
        part_number: None,
        description: description.to_string(),
        category: "Cat".to_string(),
        item_type: ItemType::Consumable,
        unit_of_issue: "EA".to_string(),
        controlled_category: ControlledCategory::NotControlled,
        reorder_point: reorder,
        shelf_life_days: None,
        notes: String::new(),
        active,
        created_at: "2024-01-01T00:00:00+00:00".to_string(),
        updated_at: "2024-01-01T00:00:00+00:00".to_string(),
        equipment_variant_id: None,
    }
}

fn setup() -> (Database, User, u128) {
    let db = Database::open_in_memory().unwrap();
    let (admin, _) = db.get_user_by_username("admin").unwrap().unwrap();
    let a = db.list_locations().unwrap()[0].id;
    (db, admin, a)
}

fn receive_into(db: &mut Database, admin: &User, item_id: u128, location: u128, q: i64) {
    let p = ReceiveParams {
        item_id,
        to_location_id: location,
        quantity: q,
        condition: ConditionCode::Serviceable,
        lot_number: None,
        expiry_date: None,
        serial_numbers: vec![],
        reference: String::new(),
        notes: String::new(),
    };
    receive(db, admin, p).unwrap();
}

#[test]
fn default_locations_sorted() {
    let (db, _, _) = setup();
    let locs = db.list_locations().unwrap();
    assert_eq!(locs[0].display_code(), "WH-1-A-01-01");
    assert_eq!(locs[1].display_code(), "WH-1-B-01-01");
    assert_eq!(locs[0].description, "Main Warehouse Row A");
}

#[test]
fn locations_sorted_by_all_levels() {
    let (mut db, _, _) = setup();
    let mk = |id: u128, wh: &str, aisle: &str| Location {
        id,
        warehouse: wh.to_string(),
        aisle: aisle.to_string(),
        rack: "01".to_string(),
        bin: "01".to_string(),
        description: String::new(),
        capacity_note: String::new(),
        active: true,
    };
    db.create_location(&mk(10, "WH-0", "Z")).unwrap();
    db.create_location(&mk(11, "WH-1", "AA")).unwrap();
    let codes: Vec<String> = db.list_locations().unwrap().iter().map(|l| l.display_code()).collect();
    assert_eq!(codes, vec!["WH-0-Z-01-01", "WH-1-A-01-01", "WH-1-AA-01-01", "WH-1-B-01-01"]);
    match db.create_location(&mk(10, "X", "Y")) {
        Err(StoremanError::Database(m)) => assert_eq!(m, "UNIQUE constraint failed: locations.id"),
        _ => panic!("expected a refusal"),
    }
}

#[test]
fn items_sorted_by_description_and_filtered() {
    let (mut db, _, _) = setup();
    db.create_item(&item(1, "Zulu", None, true)).unwrap();
    db.create_item(&item(2, "Alpha", None, false)).unwrap();
    db.create_item(&item(3, "Mike", None, true)).unwrap();
    let all: Vec<String> = db.list_items(false).unwrap().into_iter().map(|i| i.description).collect();
    assert_eq!(all, vec!["Alpha", "Mike", "Zulu"]);
    let active: Vec<String> = db.list_items(true).unwrap().into_iter().map(|i| i.description).collect();
    assert_eq!(active, vec!["Mike", "Zulu"]);
}

#[test]
fn transactions_latest_first_and_limited() {
    let (mut db, admin, a) = setup();
    db.create_item(&item(1, "Thing", None, true)).unwrap();
    for q in 1..=3 {
        receive_into(&mut db, &admin, 1, a, q);
    }
    let txs = db.list_transactions(2).unwrap();
    assert_eq!(txs.len(), 2);
    assert!(txs[0].timestamp >= txs[1].timestamp);
    assert_eq!(db.list_transactions(0).unwrap().len(), 0);
    assert_eq!(db.list_transactions(usize::MAX).unwrap().len(), 3);
    assert_eq!(db.list_transactions_for_item(1).unwrap().len(), 3);
    assert_eq!(db.list_transactions_for_item(99).unwrap().len(), 0);
}

#[test]
fn audit_entries_latest_first() {
    let (mut db, admin, a) = setup();
    db.create_item(&item(1, "Thing", None, true)).unwrap();
    receive_into(&mut db, &admin, 1, a, 1);
    receive_into(&mut db, &admin, 1, a, 2);
    let entries = db.list_audit_entries(10).unwrap();
    assert_eq!(entries.len(), 2);
    assert_eq!(entries[0].previous_hash, entries[1].entry_hash);
    assert_eq!(db.list_audit_entries(1).unwrap()[0].entry_id, entries[0].entry_id);
}

#[test]
fn below_reorder() {
    let (mut db, admin, a) = setup();
    db.create_item(&item(1, "Low", Some(5), true)).unwrap();
    db.create_item(&item(2, "High", Some(5), true)).unwrap();
    db.create_item(&item(3, "NoPoint", None, true)).unwrap();
    db.create_item(&item(4, "Inactive", Some(5), false)).unwrap();
    receive_into(&mut db, &admin, 1, a, 5);
    receive_into(&mut db, &admin, 2, a, 6);
    let rows = db.items_below_reorder().unwrap();
    assert_eq!(rows.len(), 1);
    assert_eq!(rows[0].0.description, "Low");
    assert_eq!(rows[0].1, 5);
}

#[test]
fn stock_export_csv() {
    let (mut db, admin, a) = setup();
    db.create_item(&item(1, "Boots, combat", None, true)).unwrap();
    db.create_item(&item(2, "Anorak", None, true)).unwrap();
    receive_into(&mut db, &admin, 1, a, 3);
    receive_into(&mut db, &admin, 2, a, 4);
    let csv = db.export_stock_csv().unwrap();
    let lines: Vec<&str> = csv.lines().collect();
    assert_eq!(lines[0], "Item ID,Description,Location,Condition,Quantity,Updated At");
    assert!(lines[1].starts_with(&format!("{},Anorak,WH-1-A-01-01,Serviceable,4,", uuid::Uuid::from_u128(2))));
    assert!(lines[2].starts_with(&format!("{},\"Boots, combat\",WH-1-A-01-01,Serviceable,3,", uuid::Uuid::from_u128(1))));
    assert_eq!(lines.len(), 3);
    assert!(csv.ends_with('\n'));
}

#[test]
fn transaction_export_csv() {
    let (mut db, admin, a) = setup();
    db.create_item(&item(1, "Say \"hi\"", None, true)).unwrap();
    receive_into(&mut db, &admin, 1, a, 3);
    let csv = db.export_transactions_csv(10).unwrap();
    let lines: Vec<&str> = csv.lines().collect();
    assert_eq!(lines[0], "ID,Type,Item,Qty,User,Reference,Timestamp");
    assert!(lines[1].contains(",Receive,\"Say \"\"hi\"\"\",3,System Admin,,"));
    assert_eq!(lines.len(), 2);
}

#[test]
fn expiring_lots() {
    let (mut db, admin, a) = setup();
    db.create_item(&item(1, "Rations", None, true)).unwrap();
    for (n, e) in [("L1", 100), ("L2", 130), ("L3", 99)] {
        let p = ReceiveParams {
            item_id: 1,
            to_location_id: a,
            quantity: 1,
            condition: ConditionCode::Serviceable,
            lot_number: Some(n.to_string()),
            expiry_date: Some(e),
            serial_numbers: vec![],
            reference: String::new(),
            notes: String::new(),
        };
        receive(&mut db, &admin, p).unwrap();
    }
    let lots: Vec<String> = db.list_expiring_lots_on(100, 30).unwrap().into_iter().map(|l| l.lot_number).collect();
    assert_eq!(lots, vec!["L1", "L2"]);
    assert_eq!(db.list_expiring_lots_on(100, 29).unwrap().len(), 1);
}

#[test]
fn custody_listing() {
    let (mut db, admin, a) = setup();
    db.create_item(&item(1, "Radio", None, true)).unwrap();
    receive_into(&mut db, &admin, 1, a, 2);
    let p = IssueParams {
        item_id: 1,
        from_location_id: a,
        quantity: 1,
        condition: ConditionCode::Serviceable,
        custodian_name: "Lee".to_string(),
        rank: "Sgt".to_string(),
        unit: String::new(),
        reference: String::new(),
        notes: String::new(),
    };
    issue(&mut db, &admin, p).unwrap();
    assert_eq!(db.list_active_custody().unwrap().len(), 1);
    assert_eq!(db.list_all_custody().unwrap().len(), 1);
    assert_eq!(db.list_balances_for_item(1).unwrap()[0].quantity, 1);
    assert_eq!(db.list_all_balances().unwrap().len(), 1);
}

#[test]
fn equipment_reference() {
    let (mut db, _, _) = setup();
    let items = db.list_equipment_items(false).unwrap();
    assert_eq!(items.len(), 34);
    for w in items.windows(2) {
        let k0 = (w[0].equipment_category.to_string(), w[0].common_name.clone());
        let k1 = (w[1].equipment_category.to_string(), w[1].common_name.clone());
        assert!(k0 <= k1);
    }
    assert_eq!(db.list_all_equipment_variants().unwrap().len(), 19);
    let rifle = items.iter().find(|e| e.common_name == "C7A2 Rifle").unwrap();
    let variants = db.list_equipment_variants(rifle.id).unwrap();
    assert!(variants.len() >= 1);
    assert!(variants.iter().all(|v| v.equipment_id == rifle.id));
    let v = &variants[0];
    assert_eq!(db.get_equipment_variant(v.id).unwrap().unwrap().variant_name, v.variant_name);
    let nr = NatoReference { id: 1, variant_id: v.id, nsn: Some("1005-01-000-0000".to_string()), nato_reporting_name: None };
    db.upsert_nato_reference(&nr).unwrap();
    let nr2 = NatoReference { id: 1, variant_id: v.id, nsn: Some("1005-01-111-1111".to_string()), nato_reporting_name: None };
    db.upsert_nato_reference(&nr2).unwrap();
    let refs = db.list_nato_references(v.id).unwrap();
    assert_eq!(refs.len(), 1);
    assert_eq!(refs[0].nsn.as_deref(), Some("1005-01-111-1111"));
    let orphan = NatoReference { id: 2, variant_id: 12345, nsn: None, nato_reporting_name: None };
    match db.upsert_nato_reference(&orphan) {
        Err(StoremanError::Database(m)) => assert_eq!(m, "FOREIGN KEY constraint failed"),
        _ => panic!("expected a refusal"),
    }
    let bad_variant = EquipmentVariant {
        id: 77,
        equipment_id: 4242,
        variant_name: "X".to_string(),
        calibre_or_spec: None,
        compatible_accessories: None,
        notes: String::new(),
    };
    assert!(db.create_equipment_variant(&bad_variant).is_err());
    let mut e: EquipmentItem = db.get_equipment_item(rifle.id).unwrap().unwrap();
    e.notes = "Updated".to_string();
    db.update_equipment_item(&e).unwrap();
    assert_eq!(db.get_equipment_item(rifle.id).unwrap().unwrap().notes, "Updated");
}

#[test]
fn seeding_is_idempotent() {
    let (mut db, _, _) = setup();
    db.run_migrations().unwrap();
    assert_eq!(db.list_users().unwrap().len(), 1);
    assert_eq!(db.list_locations().unwrap().len(), 2);
    assert_eq!(db.list_equipment_items(true).unwrap().len(), 34);
}
