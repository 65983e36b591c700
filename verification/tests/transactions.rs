use sha2::Digest;
use storeman_core::transactions::adjust::{adjust, AdjustParams};
use storeman_core::transactions::issue::{issue, IssueParams};
use storeman_core::transactions::receive::{receive, ReceiveParams};
use storeman_core::transactions::returning::{process_return, ReturnParams};
use storeman_core::transactions::stocktake::{
    apply_stocktake_adjustment, record_stocktake_count, StocktakeCountParams,
};
use storeman_core::transactions::transfer::{transfer, TransferParams};
use storeman_core::{
    ConditionCode, ControlledCategory, CustodyStatus, Database, Item, ItemType, Role,
    StoremanError, TransactionType, User,
};

const ITEM: u128 = 0x1111_2222_3333_4444_5555_6666_7777_8888;

fn sample_item(id: u128, description: &str) -> Item {
    Item {
        id,
        barcode: None,
        nsn: None,
        part_number: None,
        description: description.to_string(),
        category: "Webbing".to_string(),
        item_type: ItemType::Consumable,
        unit_of_issue: "EA".to_string(),
        controlled_category: ControlledCategory::NotControlled,
        reorder_point: Some(5),
        shelf_life_days: None,
        notes: String::new(),
        active: true,
        created_at: "2024-01-01T00:00:00+00:00".to_string(),
        updated_at: "2024-01-01T00:00:00+00:00".to_string(),
        equipment_variant_id: None,
    }
}

fn setup() -> (Database, User, u128, u128) {
    let mut db = Database::open_in_memory().expect("store opens");
    let (admin, _) = db.get_user_by_username("admin").unwrap().expect("admin exists");
    let locations = db.list_locations().unwrap();
    assert_eq!(locations.len(), 2);
    db.create_item(&sample_item(ITEM, "Rifle sling")).unwrap();
    (db, admin, locations[0].id, locations[1].id)
}

fn receive_params(location: u128, quantity: i64) -> ReceiveParams {
    ReceiveParams {
        item_id: ITEM,
        to_location_id: location,
        quantity,
        condition: ConditionCode::Serviceable,
        lot_number: None,
        expiry_date: None,
        serial_numbers: vec![],
        reference: "REF-1".to_string(),
        notes: String::new(),
    }
}

fn issue_params(location: u128, quantity: i64) -> IssueParams {
    IssueParams {
        item_id: ITEM,
        from_location_id: location,
        quantity,
        condition: ConditionCode::Serviceable,
        custodian_name: "Smith".to_string(),
        rank: "Cpl".to_string(),
        unit: "1 RCR".to_string(),
        reference: String::new(),
        notes: String::new(),
    }
}

fn balance(db: &Database, location: u128) -> i64 {
    db.get_balance(ITEM, location, &ConditionCode::Serviceable).unwrap()
}

fn user_with_role(db: &mut Database, role: Role, name: &str, id: u128) -> User {
    let user = User {
        id,
        username: name.to_string(),
        display_name: name.to_string(),
        role,
        rank: "Pte".to_string(),
        active: true,
        created_at: "2024-01-01T00:00:00+00:00".to_string(),
        last_login: None,
    };
    db.create_user(&user, "x").unwrap();
    user
}

#[test]
fn receive_raises_balance_and_records() {
    let (mut db, admin, a, _) = setup();
    let tx = receive(&mut db, &admin, receive_params(a, 10)).unwrap();
    assert_eq!(balance(&db, a), 10);
    assert!(matches!(tx.transaction_type, TransactionType::Receive));
    assert_eq!(tx.quantity, 10);
    assert_eq!(tx.item_description, "Rifle sling");
    let entries = db.list_audit_entries(10).unwrap();
    assert_eq!(entries.len(), 1);
    assert_eq!(entries[0].action, "RECEIVE");
    assert_eq!(
        entries[0].details,
        format!("Received 10 x Rifle sling to {}", uuid::Uuid::from_u128(a))
    );
    assert_eq!(db.list_transactions(10).unwrap().len(), 1);
}

#[test]
fn receive_with_lot_and_serials() {
    let (mut db, admin, a, _) = setup();
    let mut p = receive_params(a, 2);
    p.lot_number = Some("LOT-7".to_string());
    p.serial_numbers = vec!["SN-1".to_string(), "SN-2".to_string()];
    let tx = receive(&mut db, &admin, p).unwrap();
    assert_eq!(tx.serial_ids.len(), 2);
    assert!(tx.lot_id.is_some());
    let lots = db.list_lots_for_item(ITEM).unwrap();
    assert_eq!(lots.len(), 1);
    assert_eq!(lots[0].lot_number, "LOT-7");
    assert_eq!(lots[0].quantity, 2);
    let serials = db.list_serials_for_item(ITEM).unwrap();
    assert_eq!(serials.len(), 2);
    assert_eq!(serials[0].serial_number, "SN-1");
    assert_eq!(serials[1].serial_number, "SN-2");
}

#[test]
fn issue_lowers_balance_and_opens_custody() {
    let (mut db, admin, a, _) = setup();
    receive(&mut db, &admin, receive_params(a, 10)).unwrap();
    let tx = issue(&mut db, &admin, issue_params(a, 4)).unwrap();
    assert_eq!(balance(&db, a), 6);
    assert!(matches!(tx.transaction_type, TransactionType::Issue));
    let custody = db.list_active_custody().unwrap();
    assert_eq!(custody.len(), 1);
    assert_eq!(custody[0].quantity, 4);
    assert_eq!(custody[0].custodian_name, "Smith");
    let entries = db.list_audit_entries(1).unwrap();
    assert_eq!(entries[0].details, "Issued 4 x Rifle sling to Cpl Smith");
}

#[test]
fn issue_beyond_stock_is_refused() {
    let (mut db, admin, a, _) = setup();
    receive(&mut db, &admin, receive_params(a, 10)).unwrap();
    let r = issue(&mut db, &admin, issue_params(a, 11));
    assert!(matches!(r, Err(StoremanError::InsufficientStock { available: 10, requested: 11 })));
    assert_eq!(balance(&db, a), 10);
    assert_eq!(db.list_transactions(10).unwrap().len(), 1);
    assert_eq!(db.list_active_custody().unwrap().len(), 0);
}

#[test]
fn issue_undoes_receive() {
    let (mut db, admin, a, b) = setup();
    receive(&mut db, &admin, receive_params(a, 7)).unwrap();
    issue(&mut db, &admin, issue_params(a, 7)).unwrap();
    assert_eq!(balance(&db, a), 0);
    assert_eq!(balance(&db, b), 0);
}

#[test]
fn return_undoes_issue() {
    let (mut db, admin, a, _) = setup();
    receive(&mut db, &admin, receive_params(a, 5)).unwrap();
    issue(&mut db, &admin, issue_params(a, 5)).unwrap();
    assert_eq!(balance(&db, a), 0);
    let custody = db.list_active_custody().unwrap();
    let c = &custody[0];
    let params = ReturnParams {
        custody_id: c.id,
        item_id: ITEM,
        to_location_id: a,
        quantity: c.quantity,
        condition: ConditionCode::Serviceable,
        notes: String::new(),
    };
    let tx = process_return(&mut db, &admin, params).unwrap();
    assert!(matches!(tx.transaction_type, TransactionType::Return));
    assert_eq!(balance(&db, a), 5);
    assert_eq!(db.list_active_custody().unwrap().len(), 0);
    let all = db.list_all_custody().unwrap();
    assert!(matches!(all[0].status, CustodyStatus::Returned));
    assert!(all[0].returned_at.is_some());
}

#[test]
fn custody_is_returned_once() {
    let (mut db, admin, a, _) = setup();
    receive(&mut db, &admin, receive_params(a, 5)).unwrap();
    issue(&mut db, &admin, issue_params(a, 5)).unwrap();
    let c = db.list_active_custody().unwrap()[0].clone();
    let params = || ReturnParams {
        custody_id: c.id,
        item_id: ITEM,
        to_location_id: a,
        quantity: c.quantity,
        condition: ConditionCode::Serviceable,
        notes: String::new(),
    };
    process_return(&mut db, &admin, params()).unwrap();
    assert_eq!(balance(&db, a), 5);
    let returned_at = db.list_all_custody().unwrap()[0].returned_at.clone();
    let before_tx = db.list_transactions(1000).unwrap().len();
    match process_return(&mut db, &admin, params()) {
        Err(StoremanError::NotFound(m)) => assert_eq!(m, "Active custody record not found"),
        _ => panic!("expected a refusal"),
    }
    assert_eq!(balance(&db, a), 5);
    assert_eq!(db.list_transactions(1000).unwrap().len(), before_tx);
    assert_eq!(db.list_all_custody().unwrap()[0].returned_at, returned_at);
    let missing = ReturnParams { custody_id: 0xdead, ..params() };
    assert!(matches!(process_return(&mut db, &admin, missing), Err(StoremanError::NotFound(_))));
}

#[test]
fn transfer_moves_and_back_restores() {
    let (mut db, admin, a, b) = setup();
    receive(&mut db, &admin, receive_params(a, 10)).unwrap();
    let p = TransferParams {
        item_id: ITEM,
        from_location_id: a,
        to_location_id: b,
        quantity: 4,
        condition: ConditionCode::Serviceable,
        notes: String::new(),
    };
    transfer(&mut db, &admin, p).unwrap();
    assert_eq!(balance(&db, a), 6);
    assert_eq!(balance(&db, b), 4);
    assert_eq!(balance(&db, a) + balance(&db, b), 10);
    let back = TransferParams {
        item_id: ITEM,
        from_location_id: b,
        to_location_id: a,
        quantity: 4,
        condition: ConditionCode::Serviceable,
        notes: String::new(),
    };
    transfer(&mut db, &admin, back).unwrap();
    assert_eq!(balance(&db, a), 10);
    assert_eq!(balance(&db, b), 0);
}

#[test]
fn transfer_beyond_stock_is_refused() {
    let (mut db, admin, a, b) = setup();
    receive(&mut db, &admin, receive_params(a, 3)).unwrap();
    let p = TransferParams {
        item_id: ITEM,
        from_location_id: a,
        to_location_id: b,
        quantity: 4,
        condition: ConditionCode::Serviceable,
        notes: String::new(),
    };
    let r = transfer(&mut db, &admin, p);
    assert!(matches!(r, Err(StoremanError::InsufficientStock { available: 3, requested: 4 })));
    assert_eq!(balance(&db, a), 3);
}

#[test]
fn adjust_needs_approval_rights() {
    let (mut db, admin, a, _) = setup();
    receive(&mut db, &admin, receive_params(a, 10)).unwrap();
    let storeman = user_with_role(&mut db, Role::Storeman, "store", 0x42);
    let p = AdjustParams {
        item_id: ITEM,
        location_id: a,
        condition: ConditionCode::Serviceable,
        delta: -3,
        reason: "Damaged".to_string(),
        notes: String::new(),
    };
    let r = adjust(&mut db, &storeman, p);
    match r {
        Err(StoremanError::Unauthorized(m)) => assert_eq!(m, "Storeman cannot approve transactions"),
        _ => panic!("expected a refusal"),
    }
    assert_eq!(balance(&db, a), 10);
    let p = AdjustParams {
        item_id: ITEM,
        location_id: a,
        condition: ConditionCode::Serviceable,
        delta: -3,
        reason: "Damaged".to_string(),
        notes: String::new(),
    };
    let tx = adjust(&mut db, &admin, p).unwrap();
    assert_eq!(balance(&db, a), 7);
    assert!(tx.requires_approval);
    assert!(tx.approved);
    assert_eq!(tx.approved_by_id, Some(admin.id));
}

#[test]
fn officer_cannot_transact() {
    let (mut db, _, a, _) = setup();
    let officer = user_with_role(&mut db, Role::Officer, "officer", 0x43);
    let r = receive(&mut db, &officer, receive_params(a, 1));
    match r {
        Err(StoremanError::Unauthorized(m)) => assert_eq!(m, "Officer cannot perform transactions"),
        _ => panic!("expected a refusal"),
    }
    assert_eq!(balance(&db, a), 0);
    assert_eq!(db.list_audit_entries(10).unwrap().len(), 0);
}

#[test]
fn unknown_item_is_not_found() {
    let (mut db, admin, a, _) = setup();
    let mut p = receive_params(a, 1);
    p.item_id = 0x99;
    match receive(&mut db, &admin, p) {
        Err(StoremanError::NotFound(m)) => assert_eq!(m, "Item not found"),
        _ => panic!("expected not found"),
    }
}

#[test]
fn negative_receipt_below_zero_is_refused() {
    let (mut db, admin, a, _) = setup();
    let r = receive(&mut db, &admin, receive_params(a, -1));
    assert!(matches!(r, Err(StoremanError::InsufficientStock { available: 0, requested: 1 })));
}

#[test]
fn stocktake_count_flags_variance() {
    let (mut db, admin, a, _) = setup();
    receive(&mut db, &admin, receive_params(a, 10)).unwrap();
    let p = StocktakeCountParams {
        item_id: ITEM,
        location_id: a,
        condition: ConditionCode::Serviceable,
        counted_qty: 12,
        notes: String::new(),
    };
    let tx = record_stocktake_count(&mut db, &admin, p).unwrap();
    assert!(tx.requires_approval);
    assert!(!tx.approved);
    assert_eq!(tx.reason, "Expected: 10, Counted: 12, Variance: 2");
    assert_eq!(balance(&db, a), 10);
    let p = StocktakeCountParams {
        item_id: ITEM,
        location_id: a,
        condition: ConditionCode::Serviceable,
        counted_qty: 10,
        notes: String::new(),
    };
    let tx = record_stocktake_count(&mut db, &admin, p).unwrap();
    assert!(!tx.requires_approval);
    assert!(tx.approved);
}

#[test]
fn stocktake_adjustment_sets_count() {
    let (mut db, admin, a, _) = setup();
    receive(&mut db, &admin, receive_params(a, 10)).unwrap();
    let p = StocktakeCountParams {
        item_id: ITEM,
        location_id: a,
        condition: ConditionCode::Serviceable,
        counted_qty: 8,
        notes: String::new(),
    };
    let tx = apply_stocktake_adjustment(&mut db, &admin, p).unwrap();
    assert_eq!(tx.quantity, -2);
    assert_eq!(tx.reason, "Stocktake adjustment: variance -2");
    assert_eq!(balance(&db, a), 8);
}

fn sha256_hex(data: &str) -> String {
    hex::encode(<sha2::Sha256 as Digest>::digest(data.as_bytes()))
}

#[test]
fn audit_entries_form_a_chain() {
    let (mut db, admin, a, b) = setup();
    receive(&mut db, &admin, receive_params(a, 10)).unwrap();
    issue(&mut db, &admin, issue_params(a, 2)).unwrap();
    let p = TransferParams {
        item_id: ITEM,
        from_location_id: a,
        to_location_id: b,
        quantity: 1,
        condition: ConditionCode::Serviceable,
        notes: String::new(),
    };
    transfer(&mut db, &admin, p).unwrap();
    let mut entries = db.list_audit_entries(100).unwrap();
    entries.reverse();
    assert_eq!(entries.len(), 3);
    let mut previous = "GENESIS".to_string();
    for e in &entries {
        assert_eq!(e.previous_hash, previous);
        let fields = [
            e.previous_hash.clone(),
            uuid::Uuid::from_u128(e.entry_id).to_string(),
            e.timestamp.clone(),
            uuid::Uuid::from_u128(e.user_id).to_string(),
            e.user_name.clone(),
            e.action.clone(),
            e.entity_type.clone(),
            uuid::Uuid::from_u128(e.entity_id).to_string(),
            e.details.clone(),
        ];
        let text: String = fields.iter().map(|f| format!("{}:{}|", f.chars().count(), f)).collect();
        assert_eq!(e.entry_hash, sha256_hex(&text));
        previous = e.entry_hash.clone();
    }
    assert_eq!(db.get_last_audit_hash().unwrap(), previous);
}

#[test]
fn officer_is_refused_every_transaction() {
    let (mut db, admin, a, b) = setup();
    receive(&mut db, &admin, receive_params(a, 10)).unwrap();
    let officer = user_with_role(&mut db, Role::Officer, "officer", 0x51);
    let before_tx = db.list_transactions(1000).unwrap().len();
    let before_audit = db.list_audit_entries(1000).unwrap().len();
    let expect = |r: Result<storeman_core::Transaction, StoremanError>| match r {
        Err(StoremanError::Unauthorized(m)) => assert_eq!(m, "Officer cannot perform transactions"),
        _ => panic!("expected a refusal"),
    };
    expect(receive(&mut db, &officer, receive_params(a, 5)));
    expect(issue(&mut db, &officer, issue_params(a, 1)));
    expect(process_return(&mut db, &officer, ReturnParams {
        custody_id: 1,
        item_id: ITEM,
        to_location_id: a,
        quantity: 1,
        condition: ConditionCode::Serviceable,
        notes: String::new(),
    }));
    expect(transfer(&mut db, &officer, TransferParams {
        item_id: ITEM,
        from_location_id: a,
        to_location_id: b,
        quantity: 1,
        condition: ConditionCode::Serviceable,
        notes: String::new(),
    }));
    let count = || StocktakeCountParams {
        item_id: ITEM,
        location_id: a,
        condition: ConditionCode::Serviceable,
        counted_qty: 7,
        notes: String::new(),
    };
    expect(record_stocktake_count(&mut db, &officer, count()));
    expect(apply_stocktake_adjustment(&mut db, &officer, count()));
    assert_eq!(balance(&db, a), 10);
    assert_eq!(balance(&db, b), 0);
    assert_eq!(db.list_transactions(1000).unwrap().len(), before_tx);
    assert_eq!(db.list_audit_entries(1000).unwrap().len(), before_audit);
}

#[test]
fn second_stocktake_adjustment_changes_nothing() {
    let (mut db, admin, a, _) = setup();
    receive(&mut db, &admin, receive_params(a, 10)).unwrap();
    let count = || StocktakeCountParams {
        item_id: ITEM,
        location_id: a,
        condition: ConditionCode::Serviceable,
        counted_qty: 7,
        notes: String::new(),
    };
    let t1 = apply_stocktake_adjustment(&mut db, &admin, count()).unwrap();
    assert_eq!(t1.quantity, -3);
    assert_eq!(balance(&db, a), 7);
    let t2 = apply_stocktake_adjustment(&mut db, &admin, count()).unwrap();
    assert_eq!(t2.quantity, 0);
    assert_eq!(balance(&db, a), 7);
}
