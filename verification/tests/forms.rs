use storeman_core::forms::admin::{create_user_form, AdminState};
use storeman_core::forms::dashboard::{expiring_lot_line, item_count_text, reorder_alert_line, signed_in_line};
use storeman_core::forms::equipment_ref::{count_label, filter_equipment, toggle_selection, EquipmentRefState};
use storeman_core::forms::input::{parse_i64, parse_usize, text_contains, trim_text};
use storeman_core::forms::issue::{submit_issue, IssueState};
use storeman_core::forms::items::{clear_form, filter_items, populate_form, save_item, ItemsState};
use storeman_core::forms::login::{submit_login, LoginState};
use storeman_core::forms::receive::{submit_receive, ReceiveState};
use storeman_core::forms::reports::ReportsState;
use storeman_core::forms::return_form::{submit_return, ReturnsState};
use storeman_core::forms::stocktake::{submit_stocktake, StocktakeState};
use storeman_core::forms::{parse_condition, read_i64, Screen};
use storeman_core::{ConditionCode, ControlledCategory, Database, Item, ItemType, LotRecord, User};

#[test]
fn trimming_whitespace() {
    assert_eq!(trim_text("  abc \t\n"), "abc");
    assert_eq!(trim_text("\u{3000}x y\u{00a0}"), "x y");
    assert_eq!(trim_text("   "), "");
    assert_eq!(trim_text(""), "");
    assert_eq!(trim_text(" a b "), " a b ".trim());
}

#[test]
fn reading_numbers() {
    assert_eq!(parse_i64("42"), Some(42));
    assert_eq!(parse_i64("+5"), Some(5));
    assert_eq!(parse_i64("-0"), Some(0));
    assert_eq!(parse_i64("-9223372036854775808"), Some(i64::MIN));
    assert_eq!(parse_i64("9223372036854775807"), Some(i64::MAX));
    assert_eq!(parse_i64("9223372036854775808"), None);
    assert_eq!(parse_i64(""), None);
    assert_eq!(parse_i64("-"), None);
    assert_eq!(parse_i64("1.5"), None);
    assert_eq!(parse_i64(" 1"), None);
    assert_eq!(parse_usize("+7"), Some(7));
    assert_eq!(parse_usize("-1"), None);
    assert_eq!(parse_usize("18446744073709551616"), None);
    assert_eq!(read_i64(" 12 ", 0), 12);
    assert_eq!(read_i64("twelve", -1), -1);
    for s in ["0", "17", "-17", "+3", "abc", "", "99999999999999999999"] {
        assert_eq!(parse_i64(s), s.parse::<i64>().ok());
        assert_eq!(parse_usize(s), s.parse::<usize>().ok());
    }
}

#[test]
fn searching_text() {
    assert!(text_contains("hello world", "o w"));
    assert!(text_contains("abc", ""));
    assert!(!text_contains("abc", "abcd"));
    assert!(!text_contains("abc", "ac"));
}

#[test]
fn conditions_and_screens() {
    assert!(matches!(parse_condition("Repair"), ConditionCode::Repair));
    assert!(matches!(parse_condition("Lost in transit"), ConditionCode::Custom(_)));
    assert_ne!(Screen::Login, Screen::Dashboard);
}

fn item(id: u128, description: &str) -> Item {
    Item {
        id,
        barcode: Some("BC-77".to_string()),
        nsn: Some("8465-21-000-0001".to_string()),
        part_number: None,
        description: description.to_string(),
        category: "Webbing".to_string(),
        item_type: ItemType::Consumable,
        unit_of_issue: "EA".to_string(),
        controlled_category: ControlledCategory::NotControlled,
        reorder_point: Some(3),
        shelf_life_days: None,
        notes: "n".to_string(),
        active: true,
        created_at: "2024-01-01T00:00:00+00:00".to_string(),
        updated_at: "2024-01-01T00:00:00+00:00".to_string(),
        equipment_variant_id: None,
    }
}

fn signed_in() -> (Database, User, u128) {
    let mut db = Database::open_in_memory().unwrap();
    let mut login = LoginState::default();
    login.username = "admin".to_string();
    login.password = "admin".to_string();
    let user = submit_login(&mut db, &mut login).expect("admin signs in");
    assert!(login.error.is_none());
    db.create_item(&item(1, "Rifle Sling")).unwrap();
    let a = db.list_locations().unwrap()[0].id;
    (db, user, a)
}

#[test]
fn login_form() {
    let mut db = Database::open_in_memory().unwrap();
    let mut s = LoginState::default();
    assert!(submit_login(&mut db, &mut s).is_none());
    assert!(s.error.is_none());
    s.username = "admin".to_string();
    s.password = "bad".to_string();
    assert!(submit_login(&mut db, &mut s).is_none());
    assert_eq!(s.error.as_deref(), Some("Invalid username or password"));
}

#[test]
fn receive_and_issue_forms() {
    let (mut db, user, a) = signed_in();
    let mut r = ReceiveState::default();
    submit_receive(&mut db, &user, &mut r);
    assert_eq!(r.status_msg.as_deref(), Some("✗ Please select an item"));
    r.selected_item_id = Some(1);
    submit_receive(&mut db, &user, &mut r);
    assert_eq!(r.status_msg.as_deref(), Some("✗ Please select a location"));
    r.selected_location_id = Some(a);
    r.quantity = "zero".to_string();
    submit_receive(&mut db, &user, &mut r);
    assert_eq!(r.status_msg.as_deref(), Some("✗ Quantity must be > 0"));
    r.quantity = " 12 ".to_string();
    submit_receive(&mut db, &user, &mut r);
    assert_eq!(r.status_msg.as_deref(), Some("✓ Received 12 units successfully"));
    assert_eq!(r.quantity, "1");
    assert!(r.selected_item_id.is_none());
    assert_eq!(db.get_balance(1, a, &ConditionCode::Serviceable).unwrap(), 12);

    let mut i = IssueState::default();
    i.selected_item_id = Some(1);
    i.selected_location_id = Some(a);
    i.quantity = "5".to_string();
    submit_issue(&mut db, &user, &mut i);
    assert_eq!(i.status_msg.as_deref(), Some("✗ Custodian name is required"));
    i.custodian_name = "  Jones ".to_string();
    i.quantity = "50".to_string();
    submit_issue(&mut db, &user, &mut i);
    assert_eq!(i.status_msg.as_deref(), Some("✗ Error: Insufficient stock: available 12, requested 50"));
    assert_eq!(i.quantity, "50");
    i.quantity = "5".to_string();
    submit_issue(&mut db, &user, &mut i);
    assert_eq!(i.status_msg.as_deref(), Some("✓ Issued 5 units successfully"));
    assert_eq!(db.get_balance(1, a, &ConditionCode::Serviceable).unwrap(), 7);

    let custody = db.list_active_custody().unwrap();
    let mut ret = ReturnsState::default();
    submit_return(&mut db, &user, &mut ret);
    assert_eq!(ret.status_msg.as_deref(), Some("✗ Please select a custody record"));
    ret.selected_custody_id = Some(custody[0].id);
    submit_return(&mut db, &user, &mut ret);
    assert_eq!(ret.status_msg.as_deref(), Some("✗ Please select a return location"));
    ret.selected_location_id = Some(a);
    submit_return(&mut db, &user, &mut ret);
    assert_eq!(ret.status_msg.as_deref(), Some("✓ Return processed successfully"));
    assert_eq!(db.get_balance(1, a, &ConditionCode::Serviceable).unwrap(), 12);
    let mut again = ReturnsState::default();
    again.selected_custody_id = Some(custody[0].id);
    again.selected_location_id = Some(a);
    submit_return(&mut db, &user, &mut again);
    assert!(again.status_msg.is_none());
    assert_eq!(db.get_balance(1, a, &ConditionCode::Serviceable).unwrap(), 12);
}

#[test]
fn stocktake_form() {
    let (mut db, user, a) = signed_in();
    let mut s = StocktakeState::default();
    s.selected_item_id = Some(1);
    s.selected_location_id = Some(a);
    s.counted_qty = "-3".to_string();
    submit_stocktake(&mut db, &user, &mut s);
    assert_eq!(s.status_msg.as_deref(), Some("✗ Quantity must be >= 0"));
    s.counted_qty = "4".to_string();
    submit_stocktake(&mut db, &user, &mut s);
    assert_eq!(s.status_msg.as_deref(), Some("✓ Stocktake count recorded"));
    let mut s = StocktakeState::default();
    s.selected_item_id = Some(1);
    s.selected_location_id = Some(a);
    s.counted_qty = "4".to_string();
    s.apply_adjustment = true;
    submit_stocktake(&mut db, &user, &mut s);
    assert_eq!(s.status_msg.as_deref(), Some("✓ Stocktake count recorded and adjustment applied"));
    assert_eq!(db.get_balance(1, a, &ConditionCode::Serviceable).unwrap(), 4);
}

#[test]
fn admin_form() {
    let mut db = Database::open_in_memory().unwrap();
    let mut s = AdminState::default();
    s.form_username = "  ".to_string();
    create_user_form(&mut db, &mut s);
    assert_eq!(s.status_msg.as_deref(), Some("✗ Username is required"));
    s.form_username = " jdoe ".to_string();
    create_user_form(&mut db, &mut s);
    assert_eq!(s.status_msg.as_deref(), Some("✗ Display name is required"));
    s.form_display_name = "J Doe".to_string();
    create_user_form(&mut db, &mut s);
    assert_eq!(s.status_msg.as_deref(), Some("✗ Password is required"));
    s.form_password = "pw".to_string();
    s.form_role = "CQMS".to_string();
    s.show_user_form = true;
    create_user_form(&mut db, &mut s);
    assert_eq!(s.status_msg.as_deref(), Some("✓ User 'jdoe' created"));
    assert!(!s.show_user_form);
    assert!(s.form_username.is_empty());
    let u = storeman_core::authenticate(&mut db, "jdoe", "pw").unwrap();
    assert_eq!(u.role, storeman_core::Role::CQMS);
    s.form_username = "jdoe".to_string();
    s.form_display_name = "Again".to_string();
    s.form_password = "pw".to_string();
    create_user_form(&mut db, &mut s);
    assert_eq!(s.status_msg.as_deref(), Some("✗ Error: Database error: UNIQUE constraint failed: users.username"));
}

#[test]
fn items_form_and_search() {
    let (mut db, _, _) = signed_in();
    let mut s = ItemsState::default();
    save_item(&mut db, &mut s);
    assert_eq!(s.status_msg.as_deref(), Some("✗ Description is required"));
    s.form_description = " Helmet ".to_string();
    s.form_reorder = "7".to_string();
    s.form_nsn = " 8470 ".to_string();
    s.show_form = true;
    save_item(&mut db, &mut s);
    assert_eq!(s.status_msg.as_deref(), Some("✓ Item saved"));
    assert!(!s.show_form);
    let items = db.list_items(false).unwrap();
    let helmet = items.iter().find(|i| i.description == "Helmet").unwrap().clone();
    assert_eq!(helmet.reorder_point, Some(7));
    assert_eq!(helmet.nsn.as_deref(), Some("8470"));
    populate_form(&mut s, &helmet);
    assert_eq!(s.form_reorder, "7");
    assert_eq!(s.form_item_type, "Consumable");
    s.edit_item = Some(helmet.clone());
    s.form_description = "Helmet, combat".to_string();
    save_item(&mut db, &mut s);
    assert_eq!(db.get_item(helmet.id).unwrap().unwrap().description, "Helmet, combat");
    clear_form(&mut s);
    assert_eq!(s.form_uoi, "EA");
    assert!(s.form_description.is_empty());
    let all = db.list_items(false).unwrap();
    assert_eq!(filter_items(&all, "RIFLE").len(), 1);
    assert_eq!(filter_items(&all, "8465").len(), 1);
    assert_eq!(filter_items(&all, "").len(), 2);
    assert_eq!(filter_items(&all, "zzz").len(), 0);
}

#[test]
fn equipment_filters() {
    let db = Database::open_in_memory().unwrap();
    let items = db.list_equipment_items(false).unwrap();
    let mut s = EquipmentRefState::default();
    assert_eq!(filter_equipment(&items, &s).len(), items.len());
    s.category_filter = "Weapon".to_string();
    let weapons = filter_equipment(&items, &s);
    assert!(weapons.iter().all(|e| e.equipment_category.to_string() == "Weapon"));
    s.search = "c7a2".to_string();
    let found = filter_equipment(&items, &s);
    assert_eq!(found.len(), 1);
    toggle_selection(&mut s, found[0].id);
    assert_eq!(s.selected_item_id, Some(found[0].id));
    toggle_selection(&mut s, found[0].id);
    assert_eq!(s.selected_item_id, None);
    assert_eq!(count_label(1, 34), "1 item (of 34)");
    assert_eq!(count_label(3, 34), "3 items (of 34)");
}

#[test]
fn reports_limits() {
    let mut s = ReportsState::default();
    assert_eq!(s.transaction_limit(), 500);
    assert_eq!(s.audit_entry_limit(), 100);
    s.tx_limit = " 20 ".to_string();
    s.audit_limit = "lots".to_string();
    assert_eq!(s.transaction_limit(), 20);
    assert_eq!(s.audit_entry_limit(), 100);
}

#[test]
fn dashboard_lines() {
    let (db, user, _) = signed_in();
    assert_eq!(item_count_text(&db), "1");
    assert_eq!(signed_in_line(&user), "Logged in as: System Admin (Admin)");
    let it = item(9, "Boots");
    assert_eq!(reorder_alert_line(&it, 2), "⚠ Boots — Stock: 2 (Reorder at: 3)");
    let lot = LotRecord {
        id: 1,
        item_id: 9,
        lot_number: "L-9".to_string(),
        expiry_date: None,
        quantity: 1,
        location_id: None,
        received_at: String::new(),
        notes: String::new(),
        active: true,
    };
    assert_eq!(expiring_lot_line(&lot, 12), "  Lot L-9 — expires in 12 days");
}
