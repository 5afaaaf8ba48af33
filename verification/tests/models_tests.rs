use games_service::enums::platform_enum::Platform;
use games_service::enums::roles_enum::RolesEnum;
use games_service::enums::subscription_enum::SubscriptionType;
use games_service::models::customer::{registration_recorded, RegisterCustomer};
use games_service::models::games::{Game, GameItem};

fn sample_game() -> Game {
    Game {
        reference: None,
        name: "God of War".to_string(),
        description: "An action adventure".to_string(),
        game_category: vec!["action".to_string(), "adventure".to_string()],
        subscription_type: vec![SubscriptionType::Basic, SubscriptionType::Premium, SubscriptionType::InvalidSubscription],
        inventory: Some(vec![
            GameItem { reference: None, barcode: "111".to_string(), platform: Platform::Playstation4, is_available: true },
            GameItem { reference: None, barcode: "222".to_string(), platform: Platform::Xbox, is_available: false },
        ]),
    }
}

fn sample_customer() -> RegisterCustomer {
    RegisterCustomer {
        reference: None,
        name: "Ada".to_string(),
        address: "1 Main St".to_string(),
        phone: "555".to_string(),
        subscription_type: SubscriptionType::Standard,
        email: "ada@example.com".to_string(),
        password: "password".to_string(),
    }
}

#[test]
fn game_subscription_names() {
    let names = sample_game().subscription_type_names();
    assert_eq!(names, vec!["Basic", "Premium", "InvalidSubscription"]);
}

#[test]
fn game_record_holds_stored_values() {
    let g = sample_game();
    let rec = g.record(&"game_1".to_string());
    assert_eq!(rec.reference, "game_1");
    assert_eq!(rec.name, "God of War");
    assert_eq!(rec.description, "An action adventure");
    assert_eq!(rec.game_category, vec!["action", "adventure"]);
    assert_eq!(rec.subscription_type, vec!["Basic", "Premium", "InvalidSubscription"]);
}

#[test]
fn game_item_records_follow_inventory() {
    let recs = sample_game().item_records(&"game_1".to_string());
    assert_eq!(recs.len(), 2);
    assert_eq!(recs[0].barcode, "111");
    assert_eq!(recs[0].reference, "game_1");
    assert_eq!(recs[0].platform, "Playstation4");
    assert!(recs[0].is_available);
    assert_eq!(recs[1].platform, "Xbox");
    assert!(!recs[1].is_available);
    let none = Game { inventory: None, ..sample_game() };
    assert!(none.item_records(&"game_1".to_string()).is_empty());
}

#[test]
fn stored_game_reads_back() {
    let g = sample_game();
    let rec = g.record(&"game_1".to_string());
    let back = Game::from_row(
        Some(rec.reference.clone()),
        rec.name.clone(),
        rec.description.clone(),
        rec.game_category.clone(),
        &rec.subscription_type,
        None,
    );
    assert_eq!(back.subscription_type, g.subscription_type);
    assert_eq!(back.reference, Some("game_1".to_string()));
    assert_eq!(back.game_category, g.game_category);
    for (rec, item) in g.item_records(&"game_1".to_string()).iter().zip(g.inventory.as_ref().unwrap()) {
        let read = GameItem::from_row(Some(rec.reference.clone()), rec.barcode.clone(), &rec.platform, rec.is_available);
        assert_eq!(read.platform, item.platform);
        assert_eq!(read.barcode, item.barcode);
    }
}

#[test]
fn unknown_stored_names_read_as_invalid() {
    let names = vec!["Gold".to_string(), "Basic".to_string()];
    assert_eq!(
        Game::subscription_types_from_names(&names),
        vec![SubscriptionType::InvalidSubscription, SubscriptionType::Basic]
    );
    let item = GameItem::from_row(None, "9".to_string(), "Switch", true);
    assert_eq!(item.platform, Platform::InvalidPlatform);
}

#[test]
fn inventory_columns() {
    let items = sample_game().inventory.unwrap();
    assert!(Game::listing_inventory(None).is_none());
    assert_eq!(Game::listing_inventory(Some(None)).unwrap().len(), 0);
    assert_eq!(Game::listing_inventory(Some(Some(items.clone()))).unwrap().len(), 2);
    assert!(Game::lookup_inventory(None).is_none());
    assert!(Game::lookup_inventory(Some(None)).is_none());
    assert_eq!(Game::lookup_inventory(Some(Some(items))).unwrap().len(), 2);
}

#[test]
fn game_reference_shape() {
    let r = Game::new_reference();
    assert!(r.starts_with("game_"));
    assert_eq!(r.len(), 5 + 32);
}

#[test]
fn customer_credentials_hash_password() {
    let c = sample_customer().credentials(&"customer_1".to_string());
    assert_eq!(c.email, "ada@example.com");
    assert_eq!(c.password, "5e884898da28047151d0e56f8dc6292773603d0d6aabbdd62a11ef721d1542d8");
    assert_eq!(c.role, RolesEnum::Customer);
    assert_eq!(c.reference, Some("customer_1".to_string()));
}

#[test]
fn customer_profile_copies_details() {
    let p = sample_customer().profile(&"customer_1".to_string());
    assert_eq!(p.reference, "customer_1");
    assert_eq!(p.email, "ada@example.com");
    assert_eq!(p.name, "Ada");
    assert_eq!(p.address, "1 Main St");
    assert_eq!(p.phone, "555");
    assert_eq!(p.subscription_type, SubscriptionType::Standard);
}

#[test]
fn customer_reference_and_token() {
    let r = RegisterCustomer::new_reference();
    assert!(r.starts_with("customer_"));
    assert_eq!(r.len(), 9 + 32);
    let t = sample_customer().registration_token(r).unwrap();
    assert_eq!(t.split('.').count(), 3);
}

#[test]
fn registration_needs_both_rows() {
    assert!(registration_recorded(1, 1));
    assert!(!registration_recorded(0, 1));
    assert!(!registration_recorded(1, 0));
    assert!(!registration_recorded(0, 0));
}

#[test]
fn edit_records_use_own_reference() {
    assert!(sample_game().edit_records().is_none());
    let g = Game { reference: Some("game_7".to_string()), ..sample_game() };
    let (rec, recs) = g.edit_records().unwrap();
    assert_eq!(rec.reference, "game_7");
    assert_eq!(rec.subscription_type, vec!["Basic", "Premium", "InvalidSubscription"]);
    assert_eq!(recs.len(), 2);
    assert_eq!(recs[1].reference, "game_7");
    assert_eq!(recs[1].platform, "Xbox");
}
