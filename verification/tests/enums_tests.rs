use games_service::enums::platform_enum::Platform;
use games_service::enums::roles_enum::RolesEnum;
use games_service::enums::subscription_enum::SubscriptionType;

#[test]
fn platform_names_read_back() {
    assert_eq!(Platform::str_to_enum("Playstation3"), Platform::Playstation3);
    assert_eq!(Platform::str_to_enum("Playstation4"), Platform::Playstation4);
    assert_eq!(Platform::str_to_enum("Playstation5"), Platform::Playstation5);
    assert_eq!(Platform::str_to_enum("Xbox"), Platform::Xbox);
}

#[test]
fn platform_unknown_names_are_invalid() {
    assert_eq!(Platform::str_to_enum("xbox"), Platform::InvalidPlatform);
    assert_eq!(Platform::str_to_enum(""), Platform::InvalidPlatform);
    assert_eq!(Platform::str_to_enum("Playstation2"), Platform::InvalidPlatform);
    assert_eq!(Platform::str_to_enum("Xbox "), Platform::InvalidPlatform);
    assert_eq!(Platform::str_to_enum("InvalidPlatform"), Platform::InvalidPlatform);
}

#[test]
fn platform_display_names() {
    assert_eq!(Platform::Playstation3.to_string(), "Playstation3");
    assert_eq!(Platform::Playstation4.to_string(), "Playstation4");
    assert_eq!(Platform::Playstation5.to_string(), "Playstation5");
    assert_eq!(Platform::Xbox.to_string(), "Xbox");
    assert_eq!(Platform::InvalidPlatform.to_string(), "InvalidPlatform");
}

#[test]
fn platform_round_trip_every_variant() {
    for p in [
        Platform::Playstation3,
        Platform::Playstation4,
        Platform::Playstation5,
        Platform::Xbox,
        Platform::InvalidPlatform,
    ] {
        assert_eq!(Platform::str_to_enum(&p.to_string()), p);
    }
}

#[test]
fn role_names_read_back() {
    assert_eq!(RolesEnum::str_to_enum("Admin"), RolesEnum::Admin);
    assert_eq!(RolesEnum::str_to_enum("Customer"), RolesEnum::Customer);
    assert_eq!(RolesEnum::str_to_enum("admin"), RolesEnum::InvalidRole);
    assert_eq!(RolesEnum::str_to_enum("Guest"), RolesEnum::InvalidRole);
    assert_eq!(RolesEnum::str_to_enum(""), RolesEnum::InvalidRole);
}

#[test]
fn role_display_and_round_trip() {
    assert_eq!(RolesEnum::Admin.to_string(), "Admin");
    assert_eq!(RolesEnum::Customer.to_string(), "Customer");
    assert_eq!(RolesEnum::InvalidRole.to_string(), "InvalidRole");
    for r in [RolesEnum::Admin, RolesEnum::Customer, RolesEnum::InvalidRole] {
        assert_eq!(RolesEnum::str_to_enum(&r.to_string()), r);
    }
}

#[test]
fn subscription_names_read_back() {
    assert_eq!(SubscriptionType::str_to_enum("Basic"), SubscriptionType::Basic);
    assert_eq!(SubscriptionType::str_to_enum("Standard"), SubscriptionType::Standard);
    assert_eq!(SubscriptionType::str_to_enum("Premium"), SubscriptionType::Premium);
    assert_eq!(SubscriptionType::str_to_enum("Gold"), SubscriptionType::InvalidSubscription);
    assert_eq!(SubscriptionType::str_to_enum("premium"), SubscriptionType::InvalidSubscription);
}

#[test]
fn subscription_display_and_round_trip() {
    assert_eq!(SubscriptionType::Basic.to_string(), "Basic");
    assert_eq!(SubscriptionType::Standard.to_string(), "Standard");
    assert_eq!(SubscriptionType::Premium.to_string(), "Premium");
    assert_eq!(SubscriptionType::InvalidSubscription.to_string(), "InvalidSubscription");
    for t in [
        SubscriptionType::Basic,
        SubscriptionType::Standard,
        SubscriptionType::Premium,
        SubscriptionType::InvalidSubscription,
    ] {
        assert_eq!(SubscriptionType::str_to_enum(&t.to_string()), t);
    }
}
