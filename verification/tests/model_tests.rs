//! Tests of the data model types and their constructors.

use billgen::{Address, Bill, Client, ItemTemplate};

#[test]
fn address_new_keeps_all_parts() {
    let a = Address::new(
        "Acme GmbH".to_string(),
        Some("Bahnhofstrasse".to_string()),
        None,
        "8000".to_string(),
        "Zurich".to_string(),
        "CH".to_string(),
    );
    assert_eq!(a.name, "Acme GmbH");
    assert_eq!(a.street.as_deref(), Some("Bahnhofstrasse"));
    assert_eq!(a.building_number, None);
    assert_eq!(a.postal_code, "8000");
    assert_eq!(a.city, "Zurich");
    assert_eq!(a.country, "CH");
}

#[test]
fn client_default_is_fresh_with_default_country() {
    let c = Client::default();
    assert_eq!(c.id, 0);
    assert_eq!(c.name, "");
    assert_eq!(c.address.country, "CH");
    assert_eq!(c.billing_address.country, "CH");
    assert_eq!(c.email, "");
    assert_eq!(c.phone, "");
}

#[test]
fn item_template_default_is_zeroed() {
    let t = ItemTemplate::default();
    assert_eq!(t.id, 0);
    assert_eq!(t.item_type, "");
    assert_eq!(t.unit_price, 0);
}

#[test]
fn scor_reference_method_matches_generator() {
    assert_eq!(Bill::generate_scor_reference(1, 1, 2024), billgen::generate_reference(1, 1, 2024));
    assert_eq!(Bill::generate_scor_reference(42, 7, 2023), "RF76 2023 Y427 K424 2");
}
