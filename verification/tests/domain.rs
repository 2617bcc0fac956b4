use expenses_monitor_be::domain::{
    PaymentCategory, PaymentCategoryIcon, PaymentDescription, PaymentMerchant,
};

#[test]
fn payment_category_a_256_grapheme_long_name_is_valid() {
    let name = "ё".repeat(256);
    assert!(PaymentCategory::parse(name).is_ok());
}

#[test]
fn payment_category_a_name_longer_than_256_graphemes_is_rejected() {
    let name = "a".repeat(257);
    assert!(PaymentCategory::parse(name).is_err());
}

#[test]
fn payment_category_whitespace_only_names_are_rejected() {
    let name = " ".to_string();
    assert!(PaymentCategory::parse(name).is_err());
}

#[test]
fn payment_category_empty_string_is_rejected() {
    let name = "".to_string();
    assert!(PaymentCategory::parse(name).is_err());
}

#[test]
fn payment_category_names_containing_an_invalid_character_are_rejected() {
    for name in &['/', '(', ')', '"', '<', '>', '\\', '{', '}'] {
        let name = name.to_string();
        assert!(PaymentCategory::parse(name).is_err());
    }
}

#[test]
fn payment_category_a_valid_name_is_parsed_successfully() {
    let name = "Ursula Le Guin".to_string();
    assert!(PaymentCategory::parse(name).is_ok());
}

#[test]
fn valid_emoji_is_ok() {
    let s = "💳".to_string();
    assert!(PaymentCategoryIcon::parse(s).is_ok());
}

#[test]
fn empty_is_rejected() {
    let s = "".to_string();
    assert!(PaymentCategoryIcon::parse(s).is_err());
}

#[test]
fn too_long_is_rejected() {
    let s = "a".repeat(65);
    assert!(PaymentCategoryIcon::parse(s).is_err());
}

#[test]
fn forbidden_chars_are_rejected() {
    let s = "<svg>".to_string();
    assert!(PaymentCategoryIcon::parse(s).is_err());
}

#[test]
fn valid_description_is_parsed_successfully() {
    let description = "Valid payment description".to_string();
    assert!(PaymentDescription::parse(description).is_ok());
}

#[test]
fn empty_description_is_rejected() {
    let description = "".to_string();
    assert!(PaymentDescription::parse(description).is_err());
}

#[test]
fn long_description_is_rejected() {
    let description = "a".repeat(256);
    assert!(PaymentDescription::parse(description).is_err());
}

#[test]
fn payment_merchant_a_256_grapheme_long_name_is_valid() {
    let name = "ё".repeat(256);
    assert!(PaymentMerchant::parse(name).is_ok());
}

#[test]
fn payment_merchant_a_name_longer_than_256_graphemes_is_rejected() {
    let name = "a".repeat(257);
    assert!(PaymentMerchant::parse(name).is_err());
}

#[test]
fn payment_merchant_whitespace_only_names_are_rejected() {
    let name = " ".to_string();
    assert!(PaymentMerchant::parse(name).is_err());
}

#[test]
fn payment_merchant_empty_string_is_rejected() {
    let name = "".to_string();
    assert!(PaymentMerchant::parse(name).is_err());
}

#[test]
fn payment_merchant_names_containing_an_invalid_character_are_rejected() {
    for name in &['/', '(', ')', '"', '<', '>', '\\', '{', '}'] {
        let name = name.to_string();
        assert!(PaymentMerchant::parse(name).is_err());
    }
}

#[test]
fn payment_merchant_a_valid_name_is_parsed_successfully() {
    let name = "Ursula Le Guin".to_string();
    assert!(PaymentMerchant::parse(name).is_ok());
}
