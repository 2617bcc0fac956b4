use expenses_monitor_be::domain::{
    Date, DateTime, Payment, PaymentCategory, PaymentCategoryIcon, PaymentDescription,
    PaymentMerchant, TagKey, TagValue, WalletName,
};
use expenses_monitor_be::features::payments::{
    CategoryIdentifier, CreatePaymentRequest, UpdatePaymentRequest,
};
use expenses_monitor_be::sql::push_placeholder;
use expenses_monitor_be::text::{
    contains, contains_forbidden_icon_char, contains_forbidden_name_char, eq_ignoring_case,
    to_chars,
};

#[test]
fn a_category_keeps_its_text_as_given() {
    let parsed = PaymentCategory::parse("  Eating out ".to_string()).unwrap();
    assert_eq!(parsed.as_ref(), "  Eating out ");
}

#[test]
fn a_rejected_category_says_which_text_it_was() {
    let message = PaymentCategory::parse("a/b".to_string()).unwrap_err();
    assert_eq!(message, "a/b is not a valid category.");
    let message = PaymentMerchant::parse("   ".to_string()).unwrap_err();
    assert_eq!(message, "    is not a valid merchant name.");
}

#[test]
fn whitespace_of_every_kind_is_blank() {
    for blank in ["\t", "\n", "\u{0B}", "\u{0C}", "\r", "\u{85}", "\u{A0}", "\u{1680}", "\u{2003}", "\u{2028}", "\u{2029}", "\u{202F}", "\u{205F}", "\u{3000}", " \t\n "] {
        assert!(PaymentCategory::parse(blank.to_string()).is_err(), "{:?}", blank);
        assert!(TagKey::parse(blank.to_string()).is_err(), "{:?}", blank);
    }
    // A zero width space is no whitespace.
    assert!(PaymentCategory::parse("\u{200B}".to_string()).is_ok());
}

#[test]
fn graphemes_are_counted_not_characters() {
    // 256 letters, each with a combining accent: 512 characters.
    let name = "e\u{301}".repeat(256);
    assert!(PaymentCategory::parse(name.clone()).is_ok());
    assert!(WalletName::parse(name).is_ok());
    let name = "e\u{301}".repeat(257);
    assert!(PaymentCategory::parse(name.clone()).is_err());
    assert_eq!(WalletName::parse(name).unwrap_err(), "Wallet name is too long");
    let icon = "👨‍👩‍👧".repeat(64);
    assert!(PaymentCategoryIcon::parse(icon).is_ok());
    let icon = "👨‍👩‍👧".repeat(65);
    assert_eq!(
        PaymentCategoryIcon::parse(icon.clone()).unwrap_err(),
        format!("Icon '{}' is too long", icon)
    );
}

#[test]
fn an_icon_is_kept_without_the_whitespace_around_it() {
    let icon = PaymentCategoryIcon::parse(" \t💳\n".to_string()).unwrap();
    assert_eq!(icon.as_ref(), "💳");
    assert_eq!(icon.clone().as_ref(), "💳");
    assert_eq!(PaymentCategoryIcon::parse("  ".to_string()).unwrap_err(), "Icon cannot be empty");
    assert_eq!(
        PaymentCategoryIcon::parse(" a\0b ".to_string()).unwrap_err(),
        "Icon 'a\0b' contains forbidden characters"
    );
    for forbidden in ['<', '>', '{', '}', '\0'] {
        assert!(PaymentCategoryIcon::parse(format!("x{}", forbidden)).is_err());
    }
    assert!(PaymentCategoryIcon::parse("(/)".to_string()).is_ok());
}

#[test]
fn wallet_names_follow_the_rule_of_names() {
    assert_eq!(WalletName::parse("".to_string()).unwrap_err(), "Wallet name cannot be empty");
    assert_eq!(WalletName::parse(" ".to_string()).unwrap_err(), "Wallet name cannot be empty");
    assert_eq!(
        WalletName::parse("a{b}".to_string()).unwrap_err(),
        "Wallet name contains forbidden characters"
    );
    let wallet = WalletName::parse("My Wallet".to_string()).unwrap();
    assert_eq!(wallet.as_ref(), "My Wallet");
    assert_eq!(wallet.to_string(), "My Wallet");
}

#[test]
fn tags_must_not_be_blank() {
    assert_eq!(TagKey::parse(" ".to_string()).unwrap_err(), "Tag key cannot be empty");
    assert_eq!(TagValue::parse("".to_string()).unwrap_err(), "Tag value cannot be empty");
    assert_eq!(TagKey::parse(" k ".to_string()).unwrap().as_ref(), " k ");
    assert_eq!(TagValue::parse("<v>".to_string()).unwrap().as_ref(), "<v>");
}

#[test]
fn a_description_is_measured_in_bytes() {
    assert_eq!(
        PaymentDescription::parse("".to_string()).unwrap_err(),
        "Payment description cannot be empty"
    );
    assert!(PaymentDescription::parse("a".repeat(255)).is_ok());
    assert_eq!(
        PaymentDescription::parse("a".repeat(256)).unwrap_err(),
        "Payment description is too long"
    );
    // 128 letters of two bytes each are 256 bytes.
    assert!(PaymentDescription::parse("ё".repeat(127)).is_ok());
    assert!(PaymentDescription::parse("ё".repeat(128)).is_err());
    assert_eq!(PaymentDescription::parse(" ".to_string()).unwrap().as_ref(), " ");
}

fn create(description: Option<&str>, merchant: &str) -> CreatePaymentRequest {
    CreatePaymentRequest {
        description: description.map(|d| d.to_string()),
        category_id: CategoryIdentifier::Uid(1),
        amount_in_cents: 42,
        merchant_name: merchant.to_string(),
        accounting_date: DateTime {
            date: Date { year: 2023, month: 11, day: 13 },
            second: 0,
            nanosecond: 0,
        },
        wallet: None,
        tags: None,
    }
}

#[test]
fn a_request_becomes_a_payment_when_its_texts_are_valid() {
    let payment = Payment::try_from(create(Some("test"), "Market")).unwrap();
    assert_eq!(payment.description.unwrap().as_ref(), "test");
    assert_eq!(payment.merchant_name.as_ref(), "Market");
    assert_eq!(payment.amount_in_cents, 42);
    assert_eq!(payment.category_id, 0);
    assert_eq!(payment.wallet_id, None);
    let payment = Payment::try_from(create(Some(" \n"), "Market")).unwrap();
    assert!(payment.description.is_none());
    let payment = Payment::try_from(create(None, "Market")).unwrap();
    assert!(payment.description.is_none());
    assert_eq!(
        Payment::try_from(create(Some("test"), "")).unwrap_err(),
        " is not a valid merchant name."
    );
    assert_eq!(
        Payment::try_from(create(Some(&"d".repeat(300)), "")).unwrap_err(),
        "Payment description is too long"
    );
    let update = UpdatePaymentRequest {
        description: None,
        category_id: CategoryIdentifier::Name("x".to_string()),
        amount_in_cents: 1,
        merchant_name: "M(".to_string(),
        accounting_date: DateTime {
            date: Date { year: 2023, month: 11, day: 13 },
            second: 0,
            nanosecond: 0,
        },
        wallet: None,
        tags: None,
    };
    assert_eq!(Payment::try_from(update).unwrap_err(), "M( is not a valid merchant name.");
}

#[test]
fn forbidden_characters_are_found_anywhere() {
    assert!(contains_forbidden_name_char("abc\\"));
    assert!(contains_forbidden_name_char("\"abc"));
    assert!(!contains_forbidden_name_char("abc\0[]"));
    assert!(contains_forbidden_icon_char("ab\0c"));
    assert!(!contains_forbidden_icon_char("/()\"\\"));
    assert!(!contains_forbidden_name_char(""));
}

#[test]
fn texts_are_compared_and_searched() {
    assert!(eq_ignoring_case("Food", "fOOD"));
    assert!(eq_ignoring_case("ÉCOLE", "école"));
    assert!(!eq_ignoring_case("Food", "Foot"));
    assert!(contains("super market", "market"));
    assert!(contains("market", "market"));
    assert!(contains("market", ""));
    assert!(contains("", ""));
    assert!(!contains("", "m"));
    assert!(!contains("marke", "market"));
    assert!(!contains("mar ket", "market"));
    assert!(contains("ёёёmё", "ёm"));
    assert_eq!(to_chars("aё💳"), vec!['a', 'ё', '💳']);
}

#[test]
fn dates_are_read_in_one_form_only() {
    assert_eq!(Date::parse("2026-01-31"), Some(Date { year: 2026, month: 1, day: 31 }));
    assert_eq!(Date::parse("2024-02-29"), Some(Date { year: 2024, month: 2, day: 29 }));
    assert_eq!(Date::parse("2000-02-29"), Some(Date { year: 2000, month: 2, day: 29 }));
    assert_eq!(Date::parse("0000-12-01"), Some(Date { year: 0, month: 12, day: 1 }));
    assert_eq!(Date::parse("2023-02-29"), None);
    assert_eq!(Date::parse("1900-02-29"), None);
    assert_eq!(Date::parse("2026-04-31"), None);
    assert_eq!(Date::parse("2026-13-01"), None);
    assert_eq!(Date::parse("2026-00-10"), None);
    assert_eq!(Date::parse("2026-01-00"), None);
    assert_eq!(Date::parse("2026-1-31"), None);
    assert_eq!(Date::parse("2026/01/31"), None);
    assert_eq!(Date::parse("2026-01-31T10:00:00"), None);
    assert_eq!(Date::parse("२०२६-०१-३१"), None);
    assert_eq!(Date::parse(""), None);
}

#[test]
fn dates_and_instants_are_ordered_as_the_calendar_orders_them() {
    let early = Date { year: 2025, month: 12, day: 31 };
    let late = Date { year: 2026, month: 1, day: 1 };
    assert!(early.on_or_before(&late));
    assert!(!late.on_or_before(&early));
    assert!(late.on_or_before(&late));
    let noon = DateTime { date: late, second: 43200, nanosecond: 0 };
    let just_after = DateTime { date: late, second: 43200, nanosecond: 1 };
    assert!(late.at_midnight().on_or_before(&noon));
    assert!(noon.on_or_before(&just_after));
    assert!(!just_after.on_or_before(&noon));
    assert!(!noon.on_or_before(&early.at_midnight()));
    assert_eq!(DateTime::epoch(), Date { year: 1970, month: 1, day: 1 }.at_midnight());
}

#[test]
fn parameters_are_numbered_in_decimal() {
    let mut text = String::from("x = ");
    push_placeholder(&mut text, 7);
    assert_eq!(text, "x = $7");
    let mut text = String::new();
    push_placeholder(&mut text, 120);
    assert_eq!(text, "$120");
    let mut text = String::new();
    push_placeholder(&mut text, 0);
    assert_eq!(text, "$0");
}

#[test]
fn exactly_the_white_space_characters_are_trimmed() {
    let white_space = |c: char| {
        matches!(
            c as u32,
            0x09..=0x0D | 0x20 | 0x85 | 0xA0 | 0x1680 | 0x2000..=0x200A | 0x2028 | 0x2029
                | 0x202F | 0x205F | 0x3000
        )
    };
    let mut text = String::new();
    for code in 0..=0x10FFFFu32 {
        if let Some(c) = char::from_u32(code) {
            text.clear();
            text.push(c);
            assert_eq!(TagKey::parse(text.clone()).is_err(), white_space(c), "U+{:04X}", code);
        }
    }
}
