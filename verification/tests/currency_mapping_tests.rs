use payment_system::db::common::{account_country, is_cross_border_transfer, AccountFacts};
use payment_system::utils::currency_mapping::{
    get_country_for_currency, get_currency_country_mapping, is_cross_border_by_currency,
};

#[test]
fn test_currency_mapping() {
    assert_eq!(get_country_for_currency("USD"), Some("US"));
    assert_eq!(get_country_for_currency("INR"), Some("IN"));
    assert_eq!(get_country_for_currency("EUR"), Some("EU"));
    assert_eq!(get_country_for_currency("INVALID"), None);
}

#[test]
fn test_cross_border_detection() {
    // Same currency - not cross border
    assert_eq!(is_cross_border_by_currency("USD", "USD"), false);

    // Different currencies - cross border
    assert_eq!(is_cross_border_by_currency("USD", "INR"), true);
    assert_eq!(is_cross_border_by_currency("EUR", "GBP"), true);

    // Unknown currency - assume cross border
    assert_eq!(is_cross_border_by_currency("USD", "UNKNOWN"), true);
    assert_eq!(is_cross_border_by_currency("UNKNOWN", "INR"), true);
}

#[test]
fn mapping_lists_ten_currencies_once_each() {
    let mapping = get_currency_country_mapping();
    assert_eq!(mapping.len(), 10);
    assert_eq!(mapping[0], ("USD", "US"));
    assert_eq!(mapping[9], ("CHF", "CH"));
    for (i, (a, _)) in mapping.iter().enumerate() {
        for (b, _) in mapping.iter().skip(i + 1) {
            assert_ne!(a, b);
        }
    }
}

#[test]
fn every_listed_currency_resolves_to_its_country() {
    for (currency, country) in get_currency_country_mapping() {
        assert_eq!(get_country_for_currency(currency), Some(country));
    }
    assert_eq!(get_country_for_currency("usd"), None);
    assert_eq!(get_country_for_currency(""), None);
}

#[test]
fn two_unknown_distinct_currencies_are_cross_border() {
    assert!(is_cross_border_by_currency("XXX", "YYY"));
    assert!(!is_cross_border_by_currency("XXX", "XXX"));
    assert!(!is_cross_border_by_currency("CHF", "CHF"));
}

fn account(currency: &str, country: Option<&str>) -> AccountFacts {
    AccountFacts {
        id: "00000000-0000-0000-0000-000000000000".to_string(),
        currency: currency.to_string(),
        country: country.map(|c| c.to_string()),
    }
}

#[test]
fn countries_decide_before_currencies() {
    // Both countries known: they decide, whatever the currencies.
    assert!(!is_cross_border_transfer(&account("USD", Some("IN")), &account("INR", Some("IN"))));
    assert!(is_cross_border_transfer(&account("INR", Some("IN")), &account("INR", Some("US"))));
    // A country missing: currencies decide.
    assert!(!is_cross_border_transfer(&account("INR", None), &account("INR", Some("US"))));
    assert!(is_cross_border_transfer(&account("INR", None), &account("USD", None)));
}

#[test]
fn new_account_country_defaults() {
    assert_eq!(account_country(Some("FR"), "EUR"), "FR");
    assert_eq!(account_country(None, "USD"), "US");
    assert_eq!(account_country(None, "XYZ"), "IN");
}
