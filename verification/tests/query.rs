use buddy2api::query::{query_days, query_flag_enabled, query_variant};
use buddy2api::variant::WbVariant;

/// Without a site in the query the domestic one is meant.
#[test]
fn variant_query_defaults_to_cn() {
    assert_eq!(query_variant(None), WbVariant::Cn);
    assert_eq!(query_variant(Some("")), WbVariant::Cn);
    assert_eq!(query_variant(Some("refresh=true")), WbVariant::Cn);
    assert_eq!(
        query_variant(Some("refresh=true&variant=cn")),
        WbVariant::Cn
    );
    assert_eq!(query_variant(Some("variant=ai")), WbVariant::Ai);
    assert_eq!(
        query_variant(Some("variant=ai&refresh=true")),
        WbVariant::Ai
    );
    assert_eq!(query_variant(Some("variant=unknown")), WbVariant::Cn);
}

#[test]
fn the_first_site_in_a_query_counts() {
    assert_eq!(query_variant(Some("variant=cn&variant=ai")), WbVariant::Cn);
    assert_eq!(query_variant(Some("variant&variant=ai")), WbVariant::Cn);
    assert_eq!(query_variant(Some("variants=ai")), WbVariant::Cn);
    assert_eq!(query_variant(Some("variant=ai=")), WbVariant::Cn);
    assert_eq!(query_variant(Some("&&variant=ai&&")), WbVariant::Ai);
}

#[test]
fn flags_are_on_by_name_or_by_value() {
    let on = |query: &str| query_flag_enabled(Some(query), "refresh");
    assert!(on("refresh"));
    assert!(on("refresh="));
    assert!(on("refresh=1"));
    assert!(on("a=b&refresh=true"));
    assert!(on("refresh=no&refresh=yes"));
    assert!(!on("refresh=0"));
    assert!(!on("refresh=TRUE"));
    assert!(!on("fresh"));
    assert!(!on(""));
    assert!(!query_flag_enabled(None, "refresh"));
    // An empty query has one part, which is empty.
    assert!(query_flag_enabled(None, ""));
}

#[test]
fn days_are_the_first_number_given() {
    assert_eq!(query_days(None), None);
    assert_eq!(query_days(Some("days=7")), Some(7));
    assert_eq!(query_days(Some("x=1&days=-3&days=5")), Some(-3));
    assert_eq!(query_days(Some("days=many&days=30")), Some(30));
    assert_eq!(query_days(Some("days=")), None);
    assert_eq!(query_days(Some("mydays=7")), None);
    assert_eq!(query_days(Some("days=9223372036854775808")), None);
}
