// The catalog-glue decision rules on concrete values: page sizing,
// status classification, and the retry plan.

use studio_relay::catalog::{
    asset_file_stem, classify_attempt, catalog_category, backoff_delay_ms, decimal_digits,
    effective_page_size, market_kind, marketplace_page_size, plan_next, AttemptOutcome, FetchStep,
    MarketKind, DEFAULT_PAGE_SIZE, MAX_FETCH_ATTEMPTS, MAX_PAGE_SIZE, RATE_LIMIT_PAUSE_MS,
};

#[test]
fn marketplace_page_size_is_unclamped() {
    assert_eq!(marketplace_page_size(None), DEFAULT_PAGE_SIZE);
    assert_eq!(marketplace_page_size(Some(1)), 1);
    assert_eq!(marketplace_page_size(Some(250)), 250);
}

#[test]
fn installed_asset_file_stem() {
    assert_eq!(
        asset_file_stem(b"Quest System", 123),
        b"Quest_System_123".to_vec()
    );
    assert_eq!(asset_file_stem(b"Sword", 7), b"Sword_7".to_vec());
    assert_eq!(asset_file_stem(b"", 0), b"_0".to_vec());
    assert_eq!(
        asset_file_stem(" a b ".as_bytes(), 10),
        b"_a_b__10".to_vec()
    );
}

#[test]
fn decimal_rendering_is_exact() {
    assert_eq!(decimal_digits(0), b"0".to_vec());
    assert_eq!(decimal_digits(7), b"7".to_vec());
    assert_eq!(decimal_digits(10), b"10".to_vec());
    assert_eq!(decimal_digits(44755), b"44755".to_vec());
    assert_eq!(
        decimal_digits(u64::MAX),
        b"18446744073709551615".to_vec()
    );
}

#[test]
fn asset_type_names_a_kind() {
    assert_eq!(market_kind(&Some("Audio".to_string())), MarketKind::Audio);
    assert_eq!(market_kind(&Some("Plugin".to_string())), MarketKind::Model);
    assert_eq!(market_kind(&None), MarketKind::Model);
}

#[test]
fn page_size_defaults_and_clamps() {
    assert_eq!(effective_page_size(None), DEFAULT_PAGE_SIZE);
    assert_eq!(effective_page_size(Some(1)), 1);
    assert_eq!(effective_page_size(Some(100)), 100);
    assert_eq!(effective_page_size(Some(250)), MAX_PAGE_SIZE);
}

#[test]
fn category_codes() {
    assert_eq!(catalog_category(MarketKind::Audio), 9);
    assert_eq!(catalog_category(MarketKind::Model), 11);
}

#[test]
fn statuses_are_classified() {
    assert_eq!(classify_attempt(200, true), AttemptOutcome::Delivered);
    assert_eq!(classify_attempt(200, false), AttemptOutcome::MalformedBody);
    assert_eq!(classify_attempt(408, true), AttemptOutcome::TimedOut);
    assert_eq!(classify_attempt(504, true), AttemptOutcome::TimedOut);
    assert_eq!(classify_attempt(429, true), AttemptOutcome::RateLimited);
    assert_eq!(classify_attempt(404, true), AttemptOutcome::Rejected);
    assert_eq!(classify_attempt(500, true), AttemptOutcome::Failed);
    assert_eq!(classify_attempt(302, true), AttemptOutcome::Failed);
}

#[test]
fn backoff_doubles_from_a_second() {
    assert_eq!(backoff_delay_ms(0), 1000);
    assert_eq!(backoff_delay_ms(1), 2000);
    assert_eq!(backoff_delay_ms(2), 4000);
}

#[test]
fn retry_plan_follows_the_table() {
    assert_eq!(MAX_FETCH_ATTEMPTS, 3);
    assert_eq!(plan_next(0, AttemptOutcome::Delivered), FetchStep::Accept);
    assert_eq!(plan_next(0, AttemptOutcome::Rejected), FetchStep::GiveUp);
    assert_eq!(
        plan_next(0, AttemptOutcome::Failed),
        FetchStep::Retry { delay_ms: 2000 }
    );
    assert_eq!(
        plan_next(1, AttemptOutcome::NoResponse),
        FetchStep::Retry { delay_ms: 4000 }
    );
    assert_eq!(
        plan_next(0, AttemptOutcome::RateLimited),
        FetchStep::Retry { delay_ms: 2000 + RATE_LIMIT_PAUSE_MS }
    );
    assert_eq!(plan_next(2, AttemptOutcome::TimedOut), FetchStep::GiveUp);
    assert_eq!(plan_next(2, AttemptOutcome::MalformedBody), FetchStep::GiveUp);
}
