use price_relay::oracle::{get_price, get_price_at, OracleError, PriceQuote, PriceRecord, VerificationLevel};

fn feed_hex() -> String {
    format!("0x{}", "ab".repeat(32))
}

fn record(publish_time: i64) -> PriceRecord {
    PriceRecord {
        write_authority: [7u8; 32],
        verification_level: VerificationLevel::Full,
        feed_id: [0xabu8; 32],
        price: 6_512_345,
        conf: 1_250,
        exponent: -5,
        publish_time,
        prev_publish_time: publish_time - 1,
        ema_price: 6_500_000,
        ema_conf: 1_300,
        posted_slot: 99,
    }
}

fn quote() -> PriceQuote {
    PriceQuote { price: 6_512_345, conf: 1_250, exponent: -5 }
}

#[test]
fn fresh_observation_is_returned_unchanged() {
    let now = 1_700_000_000i64;
    let r = get_price_at(60, &feed_hex(), Some(now), &record(now - 30));
    assert_eq!(r, Ok(quote()));
}

#[test]
fn stale_observation_is_unavailable() {
    let now = 1_700_000_000i64;
    let r = get_price_at(60, &feed_hex(), Some(now), &record(now - 90));
    assert_eq!(r, Err(OracleError::PriceUnavailable));
}

#[test]
fn freshness_bound_is_inclusive() {
    let t = 1_700_000_000i64;
    assert_eq!(get_price_at(60, &feed_hex(), Some(t + 60), &record(t)), Ok(quote()));
    assert_eq!(get_price_at(60, &feed_hex(), Some(t + 61), &record(t)), Err(OracleError::PriceUnavailable));
}

#[test]
fn unprefixed_and_upper_case_feed_ids_are_accepted() {
    let now = 1_700_000_000i64;
    assert_eq!(get_price_at(60, &"ab".repeat(32), Some(now), &record(now)), Ok(quote()));
    assert_eq!(get_price_at(60, &"AB".repeat(32), Some(now), &record(now)), Ok(quote()));
}

#[test]
fn other_feed_is_unavailable() {
    let now = 1_700_000_000i64;
    let r = get_price_at(60, &"ba".repeat(32), Some(now), &record(now));
    assert_eq!(r, Err(OracleError::PriceUnavailable));
}

#[test]
fn decoded_feed_id_is_compared_bytewise() {
    let now = 1_700_000_000i64;
    let mut rec = record(now);
    let mut id = [0u8; 32];
    for (i, b) in id.iter_mut().enumerate() {
        *b = i as u8;
    }
    rec.feed_id = id;
    let hex: String = (0..32).map(|i| format!("{:02x}", i)).collect();
    assert_eq!(get_price_at(60, &hex, Some(now), &rec), Ok(quote()));
    assert_eq!(get_price_at(60, &feed_hex(), Some(now), &rec), Err(OracleError::PriceUnavailable));
}

#[test]
fn partially_verified_record_is_unavailable() {
    let now = 1_700_000_000i64;
    let mut rec = record(now);
    rec.verification_level = VerificationLevel::Partial { num_signatures: 5 };
    assert_eq!(get_price_at(60, &feed_hex(), Some(now), &rec), Err(OracleError::PriceUnavailable));
}

#[test]
fn malformed_feed_ids_are_rejected() {
    let now = 1_700_000_000i64;
    let rec = record(now);
    for bad in [
        String::new(),
        "ab".repeat(31) + "a",
        "ab".repeat(32) + "a",
        "ab".repeat(31) + "ag",
        format!("0x{}", "ab".repeat(31)),
        format!("0x0x{}", "ab".repeat(32)),
    ] {
        assert_eq!(get_price_at(60, &bad, Some(now), &rec), Err(OracleError::InvalidFeedIdFormat), "{}", bad);
    }
}

#[test]
fn missing_clock_is_reported_after_format_check() {
    let rec = record(0);
    assert_eq!(get_price_at(60, &feed_hex(), None, &rec), Err(OracleError::ClockUnavailable));
    assert_eq!(get_price_at(60, "zz", None, &rec), Err(OracleError::InvalidFeedIdFormat));
}

#[test]
fn repeated_queries_agree() {
    let t = 1_700_000_000i64;
    let rec = record(t);
    let a = get_price_at(120, &feed_hex(), Some(t + 10), &rec);
    let b = get_price_at(120, &feed_hex(), Some(t + 100), &rec);
    assert_eq!(a, Ok(quote()));
    assert_eq!(a, b);
}

#[test]
fn get_price_without_runtime_clock() {
    let rec = record(0);
    assert_eq!(get_price(60, &feed_hex(), &rec), Err(OracleError::ClockUnavailable));
    assert_eq!(get_price(60, "0x12", &rec), Err(OracleError::InvalidFeedIdFormat));
}
