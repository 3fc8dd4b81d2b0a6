//! The price oracle: looks up a freshness-bounded price for a feed in a price
//! record published by the Pyth receiver program.
use vstd::prelude::*;
use vstd::string::StringSliceAdditionalSpecFns;
use anchor_lang::prelude::{Clock, Pubkey, SolanaSysvar};
use pyth_solana_receiver_sdk::error::GetPriceError;
use pyth_solana_receiver_sdk::price_update::{
    get_feed_id_from_hex, PriceFeedMessage, PriceUpdateV2, VerificationLevel as SdkLevel,
};
use crate::feed_id::{
    decode_hex, feed_id_of, is_feed_id_hex, is_hex_string, strip_hex_prefix,
    strip_hex_prefix_spec, FEED_ID_HEX_LEN,
};

verus! {

#[verifier::external_type_specification]
#[verifier::external_body]
pub struct ExGetPriceError(GetPriceError);

/// How many guardian signatures were checked for a price record.
#[derive(Clone, Copy, Debug, PartialEq, Eq, Structural)]
pub enum VerificationLevel {
    Partial { num_signatures: u8 },
    Full,
}

/// A verified price record, as the receiver program stores it: one price
/// observation for one feed, with its publication time in unix seconds.
#[derive(Clone, Copy, Debug)]
pub struct PriceRecord {
    pub write_authority: [u8; 32],
    pub verification_level: VerificationLevel,
    pub feed_id: [u8; 32],
    pub price: i64,
    pub conf: u64,
    pub exponent: i32,
    pub publish_time: i64,
    pub prev_publish_time: i64,
    pub ema_price: i64,
    pub ema_conf: u64,
    pub posted_slot: u64,
}

/// A price `(price ± conf) * 10^exponent`.
#[derive(Clone, Copy, Debug, PartialEq, Eq, Structural)]
pub struct PriceQuote {
    pub price: i64,
    pub conf: u64,
    pub exponent: i32,
}

/// Why the oracle gave no price.
#[derive(Clone, Copy, Debug, PartialEq, Eq, Structural)]
pub enum OracleError {
    PriceUnavailable,
    InvalidFeedIdFormat,
    ClockUnavailable,
}

impl PriceRecord {
    /// The quote that the record holds.
    pub open spec fn quote(&self) -> PriceQuote {
        PriceQuote { price: self.price, conf: self.conf, exponent: self.exponent }
    }

    /// The record is fully verified, is for `feed_id`, and at time `now` its
    /// observation is at most `maximum_age` seconds old.
    pub open spec fn is_fresh_for(&self, feed_id: Seq<u8>, now: int, maximum_age: int) -> bool {
        &&& self.verification_level is Full
        &&& self.feed_id@ == feed_id
        &&& now - self.publish_time <= maximum_age
    }
}

/// What a price query returns, given the clock reading (`None` when the clock
/// could not be read).
pub open spec fn get_price_spec(
    maximum_age: u64,
    feed_id_hex: Seq<u8>,
    now: Option<i64>,
    record: PriceRecord,
) -> Result<PriceQuote, OracleError> {
    if !is_feed_id_hex(feed_id_hex) {
        Err(OracleError::InvalidFeedIdFormat)
    } else if now is None {
        Err(OracleError::ClockUnavailable)
    } else if record.is_fresh_for(feed_id_of(feed_id_hex), now->Some_0 as int, maximum_age as int) {
        Ok(record.quote())
    } else {
        Err(OracleError::PriceUnavailable)
    }
}

/// A fully verified observation for the queried feed, published at time `t`,
/// is returned by a query at `t + maximum_age` and is unavailable to a query
/// at `t + maximum_age + 1`: the staleness bound is inclusive.
pub proof fn lemma_freshness_bound_is_inclusive(
    maximum_age: u64,
    feed_id_hex: Seq<u8>,
    record: PriceRecord,
)
    requires
        is_feed_id_hex(feed_id_hex),
        record.feed_id@ == feed_id_of(feed_id_hex),
        record.verification_level is Full,
        record.publish_time + maximum_age + 1 <= i64::MAX,
    ensures
        get_price_spec(
            maximum_age,
            feed_id_hex,
            Some((record.publish_time + maximum_age) as i64),
            record,
        ) == Ok::<PriceQuote, OracleError>(record.quote()),
        get_price_spec(
            maximum_age,
            feed_id_hex,
            Some((record.publish_time + maximum_age + 1) as i64),
            record,
        ) == Err::<PriceQuote, OracleError>(OracleError::PriceUnavailable),
{
}

/// Two successful queries with the same bound, feed id and record return the
/// same quote, the one the record holds, whatever the clock read for each.
pub proof fn lemma_successful_queries_agree(
    maximum_age: u64,
    feed_id_hex: Seq<u8>,
    now1: Option<i64>,
    now2: Option<i64>,
    record: PriceRecord,
)
    requires
        get_price_spec(maximum_age, feed_id_hex, now1, record) is Ok,
        get_price_spec(maximum_age, feed_id_hex, now2, record) is Ok,
    ensures
        get_price_spec(maximum_age, feed_id_hex, now1, record) == get_price_spec(
            maximum_age,
            feed_id_hex,
            now2,
            record,
        ),
        get_price_spec(maximum_age, feed_id_hex, now1, record) == Ok::<PriceQuote, OracleError>(
            record.quote(),
        ),
{
}

/// Relies on `price_update::get_feed_id_from_hex`: a 64-byte text decodes,
/// through `hex::decode`, to the 32 bytes it spells when every byte is a hex
/// digit of either case, and fails otherwise.
#[verifier::external_body]
fn feed_id_from_hex(s: &str) -> (r: Result<[u8; 32], GetPriceError>)
    requires
        s.spec_bytes().len() == 64,
    ensures
        r is Ok <==> is_hex_string(s.spec_bytes()),
        r is Ok ==> r->Ok_0@ == decode_hex(s.spec_bytes()),
{
    get_feed_id_from_hex(s)
}

/// Relies on `PriceUpdateV2::get_price_no_older_than`: it succeeds when the
/// update is fully verified, its feed id matches, and
/// `publish_time.saturating_add(maximum_age) >= clock.unix_timestamp`, and then
/// returns the message's price, confidence and exponent.
#[verifier::external_body]
fn price_no_older_than(record: &PriceRecord, now: i64, maximum_age: u64, feed_id: &[u8; 32]) -> (r:
    Result<PriceQuote, GetPriceError>)
    requires
        maximum_age <= i64::MAX,
    ensures
        r is Ok <==> {
            &&& record.verification_level is Full
            &&& record.feed_id@ == feed_id@
            &&& (if record.publish_time + maximum_age > i64::MAX {
                i64::MAX as int
            } else {
                record.publish_time + maximum_age
            }) >= now
        },
        r is Ok ==> r->Ok_0 == record.quote(),
{
    let r = record;
    let price_message = PriceFeedMessage { feed_id: r.feed_id, price: r.price, conf: r.conf,
        exponent: r.exponent, publish_time: r.publish_time, prev_publish_time: r.prev_publish_time,
        ema_price: r.ema_price, ema_conf: r.ema_conf };
    let verification_level = match r.verification_level {
        VerificationLevel::Partial { num_signatures } => SdkLevel::Partial { num_signatures },
        VerificationLevel::Full => SdkLevel::Full,
    };
    let write_authority = Pubkey::new_from_array(r.write_authority);
    let update = PriceUpdateV2 { write_authority, verification_level, price_message,
        posted_slot: r.posted_slot };
    let clock = Clock { unix_timestamp: now, ..Clock::default() };
    update.get_price_no_older_than(&clock, maximum_age, feed_id)
        .map(|p| PriceQuote { price: p.price, conf: p.conf, exponent: p.exponent })
}

/// Relies on the runtime's `Clock` sysvar (`Sysvar::get`): its unix timestamp,
/// or `None` when the runtime cannot supply it.
#[verifier::external_body]
fn current_unix_timestamp() -> (r: Option<i64>) {
    Clock::get().ok().map(|c| c.unix_timestamp)
}

/// Looks up the price of the feed named by `feed_id_hex` in `price_update`, as
/// of the clock reading `now`.
pub fn get_price_at(maximum_age: u64, feed_id_hex: &str, now: Option<i64>, price_update: &PriceRecord) -> (r:
    Result<PriceQuote, OracleError>)
    requires
        maximum_age <= i64::MAX,
    ensures
        r == get_price_spec(maximum_age, feed_id_hex.spec_bytes(), now, *price_update),
{
    let clean = strip_hex_prefix(feed_id_hex);
    if clean.as_bytes().len() != FEED_ID_HEX_LEN {
        return Err(OracleError::InvalidFeedIdFormat);
    }
    let feed_id = match feed_id_from_hex(clean) {
        Ok(id) => id,
        Err(_) => return Err(OracleError::InvalidFeedIdFormat),
    };
    let now = match now {
        Some(t) => t,
        None => return Err(OracleError::ClockUnavailable),
    };
    match price_no_older_than(price_update, now, maximum_age, &feed_id) {
        Ok(quote) => Ok(quote),
        Err(_) => Err(OracleError::PriceUnavailable),
    }
}

/// Looks up the price of the feed named by `feed_id_hex` in `price_update`,
/// as of the runtime clock's current time.
pub fn get_price(maximum_age: u64, feed_id_hex: &str, price_update: &PriceRecord) -> (r: Result<
    PriceQuote,
    OracleError,
>)
    requires
        maximum_age <= i64::MAX,
    ensures
        exists|now: Option<i64>|
            r == #[trigger] get_price_spec(maximum_age, feed_id_hex.spec_bytes(), now, *price_update),
{
    let now = current_unix_timestamp();
    get_price_at(maximum_age, feed_id_hex, now, price_update)
}

} // verus!
