//! The price relay: validates a request, takes an integrity snapshot of the
//! shared price record, hands the lookup to the oracle, and afterwards checks
//! that the record was left as it was.
//!
//! The delegated call itself is made by the caller of this module, between
//! [`fetch_price`], which says whether and what to delegate, and
//! [`complete_fetch_price`], which judges the record after the call.
use vstd::prelude::*;
use vstd::string::StringSliceAdditionalSpecFns;
use crate::feed_id::{is_feed_id_hex, is_valid_hex_string, strip_hex_prefix, FEED_ID_HEX_LEN};
use crate::oracle::{get_price_spec, OracleError, PriceQuote, PriceRecord};

verus! {

/// The longest staleness bound, in seconds, that the relay forwards.
pub const MAX_MAXIMUM_AGE: u64 = 3600;

/// What the relay can observe of the shared price record: the identity of its
/// owning program and the length of its data.
#[derive(Clone, Copy, Debug)]
pub struct AccountState {
    pub owner: [u8; 32],
    pub data_len: usize,
}

/// The structural properties of the shared record that must survive the
/// delegated call unchanged.
#[derive(Clone, Copy, Debug)]
pub struct IntegritySnapshot {
    pub owner: [u8; 32],
    pub data_len: usize,
    pub is_empty: bool,
}

/// The lookup that the relay hands to the oracle, with the snapshot taken just
/// before it.
#[derive(Clone, Debug)]
pub struct OracleRequest {
    pub maximum_age: u64,
    pub feed_id_hex: String,
    pub snapshot: IntegritySnapshot,
}

/// Why the relay refused or failed a request.
#[derive(Clone, Copy, Debug, PartialEq, Eq, Structural)]
pub enum PriceFetcherError {
    EmptyPriceAccount,
    InvalidFeedIdFormat,
    InvalidMaximumAge,
    OracleProgramError,
    InvalidPriceAccountOwner,
    AccountStateModified,
}

impl AccountState {
    /// The snapshot of this state.
    pub open spec fn snapshot_spec(&self) -> IntegritySnapshot {
        IntegritySnapshot { owner: self.owner, data_len: self.data_len, is_empty: self.data_len == 0 }
    }

    /// Takes the snapshot of this state.
    pub fn snapshot(&self) -> (r: IntegritySnapshot)
        ensures
            r == self.snapshot_spec(),
    {
        IntegritySnapshot { owner: self.owner, data_len: self.data_len, is_empty: self.data_len == 0 }
    }
}

/// A staleness bound the relay accepts: more than zero, at most an hour.
pub open spec fn is_valid_maximum_age(maximum_age: u64) -> bool {
    0 < maximum_age && maximum_age <= MAX_MAXIMUM_AGE
}

/// The first gate that a request fails, checked in order: feed id format,
/// staleness bound, ownership of the record, emptiness of the record.
pub open spec fn fetch_price_gate(
    maximum_age: u64,
    feed_id_hex: Seq<u8>,
    relay_id: Seq<u8>,
    price_update: AccountState,
) -> Option<PriceFetcherError> {
    if !is_feed_id_hex(feed_id_hex) {
        Some(PriceFetcherError::InvalidFeedIdFormat)
    } else if !is_valid_maximum_age(maximum_age) {
        Some(PriceFetcherError::InvalidMaximumAge)
    } else if price_update.owner@ == relay_id {
        Some(PriceFetcherError::InvalidPriceAccountOwner)
    } else if price_update.data_len == 0 {
        Some(PriceFetcherError::EmptyPriceAccount)
    } else {
        None
    }
}

/// How a delegated lookup ends, given the snapshot before it, whether the
/// oracle reported success, and the snapshot after it. A changed record is
/// reported whatever the oracle said.
pub open spec fn complete_fetch_spec(
    before: IntegritySnapshot,
    oracle_succeeded: bool,
    after: IntegritySnapshot,
) -> Result<(), PriceFetcherError> {
    if after != before {
        Err(PriceFetcherError::AccountStateModified)
    } else if !oracle_succeeded {
        Err(PriceFetcherError::OracleProgramError)
    } else {
        Ok(())
    }
}

/// A request that passes every gate of the relay also passes the oracle's own
/// checks on its input: its bound is one the oracle takes, and the oracle does
/// not refuse its feed id, whatever the record and the clock.
pub proof fn lemma_forwarded_request_passes_oracle_checks(
    maximum_age: u64,
    feed_id_hex: Seq<u8>,
    relay_id: Seq<u8>,
    price_update: AccountState,
    now: Option<i64>,
    record: PriceRecord,
)
    requires
        fetch_price_gate(maximum_age, feed_id_hex, relay_id, price_update) is None,
    ensures
        maximum_age <= i64::MAX,
        get_price_spec(maximum_age, feed_id_hex, now, record) != Err::<PriceQuote, OracleError>(
            OracleError::InvalidFeedIdFormat,
        ),
{
}

/// Do two 32-byte identities agree?
fn same_identity(a: &[u8; 32], b: &[u8; 32]) -> (r: bool)
    ensures
        r == (a@ == b@),
{
    let mut i: usize = 0;
    while i < 32
        invariant
            0 <= i <= 32,
            a@.len() == 32,
            b@.len() == 32,
            forall|j: int| 0 <= j < i ==> a@[j] == b@[j],
        decreases 32 - i,
    {
        if a[i] != b[i] {
            return false;
        }
        i = i + 1;
    }
    assert(a@ =~= b@);
    true
}

/// Checks a request and, when every gate passes, snapshots the record and
/// returns the lookup to delegate to the oracle: the same bound and the feed id
/// text as given. `relay_id` is the relay's own program identity.
pub fn fetch_price(maximum_age: u64, feed_id_hex: &str, relay_id: &[u8; 32], price_update: &AccountState)
    -> (r: Result<OracleRequest, PriceFetcherError>)
    ensures
        (r == Err::<OracleRequest, _>(PriceFetcherError::InvalidFeedIdFormat)) <==> !is_feed_id_hex(
            feed_id_hex.spec_bytes(),
        ),
        is_feed_id_hex(feed_id_hex.spec_bytes()) ==> ((r == Err::<OracleRequest, _>(
            PriceFetcherError::InvalidMaximumAge,
        )) <==> !is_valid_maximum_age(maximum_age)),
        is_feed_id_hex(feed_id_hex.spec_bytes()) && is_valid_maximum_age(maximum_age)
            && price_update.owner@ == relay_id@ ==> r == Err::<OracleRequest, _>(
            PriceFetcherError::InvalidPriceAccountOwner,
        ),
        match fetch_price_gate(maximum_age, feed_id_hex.spec_bytes(), relay_id@, *price_update) {
            Some(e) => r == Err::<OracleRequest, _>(e),
            None => r is Ok && r->Ok_0.maximum_age == maximum_age && r->Ok_0.feed_id_hex@
                == feed_id_hex@ && r->Ok_0.snapshot == price_update.snapshot_spec(),
        },
{
    let clean = strip_hex_prefix(feed_id_hex);
    if clean.as_bytes().len() != FEED_ID_HEX_LEN || !is_valid_hex_string(clean) {
        return Err(PriceFetcherError::InvalidFeedIdFormat);
    }
    if maximum_age == 0 || maximum_age > MAX_MAXIMUM_AGE {
        return Err(PriceFetcherError::InvalidMaximumAge);
    }
    if same_identity(&price_update.owner, relay_id) {
        return Err(PriceFetcherError::InvalidPriceAccountOwner);
    }
    if price_update.data_len == 0 {
        return Err(PriceFetcherError::EmptyPriceAccount);
    }
    let snapshot = price_update.snapshot();
    Ok(OracleRequest { maximum_age, feed_id_hex: feed_id_hex.to_owned(), snapshot })
}

/// Judges a delegated lookup: `price_update` is the record as it stands after
/// the oracle returned, `oracle_succeeded` whether the oracle reported success.
pub fn complete_fetch_price(request: &OracleRequest, oracle_succeeded: bool, price_update: &AccountState)
    -> (r: Result<(), PriceFetcherError>)
    ensures
        r == complete_fetch_spec(request.snapshot, oracle_succeeded, price_update.snapshot_spec()),
        price_update.snapshot_spec() != request.snapshot ==> r == Err::<(), _>(
            PriceFetcherError::AccountStateModified,
        ),
{
    let before = &request.snapshot;
    let after = price_update.snapshot();
    if !same_identity(&after.owner, &before.owner) {
        return Err(PriceFetcherError::AccountStateModified);
    }
    if after.data_len != before.data_len {
        return Err(PriceFetcherError::AccountStateModified);
    }
    if after.is_empty != before.is_empty {
        return Err(PriceFetcherError::AccountStateModified);
    }
    proof {
        assert(after.owner =~= before.owner);
    }
    if !oracle_succeeded {
        return Err(PriceFetcherError::OracleProgramError);
    }
    Ok(())
}

} // verus!
