//! Freshness-bounded price lookup over an oracle price record, and a relay
//! that guards a delegated lookup with integrity checks on the shared record.
pub mod feed_id;
pub mod oracle;
pub mod relay;
