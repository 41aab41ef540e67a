use vstd::prelude::*;

verus! {

/// Shortest accepted label, in bytes.
pub const MIN_NAME_LENGTH: usize = 3;

/// Longest accepted label, in bytes.
pub const MAX_NAME_LENGTH: usize = 63;

/// Fewest years a registration may cover.
pub const MIN_REGISTRATION_YEARS: u64 = 1;

/// Most years a registration may cover.
pub const MAX_REGISTRATION_YEARS: u64 = 10;

/// Length of a registration year in seconds (365 days).
pub const YEAR_SECONDS: u64 = 31_536_000;

/// Length of the post-expiry grace window in seconds (30 days).
pub const GRACE_PERIOD_SECONDS: u64 = 2_592_000;

/// Default time-to-live of a resolution, in seconds.
pub const DEFAULT_TTL_SECONDS: u64 = 3600;

/// Longest accepted chain identifier, in bytes.
pub const MAX_CHAIN_NAME_LENGTH: usize = 32;

/// Longest accepted metadata URI, in bytes.
pub const MAX_METADATA_URI_LENGTH: usize = 256;

/// Most text records a single resolution record may hold.
pub const MAX_TEXT_RECORDS: usize = 20;

/// Longest accepted text-record value, in bytes.
pub const MAX_TEXT_RECORD_VALUE_LENGTH: usize = 256;

} // verus!
