//! Settings read from the environment: a number of milliseconds, or a default.
use vstd::prelude::*;

use crate::decimal::{decimal_digits, law_numeral_round_trip, parse_u64, parse_unsigned};

verus! {

/// Default time allowed to an HTTP dependency probe, in milliseconds.
pub const DEFAULT_DEPENDENCY_TIMEOUT_MS: u64 = 1500;

/// Default duration from which a database query counts as slow, in milliseconds.
pub const DEFAULT_SLOW_QUERY_MS: u64 = 500;

/// The number that a setting holds: its value read as a `u64` where it is set and
/// is a numeral that fits, else `default`.
pub open spec fn setting_value(value: Option<&str>, default: u64) -> u64 {
    match value {
        Some(v) => match parse_unsigned(v@, u64::MAX as nat) {
            Some(n) => n as u64,
            None => default,
        },
        None => default,
    }
}

/// Reads a numeric setting; an unset or unreadable one gives `default`.
pub fn setting_or(value: Option<&str>, default: u64) -> (r: u64)
    ensures
        r == setting_value(value, default),
{
    match value {
        Some(v) => match parse_u64(v) {
            Some(n) => n,
            None => default,
        },
        None => default,
    }
}

/// Time allowed to each HTTP dependency probe, in milliseconds, from the value of
/// the setting `DEPENDENCY_HEALTH_TIMEOUT_MS`.
pub fn dependency_timeout_ms(value: Option<&str>) -> (r: u64)
    ensures
        r == setting_value(value, DEFAULT_DEPENDENCY_TIMEOUT_MS),
{
    setting_or(value, DEFAULT_DEPENDENCY_TIMEOUT_MS)
}

/// Duration from which a query counts as slow, in milliseconds, from the value of
/// the setting `DB_SLOW_QUERY_MS`.
pub fn slow_query_threshold_ms(value: Option<&str>) -> (r: u64)
    ensures
        r == setting_value(value, DEFAULT_SLOW_QUERY_MS),
{
    setting_or(value, DEFAULT_SLOW_QUERY_MS)
}

/// A setting that is a numeral fitting a `u64` is used as written, whether above
/// or below the default; an unset or unreadable one gives the default.
pub proof fn law_setting_used_as_written(value: Option<&str>, default: u64)
    ensures
        value matches Some(v) ==> (parse_unsigned(v@, u64::MAX as nat) matches Some(n)
            ==> setting_value(value, default) == n),
        value matches Some(v) ==> (parse_unsigned(v@, u64::MAX as nat) is None ==> setting_value(
            value,
            default,
        ) == default),
        value is None ==> setting_value(value, default) == default,
{
}

/// A setting written as the decimal numeral of `n` gives `n`.
pub proof fn law_setting_reads_numeral(v: &str, n: u64, default: u64)
    requires
        v@ == decimal_digits(n as nat),
    ensures
        setting_value(Some(v), default) == n,
{
    law_numeral_round_trip(n as nat, u64::MAX as nat);
}

/// The defaults: 1500 ms for a dependency probe, 500 ms for a slow query.
pub proof fn law_setting_defaults()
    ensures
        DEFAULT_DEPENDENCY_TIMEOUT_MS == 1500,
        DEFAULT_SLOW_QUERY_MS == 500,
{
}

} // verus!
