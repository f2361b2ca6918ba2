//! The retention sweep that enforces the configured log retention.

use vstd::prelude::*;
use crate::text::{push_signed_decimal, signed_decimal};

verus! {

/// The SQLite date modifier for the retention cutoff: records older than
/// `datetime('now', modifier)` are deleted.
pub fn retention_age(retention_days: i64) -> (modifier: String)
    ensures
        modifier@ == "-"@ + signed_decimal(retention_days as int) + " days"@,
{
    let mut modifier = "-".to_owned();
    push_signed_decimal(&mut modifier, retention_days);
    modifier.append(" days");
    modifier
}

} // verus!
