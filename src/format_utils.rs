//! Formatting of durations and counts for display.
use vstd::prelude::*;
use crate::text::{decimal, push_decimal};

verus! {

/// Formatting utilities for consistent display patterns.
pub struct FormatUtils;

impl FormatUtils {
    /// `"<ms>ms"`.
    pub fn format_duration_ms(ms: u64) -> (r: String)
        ensures
            r@ == decimal(ms as nat) + "ms"@,
    {
        let mut s = String::new();
        push_decimal(&mut s, ms as u128);
        s.append("ms");
        s
    }

    /// `"Timeout after <ms>ms"`.
    pub fn format_timeout_message(timeout_ms: u64) -> (r: String)
        ensures
            r@ == "Timeout after "@ + decimal(timeout_ms as nat) + "ms"@,
    {
        let mut s = "Timeout after ".to_owned();
        push_decimal(&mut s, timeout_ms as u128);
        s.append("ms");
        s
    }
}

} // verus!
