//! Blink timing configuration.
//!
//! The controller's delay is always kept inside
//! `[MIN_BLINK_DELAY_MS, MAX_BLINK_DELAY_MS]`, and the default delay lies in
//! that range as well.

use vstd::prelude::*;

verus! {

/// Default blink half-period, in milliseconds.
pub const BLINK_DELAY_MS: u64 = 500;

/// Smallest delay a controller accepts, in milliseconds.
pub const MIN_BLINK_DELAY_MS: u64 = 10;

/// Largest delay a controller accepts, in milliseconds.
pub const MAX_BLINK_DELAY_MS: u64 = 10000;

/// Configuration sanity: the bounds are ordered and the default delay lies
/// between them.
pub proof fn lemma_config_sane()
    ensures
        MIN_BLINK_DELAY_MS <= BLINK_DELAY_MS <= MAX_BLINK_DELAY_MS,
{
}

} // verus!
