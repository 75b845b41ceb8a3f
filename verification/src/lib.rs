//! A small, fully verified LED blink controller.
//!
//! The library tracks a logical LED state (`On`/`Off`), a configured blink
//! delay that is always clamped into a valid range, and a toggle counter.
//! A driver loop outside the library reads the logical level, waits for the
//! configured delay, and toggles; everything the driver relies on is stated
//! in the contracts here.

pub mod blink;
pub mod config;

pub use blink::BlinkController;
pub use blink::LedState;
pub use blink::clamp_delay;
pub use blink::state_to_level;
pub use config::BLINK_DELAY_MS;
pub use config::MAX_BLINK_DELAY_MS;
pub use config::MIN_BLINK_DELAY_MS;
