//! LED blink state machine.
//!
//! `LedState` is the logical on/off state of the LED, `BlinkController`
//! tracks that state together with the configured blink delay and a toggle
//! counter, and the free functions clamp a requested delay into the valid
//! range and convert a logical state into the boolean level that drives a
//! physical pin.

use crate::config::{BLINK_DELAY_MS, MAX_BLINK_DELAY_MS, MIN_BLINK_DELAY_MS};
use vstd::prelude::*;

verus! {

/// Logical LED state: `On` (driven high) or `Off` (driven low).
#[derive(Clone, Copy, Debug, PartialEq, Eq, Structural)]
pub enum LedState {
    On,
    Off,
}

/// The state reached from `s` by one toggle: `On` and `Off` swap.
pub open spec fn spec_toggled(s: LedState) -> LedState {
    match s {
        LedState::On => LedState::Off,
        LedState::Off => LedState::On,
    }
}

/// The boolean level that drives the pin for state `s`: high for `On`,
/// low for `Off`.
pub open spec fn spec_level(s: LedState) -> bool {
    s is On
}

/// `d` clamped into `[MIN_BLINK_DELAY_MS, MAX_BLINK_DELAY_MS]`.
pub open spec fn spec_clamp_delay(d: u64) -> u64 {
    if d < MIN_BLINK_DELAY_MS {
        MIN_BLINK_DELAY_MS
    } else if d > MAX_BLINK_DELAY_MS {
        MAX_BLINK_DELAY_MS
    } else {
        d
    }
}

/// Clamps a requested delay into the valid range: values below the minimum
/// become the minimum, values above the maximum become the maximum, and
/// in-range values pass through unchanged.
pub fn clamp_delay(delay_ms: u64) -> (r: u64)
    ensures
        r == spec_clamp_delay(delay_ms),
        MIN_BLINK_DELAY_MS <= r <= MAX_BLINK_DELAY_MS,
        MIN_BLINK_DELAY_MS <= delay_ms <= MAX_BLINK_DELAY_MS ==> r == delay_ms,
        delay_ms < MIN_BLINK_DELAY_MS ==> r == MIN_BLINK_DELAY_MS,
        delay_ms > MAX_BLINK_DELAY_MS ==> r == MAX_BLINK_DELAY_MS,
{
    if delay_ms < MIN_BLINK_DELAY_MS {
        MIN_BLINK_DELAY_MS
    } else if delay_ms > MAX_BLINK_DELAY_MS {
        MAX_BLINK_DELAY_MS
    } else {
        delay_ms
    }
}

/// Converts a logical LED state to the boolean level for the pin:
/// `On` maps to `true` (high), `Off` maps to `false` (low).
pub fn state_to_level(state: LedState) -> (r: bool)
    ensures
        r == spec_level(state),
        state is On ==> r,
        state is Off ==> !r,
{
    match state {
        LedState::On => true,
        LedState::Off => false,
    }
}

/// Blink controller: the current LED state, the configured blink delay in
/// milliseconds, and the number of toggles performed so far.
///
/// The delay is kept inside `[MIN_BLINK_DELAY_MS, MAX_BLINK_DELAY_MS]` by
/// every write path (see [`BlinkController::wf`]); the toggle counter starts
/// at zero and wraps only at `u64::MAX`.
#[derive(Debug)]
pub struct BlinkController {
    state: LedState,
    delay_ms: u64,
    toggle_count: u64,
}

/// The toggle counter after one more toggle: one more, wrapping at
/// `u64::MAX`.
pub open spec fn spec_next_count(c: u64) -> u64 {
    if c == u64::MAX {
        0
    } else {
        (c + 1) as u64
    }
}

impl BlinkController {
    /// The controller's current LED state.
    pub closed spec fn spec_state(&self) -> LedState {
        self.state
    }

    /// The controller's configured delay, in milliseconds.
    pub closed spec fn spec_delay_ms(&self) -> u64 {
        self.delay_ms
    }

    /// The number of toggles performed since construction.
    pub closed spec fn spec_toggle_count(&self) -> u64 {
        self.toggle_count
    }

    /// Well-formedness: the configured delay lies in the valid range.
    /// Constructors establish it and every method preserves it.
    pub open spec fn wf(&self) -> bool {
        MIN_BLINK_DELAY_MS <= self.spec_delay_ms() <= MAX_BLINK_DELAY_MS
    }

    /// Creates a controller with the LED off, the default delay, and a zero
    /// toggle counter.
    pub fn new() -> (c: Self)
        ensures
            c.spec_state() == LedState::Off,
            c.spec_delay_ms() == BLINK_DELAY_MS,
            c.spec_toggle_count() == 0,
            c.wf(),
    {
        Self::default()
    }

    /// Creates a controller with the LED off, the requested delay clamped
    /// into the valid range, and a zero toggle counter.
    pub fn with_delay(delay_ms: u64) -> (c: Self)
        ensures
            c.spec_state() == LedState::Off,
            c.spec_delay_ms() == spec_clamp_delay(delay_ms),
            c.spec_toggle_count() == 0,
            c.wf(),
    {
        Self {
            state: LedState::Off,
            delay_ms: clamp_delay(delay_ms),
            toggle_count: 0,
        }
    }

    /// Flips the LED state, counts the toggle, and returns the new state.
    /// The configured delay is untouched.
    pub fn toggle(&mut self) -> (r: LedState)
        ensures
            *final(self) == spec_toggle(*old(self)),
            r == final(self).spec_state(),
            final(self).spec_state() == spec_toggled(old(self).spec_state()),
            final(self).spec_toggle_count() == spec_next_count(old(self).spec_toggle_count()),
            final(self).spec_delay_ms() == old(self).spec_delay_ms(),
            old(self).wf() ==> final(self).wf(),
    {
        self.state = match self.state {
            LedState::On => LedState::Off,
            LedState::Off => LedState::On,
        };
        self.toggle_count = if self.toggle_count == u64::MAX {
            0
        } else {
            self.toggle_count + 1
        };
        self.state
    }

    /// Returns the current LED state.
    pub fn state(&self) -> (r: LedState)
        ensures
            r == self.spec_state(),
    {
        self.state
    }

    /// Returns the configured delay, in milliseconds.
    pub fn delay_ms(&self) -> (r: u64)
        ensures
            r == self.spec_delay_ms(),
    {
        self.delay_ms
    }

    /// Returns the number of toggles performed since construction.
    pub fn toggle_count(&self) -> (r: u64)
        ensures
            r == self.spec_toggle_count(),
    {
        self.toggle_count
    }

    /// Whether the LED is on. Always the opposite of [`Self::is_off`].
    pub fn is_on(&self) -> (r: bool)
        ensures
            r == (self.spec_state() is On),
            r == spec_level(self.spec_state()),
    {
        self.state == LedState::On
    }

    /// Whether the LED is off. Always the opposite of [`Self::is_on`].
    pub fn is_off(&self) -> (r: bool)
        ensures
            r == (self.spec_state() is Off),
            r == !spec_level(self.spec_state()),
    {
        self.state == LedState::Off
    }

    /// Replaces the configured delay with the requested one, clamped into
    /// the valid range. State and toggle counter are untouched, and the
    /// stored delay is in range whatever the input was.
    pub fn set_delay(&mut self, delay_ms: u64)
        ensures
            final(self).spec_delay_ms() == spec_clamp_delay(delay_ms),
            MIN_BLINK_DELAY_MS <= final(self).spec_delay_ms() <= MAX_BLINK_DELAY_MS,
            final(self).wf(),
            final(self).spec_state() == old(self).spec_state(),
            final(self).spec_toggle_count() == old(self).spec_toggle_count(),
    {
        self.delay_ms = clamp_delay(delay_ms);
    }
}

impl Default for BlinkController {
    /// The default controller: LED off, default delay, zero toggle counter.
    fn default() -> (c: Self)
        ensures
            c.spec_state() == LedState::Off,
            c.spec_delay_ms() == BLINK_DELAY_MS,
            c.spec_toggle_count() == 0,
            c.wf(),
    {
        Self {
            state: LedState::Off,
            delay_ms: BLINK_DELAY_MS,
            toggle_count: 0,
        }
    }
}

/// The controller value after one toggle: state flipped, counter advanced,
/// delay unchanged.
pub closed spec fn spec_toggle(c: BlinkController) -> BlinkController {
    BlinkController {
        state: spec_toggled(c.state),
        delay_ms: c.delay_ms,
        toggle_count: spec_next_count(c.toggle_count),
    }
}

/// The controller value after `n` toggles.
pub open spec fn spec_toggle_n(c: BlinkController, n: nat) -> BlinkController
    decreases n,
{
    if n == 0 {
        c
    } else {
        spec_toggle(spec_toggle_n(c, (n - 1) as nat))
    }
}

/// Every LED state is exactly one of `On` and `Off`, so the `is_on` and
/// `is_off` views of a controller always disagree.
pub proof fn lemma_on_xor_off(s: LedState)
    ensures
        (s is On) != (s is Off),
{
}

/// Toggling is an involution on the state: two toggles restore it.
pub proof fn lemma_toggled_involution(s: LedState)
    ensures
        spec_toggled(spec_toggled(s)) == s,
{
}

/// Two toggles leave the LED state and the delay unchanged and, as long as
/// the counter does not wrap, advance the toggle counter by exactly two.
pub proof fn lemma_toggle_twice(c: BlinkController)
    requires
        c.spec_toggle_count() + 2 <= u64::MAX,
    ensures
        spec_toggle_n(c, 2).spec_state() == c.spec_state(),
        spec_toggle_n(c, 2).spec_delay_ms() == c.spec_delay_ms(),
        spec_toggle_n(c, 2).spec_toggle_count() == c.spec_toggle_count() + 2,
{
    lemma_toggled_involution(c.spec_state());
    assert(spec_toggle_n(c, 1) == spec_toggle(spec_toggle_n(c, 0)));
    assert(spec_toggle_n(c, 2) == spec_toggle(spec_toggle_n(c, 1)));
}

/// Starting from a zero counter, the toggle counter after `n` toggles is
/// exactly `n`; the delay is never touched by toggling.
pub proof fn lemma_toggle_count_after_n(c: BlinkController, n: nat)
    requires
        c.spec_toggle_count() == 0,
        n <= u64::MAX,
    ensures
        spec_toggle_n(c, n).spec_toggle_count() == n,
        spec_toggle_n(c, n).spec_delay_ms() == c.spec_delay_ms(),
    decreases n,
{
    if n > 0 {
        lemma_toggle_count_after_n(c, (n - 1) as nat);
    }
}

} // verus!
