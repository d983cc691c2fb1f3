//! Click accounting with a debounce window.
//!
//! Times are milliseconds on a clock that the host starts with the session
//! and that never runs backwards. A reading that lies before the last
//! accepted click is treated as no time having passed.

use vstd::prelude::*;

use crate::state::{AdsState, AdsStateView};

verus! {

/// The shortest time, in milliseconds, that must lie between two clicks for
/// both to be accounted.
pub const CLICK_DEBOUNCE_MS: u64 = 300;

/// What became of a click.
#[derive(Clone, Copy, Debug, PartialEq, Eq, Structural)]
pub enum ClickOutcome {
    /// The click is accounted; one click-through may be forwarded.
    Accepted,
    /// The click fell into the debounce window of the last accepted one.
    Ignored,
}

impl AdsStateView {
    /// Whether a click at `now` is accounted: there was no accepted click
    /// before, or at least the debounce time has passed since the last one.
    pub open spec fn accepts_click(self, now: u64) -> bool {
        match self.last_click {
            None => true,
            Some(last) => now - last >= CLICK_DEBOUNCE_MS,
        }
    }

    /// The record after a click at `now`: an accounted click becomes the
    /// last click, any other changes nothing.
    pub open spec fn clicked(self, now: u64) -> AdsStateView {
        if self.accepts_click(now) {
            AdsStateView { last_click: Some(now), ..self }
        } else {
            self
        }
    }
}

/// Accounts a click made at `now`, or ignores it as a duplicate of the last
/// accepted one. An ignored click is no error and changes nothing.
pub fn record_ads_click(state: &mut AdsState, now: u64) -> (outcome: ClickOutcome)
    ensures
        outcome == if old(state)@.accepts_click(now) {
            ClickOutcome::Accepted
        } else {
            ClickOutcome::Ignored
        },
        final(state)@ == old(state)@.clicked(now),
        final(state).malicious_origins == old(state).malicious_origins,
        outcome == ClickOutcome::Ignored ==> *final(state) == *old(state),
        old(state).last_click matches Some(before) ==> (final(state).last_click matches Some(after)
            && before <= after),
        old(state).wf() ==> final(state).wf(),
{
    let accepted = match state.last_click {
        None => true,
        Some(last) => now >= last && now - last >= CLICK_DEBOUNCE_MS,
    };
    if accepted {
        state.last_click = Some(now);
        ClickOutcome::Accepted
    } else {
        ClickOutcome::Ignored
    }
}

} // verus!
