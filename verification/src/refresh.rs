//! The refresh schedule.
//!
//! One background task reloads the surface's content on a fixed period for
//! as long as the session lasts. The task asks the controller what to do on
//! each tick, does it, and sleeps for the time the controller names. The
//! schedule does not depend on the record: content is reloaded while the
//! surface is hidden too, so that it is fresh when shown again.

use vstd::prelude::*;

verus! {

/// Seconds between two reloads of the surface's content.
pub const REFRESH_PERIOD_SECS: u64 = 300;

/// The address that the surface is sent to on a reload.
pub const REFRESH_ENDPOINT: &'static str = "https://modrinth.com/wrapper/app-ads-cookie";

/// What the background task does on a tick.
#[derive(Clone, Copy, Debug, PartialEq, Eq, Structural)]
pub enum RefreshAction {
    /// Send the surface to [`REFRESH_ENDPOINT`]; a failure is not reported.
    Reload,
    /// There is no surface yet: do nothing until the next tick.
    Skip,
}

/// One step of the background task: what to do now, and how long to sleep
/// before asking again.
#[derive(Clone, Copy, Debug, PartialEq, Eq, Structural)]
pub struct RefreshTick {
    pub action: RefreshAction,
    pub sleep_secs: u64,
}

/// The step for a tick on which the surface is present or not.
pub open spec fn refresh_step(surface_present: bool) -> RefreshTick {
    RefreshTick {
        action: if surface_present {
            RefreshAction::Reload
        } else {
            RefreshAction::Skip
        },
        sleep_secs: REFRESH_PERIOD_SECS,
    }
}

/// Decides one tick of the background task. The surface is reloaded
/// whenever it exists; a missing surface is no error, the tick is skipped.
/// Either way the next tick is one period later.
pub fn refresh_tick(surface_present: bool) -> (tick: RefreshTick)
    ensures
        tick == refresh_step(surface_present),
{
    let action = if surface_present {
        RefreshAction::Reload
    } else {
        RefreshAction::Skip
    };
    RefreshTick { action, sleep_secs: REFRESH_PERIOD_SECS }
}

} // verus!
