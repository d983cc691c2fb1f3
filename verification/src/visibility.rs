//! Placing, showing and hiding the surface.
//!
//! Each command takes the surface's reply to the operation that the host
//! performed for it. The record is updated only when the surface
//! acknowledged; on any failure it is left as it was.

use vstd::prelude::*;

use crate::geometry::{LogicalPosition, LogicalSize, Scalar};
use crate::state::{AdsState, AdsStateView};
use crate::surface::{AdsError, Placement, SurfaceReply};

verus! {

impl AdsStateView {
    /// Where a request to place the surface puts it: at the position and
    /// size asked for, visible if it is visible now or the override asks
    /// for it.
    pub open spec fn placement(
        self,
        position: LogicalPosition,
        size: LogicalSize,
        override_shown: bool,
    ) -> Placement {
        Placement { position, size, shown: self.shown || override_shown }
    }

    /// The record after the surface was placed: geometry is replaced, and
    /// the surface becomes visible if the override asks for it.
    pub open spec fn placed(
        self,
        position: LogicalPosition,
        size: LogicalSize,
        override_shown: bool,
    ) -> AdsStateView {
        AdsStateView {
            shown: self.shown || override_shown,
            size: Some(size),
            position: Some(position),
            ..self
        }
    }

    /// The record after the surface was shown.
    pub open spec fn revealed(self) -> AdsStateView {
        AdsStateView { shown: true, ..self }
    }

    /// The record after the surface was hidden; a reset also forgets the
    /// geometry.
    pub open spec fn hidden(self, reset: bool) -> AdsStateView {
        if reset {
            AdsStateView { shown: false, size: None, position: None, ..self }
        } else {
            AdsStateView { shown: false, ..self }
        }
    }
}

/// Whether a hide request asks for a reset: only an explicit `true` does.
pub open spec fn wants_reset(reset: Option<bool>) -> bool {
    reset == Some(true)
}

/// What a reply means for a command: nothing on acknowledgement, else the
/// surface's failure with its own text.
pub open spec fn reply_result(reply: SurfaceReply) -> Result<(), AdsError> {
    match reply {
        SurfaceReply::Acknowledged => Ok(()),
        SurfaceReply::Unavailable(reason) => Err(AdsError::SurfaceUnavailable(reason)),
    }
}

/// Decides where the surface goes for an `init` request, before the host
/// touches the surface. Fails exactly when the width or the height is below
/// zero, infinite or not a number; `x` and `y` may be anything.
pub fn plan_placement(
    state: &AdsState,
    x: Scalar,
    y: Scalar,
    width: Scalar,
    height: Scalar,
    override_shown: bool,
) -> (plan: Result<Placement, AdsError>)
    ensures
        !(width.is_extent() && height.is_extent()) ==> plan == Err::<Placement, AdsError>(
            AdsError::InvalidGeometry,
        ),
        width.is_extent() && height.is_extent() ==> plan == Ok::<Placement, AdsError>(
            state@.placement(
                (LogicalPosition { x, y }),
                (LogicalSize { width, height }),
                override_shown,
            ),
        ),
{
    let size = LogicalSize::new(width, height);
    if !size.check_valid() {
        return Err(AdsError::InvalidGeometry);
    }
    let position = LogicalPosition::new(x, y);
    Ok(Placement { position, size, shown: state.shown || override_shown })
}

/// Records the geometry of the surface once the host has placed it.
///
/// Invalid geometry is rejected whatever the surface replied. Otherwise the
/// record changes exactly when the surface acknowledged.
pub fn init_ads_window(
    state: &mut AdsState,
    x: Scalar,
    y: Scalar,
    width: Scalar,
    height: Scalar,
    override_shown: bool,
    reply: SurfaceReply,
) -> (result: Result<(), AdsError>)
    ensures
        !(width.is_extent() && height.is_extent()) ==> result == Err::<(), AdsError>(
            AdsError::InvalidGeometry,
        ),
        width.is_extent() && height.is_extent() ==> result == reply_result(reply),
        result is Ok ==> final(state)@ == old(state)@.placed(
            (LogicalPosition { x, y }),
            (LogicalSize { width, height }),
            override_shown,
        ),
        result is Ok ==> final(state).malicious_origins == old(state).malicious_origins,
        result is Err ==> *final(state) == *old(state),
        old(state).wf() ==> final(state).wf(),
{
    let size = LogicalSize::new(width, height);
    if !size.check_valid() {
        return Err(AdsError::InvalidGeometry);
    }
    match reply {
        SurfaceReply::Acknowledged => {
            state.size = Some(size);
            state.position = Some(LogicalPosition::new(x, y));
            if override_shown {
                state.shown = true;
            }
            Ok(())
        },
        SurfaceReply::Unavailable(reason) => Err(AdsError::SurfaceUnavailable(reason)),
    }
}

/// Records that the surface is visible once the host has shown it.
/// Showing a surface that is already shown succeeds and changes nothing.
pub fn show_ads_window(state: &mut AdsState, reply: SurfaceReply) -> (result: Result<(), AdsError>)
    ensures
        result == reply_result(reply),
        result is Ok ==> final(state)@ == old(state)@.revealed(),
        result is Ok ==> final(state).malicious_origins == old(state).malicious_origins,
        result is Err ==> *final(state) == *old(state),
        old(state).wf() ==> final(state).wf(),
{
    match reply {
        SurfaceReply::Acknowledged => {
            state.shown = true;
            Ok(())
        },
        SurfaceReply::Unavailable(reason) => Err(AdsError::SurfaceUnavailable(reason)),
    }
}

/// Records that the surface is hidden once the host has hidden it. With
/// `reset` given as `true` the geometry is forgotten as well, so that the
/// surface has to be placed anew.
pub fn hide_ads_window(
    state: &mut AdsState,
    reset: Option<bool>,
    reply: SurfaceReply,
) -> (result: Result<(), AdsError>)
    ensures
        result == reply_result(reply),
        result is Ok ==> final(state)@ == old(state)@.hidden(wants_reset(reset)),
        result is Ok ==> final(state).malicious_origins == old(state).malicious_origins,
        result is Err ==> *final(state) == *old(state),
        old(state).wf() ==> final(state).wf(),
{
    match reply {
        SurfaceReply::Acknowledged => {
            state.shown = false;
            match reset {
                Some(true) => {
                    state.size = None;
                    state.position = None;
                },
                _ => {},
            }
            Ok(())
        },
        SurfaceReply::Unavailable(reason) => Err(AdsError::SurfaceUnavailable(reason)),
    }
}

} // verus!
