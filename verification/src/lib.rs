//! Controller for an embedded advertisement surface.
//!
//! The controller owns one record, [`AdsState`], and decides when the surface
//! is visible, where it sits, when its content is reloaded, which clicks are
//! accounted and which outbound links may be opened. It performs no window
//! or network operation itself: the host performs them and tells the
//! controller how the surface answered.

pub mod clicks;
pub mod geometry;
pub mod laws;
pub mod origins;
pub mod refresh;
pub mod state;
pub mod surface;
pub mod visibility;

pub use clicks::{record_ads_click, ClickOutcome, CLICK_DEBOUNCE_MS};
pub use geometry::{LogicalPosition, LogicalSize, Scalar};
pub use origins::{add_malicious_origin, is_malicious_origin, open_link, LinkDecision};
pub use refresh::{
    refresh_tick, RefreshAction, RefreshTick, REFRESH_ENDPOINT, REFRESH_PERIOD_SECS,
};
pub use state::{init, AdsState, AdsStateView};
pub use surface::{scroll_ads_window, AdsError, Placement, ScrollEvent, SurfaceReply};
pub use visibility::{hide_ads_window, init_ads_window, plan_placement, show_ads_window};
