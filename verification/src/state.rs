//! The controller's record and its mathematical model.

use vstd::prelude::*;

use crate::geometry::{LogicalPosition, LogicalSize};

verus! {

/// Everything the controller remembers about the surface. One record exists
/// per session; the host keeps it behind a single reader/writer lock.
#[derive(Clone, Debug, PartialEq, Eq)]
pub struct AdsState {
    /// Whether the surface is visible.
    pub shown: bool,
    /// Last size given to the surface; absent until it is first placed.
    pub size: Option<LogicalSize>,
    /// Last position given to the surface; absent until it is first placed.
    pub position: Option<LogicalPosition>,
    /// Time of the most recent accepted click, in milliseconds on the
    /// session's monotonic clock.
    pub last_click: Option<u64>,
    /// Origins that may not open links. No origin is listed twice.
    pub malicious_origins: Vec<String>,
}

/// The record as a mathematical value: the block-list is a set of origins.
pub struct AdsStateView {
    pub shown: bool,
    pub size: Option<LogicalSize>,
    pub position: Option<LogicalPosition>,
    pub last_click: Option<u64>,
    pub malicious_origins: Set<Seq<char>>,
}

/// The origins that a list names, as a set.
pub open spec fn origin_set(origins: Seq<String>) -> Set<Seq<char>> {
    Set::new(|origin: Seq<char>| exists|i: int| 0 <= i < origins.len() && origins[i]@ == origin)
}

/// No origin occurs at two places of the list.
pub open spec fn origins_distinct(origins: Seq<String>) -> bool {
    forall|i: int, j: int|
        0 <= i < origins.len() && 0 <= j < origins.len() && i != j ==> origins[i]@ != origins[j]@
}

impl View for AdsState {
    type V = AdsStateView;

    open spec fn view(&self) -> AdsStateView {
        AdsStateView {
            shown: self.shown,
            size: self.size,
            position: self.position,
            last_click: self.last_click,
            malicious_origins: origin_set(self.malicious_origins@),
        }
    }
}

impl AdsStateView {
    /// The record of a fresh session: visible, never placed, never clicked,
    /// nothing blocked.
    pub open spec fn initial() -> AdsStateView {
        AdsStateView {
            shown: true,
            size: None,
            position: None,
            last_click: None,
            malicious_origins: Set::empty(),
        }
    }

    /// Size and position are present together or absent together, and a
    /// present size is valid.
    pub open spec fn geometry_paired(self) -> bool {
        &&& self.size is Some <==> self.position is Some
        &&& self.size matches Some(size) ==> size.is_valid()
    }
}

impl AdsState {
    /// The record's invariant: geometry is paired and valid, and the
    /// block-list names no origin twice.
    pub open spec fn wf(&self) -> bool {
        &&& self@.geometry_paired()
        &&& origins_distinct(self.malicious_origins@)
    }
}

/// Creates the record of a fresh session.
pub fn init() -> (state: AdsState)
    ensures
        state@ == AdsStateView::initial(),
        state.wf(),
{
    let state = AdsState {
        shown: true,
        size: None,
        position: None,
        last_click: None,
        malicious_origins: Vec::new(),
    };
    assert(state@.malicious_origins =~= Set::empty());
    state
}

} // verus!
