//! Laws of the controller, stated over the model of the record.
//!
//! The commands' contracts say what each one does to the record in terms of
//! the transitions `placed`, `revealed`, `hidden`, `clicked` and `blocking`.
//! The laws below relate those transitions to each other.

use vstd::prelude::*;

use crate::clicks::CLICK_DEBOUNCE_MS;
use crate::geometry::{LogicalPosition, LogicalSize};
use crate::origins::LinkDecision;
use crate::state::AdsStateView;

verus! {

/// Hiding twice is hiding once: a second hide with the same reset flag
/// leaves the record as the first one left it.
pub proof fn lemma_hide_idempotent(s: AdsStateView, reset: bool)
    ensures
        s.hidden(reset).hidden(reset) == s.hidden(reset),
{
}

/// Two hides in a row amount to one hide that resets if either of them did.
pub proof fn lemma_hide_twice(s: AdsStateView, first: bool, second: bool)
    ensures
        s.hidden(first).hidden(second) == s.hidden(first || second),
{
}

/// Showing twice is showing once.
pub proof fn lemma_show_idempotent(s: AdsStateView)
    ensures
        s.revealed().revealed() == s.revealed(),
        s.shown ==> s.revealed() == s,
{
}

/// Placing the surface sets position and size to what was asked, whatever
/// they were before, and hiding with a reset forgets both again.
pub proof fn lemma_place_then_reset(
    s: AdsStateView,
    position: LogicalPosition,
    size: LogicalSize,
    override_shown: bool,
)
    ensures
        s.placed(position, size, override_shown).position == Some(position),
        s.placed(position, size, override_shown).size == Some(size),
        override_shown ==> s.placed(position, size, override_shown).shown,
        !override_shown ==> s.placed(position, size, override_shown).shown == s.shown,
        s.placed(position, size, override_shown).hidden(true) == s.hidden(true),
{
}

/// The surface is planned to be visible exactly as the record will say
/// once the placement is acknowledged, at the position and size recorded.
pub proof fn lemma_plan_agrees_with_record(
    s: AdsStateView,
    position: LogicalPosition,
    size: LogicalSize,
    override_shown: bool,
)
    ensures
        s.placed(position, size, override_shown).shown == s.placement(
            position,
            size,
            override_shown,
        ).shown,
        s.placed(position, size, override_shown).position == Some(
            s.placement(position, size, override_shown).position,
        ),
        s.placed(position, size, override_shown).size == Some(
            s.placement(position, size, override_shown).size,
        ),
{
}

/// A width or height below zero is never a valid size.
pub proof fn lemma_negative_extent_invalid(size: LogicalSize)
    requires
        size.width.is_negative() || size.height.is_negative(),
    ensures
        !size.is_valid(),
{
}

/// Every transition keeps size and position paired, provided a placement
/// is made with a valid size.
pub proof fn lemma_geometry_stays_paired(
    s: AdsStateView,
    position: LogicalPosition,
    size: LogicalSize,
    flag: bool,
    now: u64,
    origin: Seq<char>,
)
    requires
        s.geometry_paired(),
    ensures
        AdsStateView::initial().geometry_paired(),
        size.is_valid() ==> s.placed(position, size, flag).geometry_paired(),
        s.revealed().geometry_paired(),
        s.hidden(flag).geometry_paired(),
        s.clicked(now).geometry_paired(),
        s.blocking(origin).geometry_paired(),
{
}

/// Only a placement or a hide with reset changes the geometry.
pub proof fn lemma_geometry_untouched(s: AdsStateView, now: u64, origin: Seq<char>)
    ensures
        s.revealed().size == s.size && s.revealed().position == s.position,
        s.hidden(false).size == s.size && s.hidden(false).position == s.position,
        s.clicked(now).size == s.size && s.clicked(now).position == s.position,
        s.blocking(origin).size == s.size && s.blocking(origin).position == s.position,
{
}

/// A request is blocked exactly when its origin is on the block-list at
/// the time of the request; an allowed request gets its destination back as
/// it was given. A fresh session blocks nothing.
pub proof fn lemma_list_decides_link(s: AdsStateView, path: String, origin: Seq<char>)
    ensures
        s.link_decision(path, origin) == LinkDecision::Blocked <==> s.blocks(origin),
        !s.blocks(origin) ==> s.link_decision(path, origin) == LinkDecision::Allowed(path),
        !AdsStateView::initial().blocks(origin),
{
}

/// Adding an origin blocks that origin from then on and changes the
/// decision for no other origin. The decision taken before the origin was
/// added is a value of the earlier record and stays what it was.
pub proof fn lemma_block_takes_effect_afterwards(
    s: AdsStateView,
    path: String,
    origin: Seq<char>,
    added: Seq<char>,
)
    ensures
        s.blocking(added).link_decision(path, added) == LinkDecision::Blocked,
        origin != added ==> s.blocking(added).link_decision(path, origin) == s.link_decision(
            path,
            origin,
        ),
        !s.blocks(added) ==> s.link_decision(path, added) == LinkDecision::Allowed(path),
{
}

/// The block-list only grows: no transition takes an origin off it, and
/// only `blocking` puts one on.
pub proof fn lemma_block_list_only_grows(
    s: AdsStateView,
    position: LogicalPosition,
    size: LogicalSize,
    flag: bool,
    now: u64,
    added: Seq<char>,
)
    ensures
        s.placed(position, size, flag).malicious_origins == s.malicious_origins,
        s.revealed().malicious_origins == s.malicious_origins,
        s.hidden(flag).malicious_origins == s.malicious_origins,
        s.clicked(now).malicious_origins == s.malicious_origins,
        s.malicious_origins.subset_of(s.blocking(added).malicious_origins),
        s.blocks(added) ==> s.blocking(added) == s,
{
    if s.blocks(added) {
        assert(s.malicious_origins.insert(added) =~= s.malicious_origins);
    }
}

/// Of two clicks less than the debounce time apart, the second is ignored
/// when the first was accepted, and leaves the last click at the first.
pub proof fn lemma_click_within_window_ignored(s: AdsStateView, first: u64, second: u64)
    requires
        s.accepts_click(first),
        second - first < CLICK_DEBOUNCE_MS,
    ensures
        !s.clicked(first).accepts_click(second),
        s.clicked(first).clicked(second) == s.clicked(first),
        s.clicked(first).clicked(second).last_click == Some(first),
{
}

/// Of two clicks less than the debounce time apart, at most one is
/// accepted, whatever the record held before.
pub proof fn lemma_click_window_admits_one(s: AdsStateView, first: u64, second: u64)
    requires
        first <= second,
        second - first < CLICK_DEBOUNCE_MS,
    ensures
        !(s.accepts_click(first) && s.clicked(first).accepts_click(second)),
{
}

/// Of two clicks at least the debounce time apart, the second is accepted
/// when the first was, and the last click moves forward to the second.
pub proof fn lemma_click_after_window_accepted(s: AdsStateView, first: u64, second: u64)
    requires
        s.accepts_click(first),
        second - first >= CLICK_DEBOUNCE_MS,
    ensures
        s.clicked(first).accepts_click(second),
        s.clicked(first).last_click == Some(first),
        s.clicked(first).clicked(second).last_click == Some(second),
        first < second,
{
}

/// The first click of a session is always accepted.
pub proof fn lemma_first_click_accepted(now: u64)
    ensures
        AdsStateView::initial().accepts_click(now),
        AdsStateView::initial().clicked(now).last_click == Some(now),
{
}

/// The time of the last accepted click never moves backwards, and once
/// set it is never cleared.
pub proof fn lemma_last_click_monotone(
    s: AdsStateView,
    position: LogicalPosition,
    size: LogicalSize,
    flag: bool,
    now: u64,
    origin: Seq<char>,
)
    ensures
        s.last_click matches Some(before) ==> (s.clicked(now).last_click matches Some(after)
            && before <= after),
        s.placed(position, size, flag).last_click == s.last_click,
        s.revealed().last_click == s.last_click,
        s.hidden(flag).last_click == s.last_click,
        s.blocking(origin).last_click == s.last_click,
{
}

} // verus!
