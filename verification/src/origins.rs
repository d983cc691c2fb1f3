//! Origin security: which origins may open links.
//!
//! Content shown on the surface is untrusted and may ask for a link to be
//! opened. A request is honoured unless its origin is on the block-list.
//! The list only grows: an origin that was added stays for the session.

use vstd::prelude::*;

use crate::state::{origin_set, origins_distinct, AdsState, AdsStateView};

verus! {

/// The verdict on a request to open a link.
#[derive(Clone, Debug, PartialEq, Eq)]
pub enum LinkDecision {
    /// The host may hand this destination to the external opener.
    Allowed(String),
    /// The origin is on the block-list; nothing is to be opened.
    Blocked,
}

impl AdsStateView {
    /// Whether the origin is on the block-list.
    pub open spec fn blocks(self, origin: Seq<char>) -> bool {
        self.malicious_origins.contains(origin)
    }

    /// The record after the origin was put on the block-list.
    pub open spec fn blocking(self, origin: Seq<char>) -> AdsStateView {
        AdsStateView { malicious_origins: self.malicious_origins.insert(origin), ..self }
    }

    /// The verdict on a request from `origin` to open `path`.
    pub open spec fn link_decision(self, path: String, origin: Seq<char>) -> LinkDecision {
        if self.blocks(origin) {
            LinkDecision::Blocked
        } else {
            LinkDecision::Allowed(path)
        }
    }
}

/// Whether the origin is on the block-list.
pub fn is_malicious_origin(state: &AdsState, origin: &String) -> (listed: bool)
    ensures
        listed == state@.blocks(origin@),
{
    let mut i: usize = 0;
    while i < state.malicious_origins.len()
        invariant
            i <= state.malicious_origins.len(),
            forall|k: int| 0 <= k < i ==> state.malicious_origins@[k]@ != origin@,
        decreases state.malicious_origins.len() - i,
    {
        if state.malicious_origins[i] == *origin {
            return true;
        }
        i += 1;
    }
    false
}

/// Decides whether content from `origin` may open `path`. The request is
/// blocked exactly when the origin is on the block-list at this moment;
/// otherwise the destination is handed back for the host to open.
pub fn open_link(state: &AdsState, path: String, origin: String) -> (decision: LinkDecision)
    ensures
        decision == state@.link_decision(path, origin@),
        decision == LinkDecision::Blocked <==> state@.blocks(origin@),
{
    if is_malicious_origin(state, &origin) {
        LinkDecision::Blocked
    } else {
        LinkDecision::Allowed(path)
    }
}

/// Puts an origin on the block-list and says whether it was new. Nothing
/// else in the record changes, and no origin ever leaves the list.
pub fn add_malicious_origin(state: &mut AdsState, origin: String) -> (added: bool)
    ensures
        added == !old(state)@.blocks(origin@),
        final(state)@ == old(state)@.blocking(origin@),
        !added ==> *final(state) == *old(state),
        added ==> final(state).malicious_origins@ == old(state).malicious_origins@.push(origin),
        old(state).wf() ==> final(state).wf(),
{
    if is_malicious_origin(state, &origin) {
        assert(state@.malicious_origins.insert(origin@) =~= state@.malicious_origins);
        return false;
    }
    let ghost before = state.malicious_origins@;
    state.malicious_origins.push(origin);
    proof {
        let after = state.malicious_origins@;
        assert(after == before.push(origin));
        assert forall|o: Seq<char>| #[trigger]
            origin_set(after).contains(o) <==> origin_set(before).insert(origin@).contains(
                o,
            ) by {
            if origin_set(after).contains(o) {
                let i = choose|i: int| 0 <= i < after.len() && after[i]@ == o;
                if i < before.len() {
                    assert(before[i]@ == o);
                }
            }
            if origin_set(before).contains(o) {
                let i = choose|i: int| 0 <= i < before.len() && before[i]@ == o;
                assert(after[i]@ == o);
            }
            if o == origin@ {
                assert(after[before.len() as int]@ == o);
            }
        }
        assert(origin_set(after) =~= origin_set(before).insert(origin@));
        if origins_distinct(before) {
            assert forall|i: int, j: int|
                0 <= i < after.len() && 0 <= j < after.len() && i != j implies after[i]@
                != after[j]@ by {
                if i < before.len() && j < before.len() {
                    assert(before[i]@ != before[j]@);
                } else if i < before.len() {
                    assert(origin_set(before).contains(before[i]@));
                } else {
                    assert(origin_set(before).contains(before[j]@));
                }
            }
        }
    }
    true
}

} // verus!
