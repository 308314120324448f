use vstd::prelude::*;
use crate::addr::Ipv6Address;
use crate::classifier::is_global_external;
use crate::classifier::spec_is_global_external;

verus! {

/// The debounce state carried across notification events: the hook directory,
/// the verbosity flag, and the last accepted global-external address, if any.
pub struct Run {
    pub dir_path: String,
    pub verbose: bool,
    pub current_addr: Option<Ipv6Address>,
}

/// A candidate is accepted when it is global-external and differs from the
/// last accepted address (or none was accepted yet).
pub open spec fn accepts(current: Option<Ipv6Address>, candidate: Ipv6Address) -> bool {
    spec_is_global_external(candidate) && (match current {
        Some(prev) => prev != candidate,
        None => true,
    })
}

/// The tracker state after one candidate is offered: the candidate when it is
/// accepted, the old state otherwise.
pub open spec fn step_state(current: Option<Ipv6Address>, candidate: Ipv6Address) -> Option<
    Ipv6Address,
> {
    if accepts(current, candidate) {
        Some(candidate)
    } else {
        current
    }
}

impl Run {
    /// A fresh tracker: no address accepted yet.
    pub fn new(dir_path: String, verbose: bool) -> (r: Self)
        ensures
            r.dir_path == dir_path,
            r.verbose == verbose,
            r.current_addr is None,
    {
        Self { dir_path, verbose, current_addr: None }
    }

    /// The candidate differs from the last accepted address, or none was
    /// accepted yet.
    pub fn needs_update(&self, addr: Ipv6Address) -> (r: bool)
        ensures
            r == (match self.current_addr {
                Some(current) => current != addr,
                None => true,
            }),
    {
        match self.current_addr {
            Some(current) => current != addr,
            None => true,
        }
    }

    /// Offers one candidate address. Returns whether a dispatch round is owed:
    /// exactly when the candidate is global-external and genuinely new. The
    /// state moves to the candidate in that case and stays put otherwise.
    pub fn update(&mut self, ipv6: Ipv6Address) -> (dispatch: bool)
        ensures
            dispatch == accepts(old(self).current_addr, ipv6),
            final(self).current_addr == step_state(old(self).current_addr, ipv6),
            final(self).dir_path == old(self).dir_path,
            final(self).verbose == old(self).verbose,
    {
        if self.needs_update(ipv6) && is_global_external(ipv6) {
            self.current_addr = Some(ipv6);
            true
        } else {
            false
        }
    }
}

/// Once set, the tracker never returns to unset; and whenever a step changes
/// the state, the new state holds the offered candidate, which is
/// global-external.
pub proof fn lemma_tracker_invariant(current: Option<Ipv6Address>, candidate: Ipv6Address)
    ensures
        current is Some ==> step_state(current, candidate) is Some,
        step_state(current, candidate) != current ==> step_state(current, candidate) == Some(
            candidate,
        ) && spec_is_global_external(candidate),
{
}

/// Feeding the same global-external address twice in a row dispatches exactly
/// once: the first offer is accepted, the second is discarded and leaves the
/// state unchanged.
pub proof fn lemma_same_address_dispatches_once(
    current: Option<Ipv6Address>,
    candidate: Ipv6Address,
)
    requires
        spec_is_global_external(candidate),
        current != Some(candidate),
    ensures
        accepts(current, candidate),
        step_state(current, candidate) == Some(candidate),
        !accepts(Some(candidate), candidate),
        step_state(Some(candidate), candidate) == Some(candidate),
{
}

/// A candidate that is not global-external is never accepted and never moves
/// the state, whatever the state is.
pub proof fn lemma_non_global_external_ignored(
    current: Option<Ipv6Address>,
    candidate: Ipv6Address,
)
    requires
        !spec_is_global_external(candidate),
    ensures
        !accepts(current, candidate),
        step_state(current, candidate) == current,
{
}

} // verus!
