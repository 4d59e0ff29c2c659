use core::cmp::Ordering;
use vstd::prelude::*;

verus! {

/// Which of the two comparison phases of a type carry ordering information.
#[derive(Clone, Copy, PartialEq, Eq, Structural, Debug)]
pub enum Locality {
    /// Only data stored in the record itself takes part in comparisons.
    PureLocal,
    /// Only data reached through an indirection takes part in comparisons.
    PureNonLocal,
    /// Local data is compared first; non-local data breaks ties.
    Both,
}

impl Locality {
    pub open spec fn spec_has_local(&self) -> bool {
        *self != Locality::PureNonLocal
    }

    pub open spec fn spec_has_non_local(&self) -> bool {
        *self != Locality::PureLocal
    }

    /// Whether the local phase carries information.
    #[verifier::when_used_as_spec(spec_has_local)]
    pub fn has_local(&self) -> (r: bool)
        ensures
            r == self.spec_has_local(),
    {
        match self {
            Locality::PureNonLocal => false,
            _ => true,
        }
    }

    /// Whether the non-local phase carries information.
    #[verifier::when_used_as_spec(spec_has_non_local)]
    pub fn has_non_local(&self) -> (r: bool)
        ensures
            r == self.spec_has_non_local(),
    {
        match self {
            Locality::PureLocal => false,
            _ => true,
        }
    }

    /// Marks a call of a local-phase method. Such a call is only made for a locality with a
    /// local phase, which the precondition demands.
    pub fn debug_reachable_for_local(&self)
        requires
            self.has_local(),
    {
    }

    /// Marks a call of a non-local-phase method. Such a call is only made for a locality with a
    /// non-local phase, which the precondition demands.
    pub fn debug_reachable_for_non_local(&self)
        requires
            self.has_non_local(),
    {
    }
}

/// The full order of a type, combined from the results of its two phases: the local result
/// decides unless it is `Equal`, and the non-local result breaks the tie. A phase that the
/// locality leaves out is never consulted.
pub open spec fn combine_cmp(loc: Locality, local: Ordering, non_local: Ordering) -> Ordering {
    if loc.has_local() {
        if local != Ordering::Equal {
            local
        } else if loc.has_non_local() {
            non_local
        } else {
            Ordering::Equal
        }
    } else {
        non_local
    }
}

/// Full equality, combined from the two phases with the same short-circuit rule as
/// [`combine_cmp`].
pub open spec fn combine_eq(loc: Locality, local: bool, non_local: bool) -> bool {
    if loc.has_local() {
        local && (!loc.has_non_local() || non_local)
    } else {
        non_local
    }
}

/// Full partial comparison: `None` from an applicable phase that is consulted makes the
/// whole comparison `None`.
pub open spec fn combine_partial_cmp(
    loc: Locality,
    local: Option<Ordering>,
    non_local: Option<Ordering>,
) -> Option<Ordering> {
    if loc.has_local() {
        if local != Some(Ordering::Equal) {
            local
        } else if loc.has_non_local() {
            non_local
        } else {
            Some(Ordering::Equal)
        }
    } else {
        non_local
    }
}

/// The comparison with the two sides swapped.
pub open spec fn reversed(o: Ordering) -> Ordering {
    match o {
        Ordering::Less => Ordering::Greater,
        Ordering::Equal => Ordering::Equal,
        Ordering::Greater => Ordering::Less,
    }
}

} // verus!
