use vstd::prelude::*;
use vstd::std_specs::cmp::PartialOrdSpecImpl;
use std::cmp::Ordering;
use crate::utils::resource::Resources;

verus! {

/// The ordering of two counts.
pub open spec fn order_of(a: i8, b: i8) -> Ordering {
    if a < b {
        Ordering::Less
    } else if a == b {
        Ordering::Equal
    } else {
        Ordering::Greater
    }
}

fn order_i8(a: i8, b: i8) -> (r: Ordering)
    ensures
        r == order_of(a, b),
{
    if a < b {
        Ordering::Less
    } else if a == b {
        Ordering::Equal
    } else {
        Ordering::Greater
    }
}

/// One step of folding the orderings of the counts: a count that moves the
/// other way from what was seen so far makes the bundles incomparable.
pub open spec fn fold_step(current: Ordering, next: Ordering) -> Option<Ordering> {
    match next {
        Ordering::Equal => Some(current),
        Ordering::Greater => if current == Ordering::Less { None } else { Some(Ordering::Greater) },
        Ordering::Less => if current == Ordering::Greater { None } else { Some(Ordering::Less) },
    }
}

fn step(current: Ordering, next: Ordering) -> (r: Option<Ordering>)
    ensures
        r == fold_step(current, next),
{
    match next {
        Ordering::Equal => Some(current),
        Ordering::Greater => match current {
            Ordering::Less => None,
            _ => Some(Ordering::Greater),
        },
        Ordering::Less => match current {
            Ordering::Greater => None,
            _ => Some(Ordering::Less),
        },
    }
}

impl Resources {
    /// Every count of `self` is at most the matching count of `other`.
    pub open spec fn le_all(self, other: Resources) -> bool {
        &&& self.brick <= other.brick
        &&& self.lumber <= other.lumber
        &&& self.ore <= other.ore
        &&& self.grain <= other.grain
        &&& self.wool <= other.wool
    }

    /// The componentwise order: equal, all at most, all at least, or none of these.
    pub open spec fn order(self, other: Resources) -> Option<Ordering> {
        if self == other {
            Some(Ordering::Equal)
        } else if self.le_all(other) {
            Some(Ordering::Less)
        } else if other.le_all(self) {
            Some(Ordering::Greater)
        } else {
            None
        }
    }

    /// The ordering of each count against the matching count of `other`.
    fn cmp(&self, other: &Resources) -> (r: [Ordering; 5])
        ensures
            r@[0] == order_of(self.brick, other.brick),
            r@[1] == order_of(self.lumber, other.lumber),
            r@[2] == order_of(self.ore, other.ore),
            r@[3] == order_of(self.grain, other.grain),
            r@[4] == order_of(self.wool, other.wool),
    {
        [
            order_i8(self.brick, other.brick),
            order_i8(self.lumber, other.lumber),
            order_i8(self.ore, other.ore),
            order_i8(self.grain, other.grain),
            order_i8(self.wool, other.wool),
        ]
    }
}

impl PartialOrd for Resources {
    fn partial_cmp(&self, other: &Resources) -> (r: Option<Ordering>) {
        let orderings = self.cmp(other);
        let current = Ordering::Equal;
        let current = step(current, orderings[0])?;
        let current = step(current, orderings[1])?;
        let current = step(current, orderings[2])?;
        let current = step(current, orderings[3])?;
        let current = step(current, orderings[4])?;
        Some(current)
    }
}

impl PartialOrdSpecImpl for Resources {
    open spec fn obeys_partial_cmp_spec() -> bool {
        true
    }

    open spec fn partial_cmp_spec(&self, other: &Resources) -> Option<Ordering> {
        self.order(*other)
    }
}

/// The order of bundles read from either side: equal both ways, at most one
/// way exactly when at least the other way, incomparable both ways.
pub proof fn lemma_resources_order_antisymmetric(a: Resources, b: Resources)
    ensures
        a.order(b) == Some(Ordering::Equal) <==> a == b,
        a.order(b) == Some(Ordering::Less) <==> b.order(a) == Some(Ordering::Greater),
        a.order(b) is None <==> b.order(a) is None,
        a.order(b) == Some(Ordering::Less) ==> a.le_all(b) && a != b,
{
}

/// Being at most another bundle, count by count, passes on.
pub proof fn lemma_resources_order_transitive(a: Resources, b: Resources, c: Resources)
    requires
        a.le_all(b),
        b.le_all(c),
    ensures
        a.le_all(c),
        a.order(c) == Some(Ordering::Less) || a.order(c) == Some(Ordering::Equal),
{
}

} // verus!
