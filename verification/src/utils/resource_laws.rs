use vstd::prelude::*;
use crate::utils::resource::Resources;

verus! {

/// Taking away what was just added gives back the bundle.
pub proof fn lemma_sub_undoes_add(a: Resources, b: Resources)
    requires
        a.add_fits(b),
    ensures
        a.plus(b).sub_fits(b),
        a.plus(b).minus(b) == a,
{
}

/// Adding bundles does not depend on their order.
pub proof fn lemma_add_commutes(a: Resources, b: Resources)
    requires
        a.add_fits(b),
    ensures
        b.add_fits(a),
        a.plus(b) == b.plus(a),
{
}

/// Negating twice gives back the bundle.
pub proof fn lemma_negation_involutive(a: Resources)
    requires
        a.neg_fits(),
    ensures
        a.negated().neg_fits(),
        a.negated().negated() == a,
{
}

/// Taking a bundle away is adding its negation.
pub proof fn lemma_sub_is_add_of_negation(a: Resources, b: Resources)
    requires
        b.neg_fits(),
        a.sub_fits(b),
    ensures
        a.add_fits(b.negated()),
        a.minus(b) == a.plus(b.negated()),
{
}

/// The size of a sum of bundles is the sum of their sizes.
pub proof fn lemma_sum_of_plus(a: Resources, b: Resources)
    requires
        a.add_fits(b),
    ensures
        a.plus(b).sum() == a.sum() + b.sum(),
{
}

} // verus!
