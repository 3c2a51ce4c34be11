use vstd::prelude::*;
use rand::Rng;
use crate::utils::resource::{fits_i8, Resources};

verus! {

/// The size of a bundle can be added up in a byte, count after count.
pub open spec fn total_fits(r: Resources) -> bool {
    &&& fits_i8(r.brick + r.lumber)
    &&& fits_i8(r.brick + r.lumber + r.ore)
    &&& fits_i8(r.brick + r.lumber + r.ore + r.grain)
    &&& fits_i8(r.sum())
}

/// No count of the bundle is below zero.
pub open spec fn nonnegative(r: Resources) -> bool {
    r.brick >= 0 && r.lumber >= 0 && r.ore >= 0 && r.grain >= 0 && r.wool >= 0
}

/// Every count of `a` is at most that of `b`.
pub open spec fn within(a: Resources, b: Resources) -> bool {
    a.brick <= b.brick && a.lumber <= b.lumber && a.ore <= b.ore && a.grain <= b.grain && a.wool <= b.wool
}

/// Half of `v`, rounded toward zero, as integer division of bytes does.
pub open spec fn half_toward_zero(v: int) -> int {
    if v >= 0 {
        v / 2
    } else {
        -((-v) / 2)
    }
}

/// A number drawn at random from 0 up to `n`, `n` excluded.
///
/// The thread's generator of `rand` draws it (`rand::rng` and
/// `Rng::random_range` on `0..n`), so only its range is known.
#[verifier::external_body]
fn random_below(n: i8) -> (r: i8)
    requires
        n > 0,
    ensures
        0 <= r < n,
{
    rand::rng().random_range(0..n)
}

/// The number of cards of the first `k` resources of `Resource::ALL`.
pub open spec fn cards_before(d: Resources, k: int) -> int {
    if k <= 0 {
        0
    } else if k == 1 {
        d.brick as int
    } else if k == 2 {
        d.brick + d.lumber
    } else if k == 3 {
        d.brick + d.lumber + d.ore
    } else if k == 4 {
        d.brick + d.lumber + d.ore + d.grain
    } else {
        d.sum()
    }
}

/// The bundle less the card at place `picked` (from 0), the cards laid out
/// brick first, then lumber, ore, grain and wool: the first resource whose
/// cards reach past that place loses one. Past the last card, nothing is taken.
pub open spec fn taken_card(d: Resources, picked: int) -> Resources {
    if picked < cards_before(d, 1) {
        Resources { brick: (d.brick - 1) as i8, ..d }
    } else if picked < cards_before(d, 2) {
        Resources { lumber: (d.lumber - 1) as i8, ..d }
    } else if picked < cards_before(d, 3) {
        Resources { ore: (d.ore - 1) as i8, ..d }
    } else if picked < cards_before(d, 4) {
        Resources { grain: (d.grain - 1) as i8, ..d }
    } else if picked < cards_before(d, 5) {
        Resources { wool: (d.wool - 1) as i8, ..d }
    } else {
        d
    }
}

/// The bundle left after taking, one after the other, the cards at the
/// places drawn.
pub open spec fn after_draws(d: Resources, draws: Seq<int>) -> Resources
    decreases draws.len(),
{
    if draws.len() == 0 {
        d
    } else {
        taken_card(after_draws(d, draws.drop_last()), draws.last())
    }
}

/// A run of draws that puts cards back from `total` down to `should`: one
/// draw per card above `should`, the `k`-th draw below the number of cards
/// still counted then, `total - k`.
pub open spec fn valid_draws(total: int, should: int, draws: Seq<int>) -> bool {
    &&& draws.len() == (if total > should {
        total - should
    } else {
        0
    })
    &&& forall|k: int| 0 <= k < draws.len() ==> 0 <= #[trigger] draws[k] < total - k
}

/// Takes one card away: the card at place `picked` when the cards are laid
/// out brick first, then lumber, ore, grain and wool. Nothing is taken when
/// `picked` is past the last card.
pub fn take_card_at(d: Resources, picked: i32) -> (r: Resources)
    requires
        0 <= picked <= i8::MAX,
    ensures
        r == taken_card(d, picked as int),
        within(r, d),
        nonnegative(d) && picked < d.sum() ==> nonnegative(r) && r.sum() == d.sum() - 1,
{
    let mut r = d;
    let mut p: i32 = picked;
    if p < d.brick as i32 {
        r.brick = d.brick - 1;
    } else {
        p = p - d.brick as i32;
        if p < d.lumber as i32 {
            r.lumber = d.lumber - 1;
        } else {
            p = p - d.lumber as i32;
            if p < d.ore as i32 {
                r.ore = d.ore - 1;
            } else {
                p = p - d.ore as i32;
                if p < d.grain as i32 {
                    r.grain = d.grain - 1;
                } else {
                    p = p - d.grain as i32;
                    if p < d.wool as i32 {
                        r.wool = d.wool - 1;
                    }
                }
            }
        }
    }
    r
}

/// What is left to discard of `discarded` once cards are put back until at
/// most `should_discard` remain: for each card above that number, a place is
/// drawn at random among the cards still counted and the card there is put
/// back. The result is what such a run of draws leaves; nothing changes when
/// no card is above the number; every count only goes down, and when no
/// count is negative none becomes negative and exactly `should_discard`
/// cards remain.
pub fn discard_at_random(discarded: Resources, should_discard: i8) -> (r: Resources)
    requires
        total_fits(discarded),
        should_discard >= 0 || discarded.sum() <= should_discard,
    ensures
        exists|draws: Seq<int>| valid_draws(discarded.sum(), should_discard as int, draws) && r == after_draws(
            discarded,
            draws,
        ),
        discarded.sum() <= should_discard ==> r == discarded,
        within(r, discarded),
        nonnegative(discarded) ==> nonnegative(r) && r.sum() == (if discarded.sum() > should_discard {
            should_discard as int
        } else {
            discarded.sum()
        }),
{
    let mut d = discarded;
    let mut total_discards: i8 = discarded.total();
    let ghost total = discarded.sum();
    let ghost mut draws: Seq<int> = Seq::empty();
    while total_discards > should_discard
        invariant
            total == discarded.sum(),
            total_discards == total - draws.len(),
            forall|k: int| 0 <= k < draws.len() ==> 0 <= #[trigger] draws[k] < total - k,
            total > should_discard ==> draws.len() <= total - should_discard,
            total <= should_discard ==> draws.len() == 0,
            d == after_draws(discarded, draws),
            within(d, discarded),
            should_discard >= 0 || total_discards <= should_discard,
            total_discards <= discarded.sum(),
            total_discards > should_discard ==> total_discards > 0,
            nonnegative(discarded) ==> nonnegative(d) && d.sum() == total_discards,
            nonnegative(discarded) && discarded.sum() > should_discard ==> total_discards >= should_discard,
            nonnegative(discarded) && discarded.sum() <= should_discard ==> total_discards == discarded.sum(),
        decreases total_discards - should_discard,
    {
        let picked = random_below(total_discards);
        let ghost before = draws;
        d = take_card_at(d, picked as i32);
        proof {
            draws = draws.push(picked as int);
            assert(draws.drop_last() =~= before);
        }
        total_discards = total_discards - 1;
    }
    proof {
        assert(valid_draws(total, should_discard as int, draws));
    }
    d
}

} // verus!
