use vstd::prelude::*;
use crate::state::PlayerId;
use crate::utils::resource::{Resource, Resources};

verus! {

/// Why the resources of a game do not add up.
#[derive(Copy, Clone, PartialEq, Eq, Structural, Debug)]
pub enum Incoherence {
    /// A player holds less than none, or more than all, of a resource.
    PlayerHolding { player: PlayerId, amount: i8, resource: Resource },
    /// The bank holds less than none, or more than all, of a resource, or the
    /// bank and the players together do not hold exactly all of it.
    BankHolding { resource: Resource, bank: i8, players: i32 },
}

/// There are 19 cards of each resource; a holding is between none and all of them.
pub open spec fn in_range(v: int) -> bool {
    0 <= v <= 19
}

/// The first resource, in the order of `Resource::ALL` from position `k` on,
/// of which the bundle holds an out-of-range count.
pub open spec fn first_bad_resource_from(r: Resources, k: int) -> Option<Resource>
    decreases 5 - k,
{
    if k >= 5 || k < 0 {
        None
    } else if !in_range(r.get(Resource::at_index(k)) as int) {
        Some(Resource::at_index(k))
    } else {
        first_bad_resource_from(r, k + 1)
    }
}

/// How many of a resource the players hold together.
pub open spec fn players_total(players: Seq<Resources>, res: Resource) -> int
    decreases players.len(),
{
    if players.len() == 0 {
        0
    } else {
        players_total(players.drop_last(), res) + players.last().get(res)
    }
}

/// The first player, from position `p` on, who holds an out-of-range count.
pub open spec fn first_bad_player_from(players: Seq<Resources>, p: int) -> Option<int>
    decreases players.len() - p,
{
    if p >= players.len() || p < 0 {
        None
    } else if first_bad_resource_from(players[p], 0) is Some {
        Some(p)
    } else {
        first_bad_player_from(players, p + 1)
    }
}

/// The bank's holding of a resource is out of range, or does not complete the players' to 19.
pub open spec fn bank_bad(players: Seq<Resources>, bank: Resources, res: Resource) -> bool {
    !in_range(bank.get(res) as int) || players_total(players, res) + bank.get(res) != 19
}

pub open spec fn first_bad_bank_from(players: Seq<Resources>, bank: Resources, k: int) -> Option<Resource>
    decreases 5 - k,
{
    if k >= 5 || k < 0 {
        None
    } else if bank_bad(players, bank, Resource::at_index(k)) {
        Some(Resource::at_index(k))
    } else {
        first_bad_bank_from(players, bank, k + 1)
    }
}

/// The verdict on the holdings of the players and of the bank: the first player
/// (and resource) out of range, else the first resource the bank gets wrong.
pub open spec fn coherence(players: Seq<Resources>, bank: Resources) -> Result<(), Incoherence> {
    match first_bad_player_from(players, 0) {
        Some(p) => {
            let res = first_bad_resource_from(players[p], 0)->Some_0;
            Err(Incoherence::PlayerHolding { player: PlayerId(p as u8), amount: players[p].get(res), resource: res })
        },
        None => match first_bad_bank_from(players, bank, 0) {
            Some(res) => Err(Incoherence::BankHolding {
                resource: res,
                bank: bank.get(res),
                players: players_total(players, res) as i32,
            }),
            None => Ok(()),
        },
    }
}

proof fn lemma_first_bad_player_skip(players: Seq<Resources>, p: int)
    requires
        0 <= p <= players.len(),
        forall|q: int| 0 <= q < p ==> first_bad_resource_from(#[trigger] players[q], 0) is None,
    ensures
        first_bad_player_from(players, 0) == first_bad_player_from(players, p),
    decreases p,
{
    if p > 0 {
        lemma_first_bad_player_skip(players, p - 1);
    }
}

proof fn lemma_first_bad_resource_skip(r: Resources, k: int)
    requires
        0 <= k <= 5,
        forall|j: int| 0 <= j < k ==> in_range(r.get(#[trigger] Resource::at_index(j)) as int),
    ensures
        first_bad_resource_from(r, 0) == first_bad_resource_from(r, k),
    decreases k,
{
    if k > 0 {
        lemma_first_bad_resource_skip(r, k - 1);
    }
}

proof fn lemma_no_bad_resource(r: Resources, k: int)
    requires
        0 <= k <= 5,
        first_bad_resource_from(r, k) is None,
    ensures
        forall|j: int| k <= j < 5 ==> in_range(r.get(#[trigger] Resource::at_index(j)) as int),
    decreases 5 - k,
{
    if k < 5 {
        lemma_no_bad_resource(r, k + 1);
    }
}

proof fn lemma_first_bad_bank_skip(players: Seq<Resources>, bank: Resources, k: int)
    requires
        0 <= k <= 5,
        forall|j: int| 0 <= j < k ==> !bank_bad(players, bank, #[trigger] Resource::at_index(j)),
    ensures
        first_bad_bank_from(players, bank, 0) == first_bad_bank_from(players, bank, k),
    decreases k,
{
    if k > 0 {
        lemma_first_bad_bank_skip(players, bank, k - 1);
    }
}

proof fn lemma_players_total_bounds(players: Seq<Resources>, res: Resource)
    requires
        forall|q: int| 0 <= q < players.len() ==> in_range((#[trigger] players[q]).get(res) as int),
    ensures
        0 <= players_total(players, res) <= 19 * players.len(),
    decreases players.len(),
{
    if players.len() > 0 {
        let prev = players.drop_last();
        assert forall|q: int| 0 <= q < prev.len() implies in_range((#[trigger] prev[q]).get(res) as int) by {
            assert(prev[q] == players[q]);
        }
        lemma_players_total_bounds(prev, res);
        assert(in_range(players[players.len() - 1].get(res) as int));
    }
}

/// Every player holds between none and all of each resource, and the bank
/// holds between none and all of each resource, the rest of the 19 that the
/// players do not hold.
pub open spec fn coherent(players: Seq<Resources>, bank: Resources) -> bool {
    &&& forall|p: int, res: Resource| 0 <= p < players.len() ==> in_range(#[trigger] players[p].get(res) as int)
    &&& forall|res: Resource| #[trigger] in_range(bank.get(res) as int) && bank.get(res) + players_total(players, res) == 19
}

proof fn lemma_resource_iff(r: Resources, k: int)
    requires
        0 <= k <= 5,
    ensures
        first_bad_resource_from(r, k) is None <==> forall|j: int| k <= j < 5 ==> in_range(
            r.get(#[trigger] Resource::at_index(j)) as int,
        ),
    decreases 5 - k,
{
    if k < 5 {
        lemma_resource_iff(r, k + 1);
    }
}

proof fn lemma_player_iff(players: Seq<Resources>, p: int)
    requires
        0 <= p <= players.len(),
    ensures
        first_bad_player_from(players, p) is None <==> forall|q: int| p <= q < players.len()
            ==> first_bad_resource_from(#[trigger] players[q], 0) is None,
    decreases players.len() - p,
{
    if p < players.len() {
        lemma_player_iff(players, p + 1);
    }
}

proof fn lemma_bank_iff(players: Seq<Resources>, bank: Resources, k: int)
    requires
        0 <= k <= 5,
    ensures
        first_bad_bank_from(players, bank, k) is None <==> forall|j: int| k <= j < 5 ==> !bank_bad(
            players,
            bank,
            #[trigger] Resource::at_index(j),
        ),
    decreases 5 - k,
{
    if k < 5 {
        lemma_bank_iff(players, bank, k + 1);
    }
}

/// The check finds nothing wrong exactly when the holdings are coherent.
pub proof fn lemma_coherence_ok(players: Seq<Resources>, bank: Resources)
    ensures
        coherence(players, bank) is Ok <==> coherent(players, bank),
{
    lemma_player_iff(players, 0);
    lemma_bank_iff(players, bank, 0);
    if coherent(players, bank) {
        assert forall|q: int| 0 <= q < players.len() implies first_bad_resource_from(#[trigger] players[q], 0) is None by {
            lemma_resource_iff(players[q], 0);
            assert forall|j: int| 0 <= j < 5 implies in_range(players[q].get(#[trigger] Resource::at_index(j)) as int) by {
                assert(in_range(players[q].get(Resource::at_index(j)) as int));
            }
        }
        assert forall|j: int| 0 <= j < 5 implies !bank_bad(players, bank, #[trigger] Resource::at_index(j)) by {
            assert(in_range(bank.get(Resource::at_index(j)) as int));
        }
        assert(first_bad_player_from(players, 0) is None);
        assert(first_bad_bank_from(players, bank, 0) is None);
        assert(coherence(players, bank) is Ok);
    }
    if coherence(players, bank) is Ok {
        assert forall|p: int, res: Resource| 0 <= p < players.len() implies in_range(#[trigger] players[p].get(res) as int) by {
            lemma_resource_iff(players[p], 0);
            res.lemma_index_round_trip();
            assert(in_range(players[p].get(Resource::at_index(res.index_of())) as int));
        }
        assert forall|res: Resource| #[trigger] in_range(bank.get(res) as int) && bank.get(res) + players_total(players, res) == 19 by {
            res.lemma_index_round_trip();
            assert(!bank_bad(players, bank, Resource::at_index(res.index_of())));
        }
        assert(coherent(players, bank));
    }
}

/// The first resource of the bundle, from position `k` on, held out of range.
fn bad_resource(r: &Resources) -> (out: Option<Resource>)
    ensures
        out == first_bad_resource_from(*r, 0),
{
    let mut k: usize = 0;
    while k < 5
        invariant
            k <= 5,
            forall|j: int| 0 <= j < k ==> in_range(r.get(#[trigger] Resource::at_index(j)) as int),
        decreases 5 - k,
    {
        let v = r.get_at(k);
        if v > 19 || v < 0 {
            proof {
                lemma_first_bad_resource_skip(*r, k as int);
            }
            return Some(Resource::from_index(k));
        }
        k = k + 1;
    }
    proof {
        lemma_first_bad_resource_skip(*r, 5);
    }
    None
}

/// Checks that every player holds between 0 and 19 of each resource, and that
/// the bank holds between 0 and 19 of each resource, the rest of the 19.
pub fn check_coherence(players: &Vec<Resources>, bank: &Resources) -> (r: Result<(), Incoherence>)
    requires
        players.len() <= 255,
    ensures
        r == coherence(players@, *bank),
        r is Ok <==> coherent(players@, *bank),
{
    proof {
        lemma_coherence_ok(players@, *bank);
    }
    let mut totals: Vec<i32> = Vec::new();
    let mut k: usize = 0;
    while k < 5
        invariant
            k <= 5,
            totals@.len() == k,
            forall|j: int| 0 <= j < k ==> totals@[j] == 0,
        decreases 5 - k,
    {
        totals.push(0);
        k = k + 1;
    }
    let mut p: usize = 0;
    while p < players.len()
        invariant
            p <= players.len() <= 255,
            totals@.len() == 5,
            forall|q: int| 0 <= q < p ==> first_bad_resource_from(#[trigger] players@[q], 0) is None,
            forall|j: int| 0 <= j < 5 ==> #[trigger] totals@[j] == players_total(players@.take(p as int), Resource::at_index(j)),
            forall|j: int| 0 <= j < 5 ==> 0 <= #[trigger] totals@[j] <= 19 * p,
        decreases players.len() - p,
    {
        let hand = players[p];
        match bad_resource(&hand) {
            Some(res) => {
                proof {
                    lemma_first_bad_player_skip(players@, p as int);
                }
                proof {
                    lemma_coherence_ok(players@, *bank);
                }
                return Err(Incoherence::PlayerHolding { player: PlayerId::from(p as u8), amount: hand[res], resource: res });
            },
            None => {},
        }
        proof {
            lemma_no_bad_resource(hand, 0);
            assert(players@.take(p + 1).drop_last() =~= players@.take(p as int));
        }
        let mut j: usize = 0;
        while j < 5
            invariant
                j <= 5,
                p < players.len() <= 255,
                hand == players@[p as int],
                players@.take(p + 1).drop_last() == players@.take(p as int),
                players@.take(p + 1).last() == hand,
                totals@.len() == 5,
                forall|i: int| 0 <= i < 5 ==> in_range(hand.get(#[trigger] Resource::at_index(i)) as int),
                forall|i: int| 0 <= i < j ==> #[trigger] totals@[i] == players_total(players@.take(p + 1), Resource::at_index(i)),
                forall|i: int| j <= i < 5 ==> #[trigger] totals@[i] == players_total(players@.take(p as int), Resource::at_index(i)),
                forall|i: int| 0 <= i < j ==> 0 <= #[trigger] totals@[i] <= 19 * (p + 1),
                forall|i: int| j <= i < 5 ==> 0 <= #[trigger] totals@[i] <= 19 * p,
            decreases 5 - j,
        {
            let ghost res = Resource::at_index(j as int);
            assert(in_range(hand.get(res) as int));
            let v = totals[j] + hand.get_at(j) as i32;
            totals.set(j, v);
            j = j + 1;
        }
        p = p + 1;
    }
    proof {
        lemma_first_bad_player_skip(players@, players@.len() as int);
        assert(players@.take(p as int) =~= players@);
    }
    let mut j: usize = 0;
    while j < 5
        invariant
            j <= 5,
            p == players.len(),
            totals@.len() == 5,
            first_bad_player_from(players@, 0) is None,
            forall|i: int| 0 <= i < 5 ==> #[trigger] totals@[i] == players_total(players@, Resource::at_index(i)),
            forall|i: int| 0 <= i < 5 ==> 0 <= #[trigger] totals@[i] <= 19 * 255,
            forall|i: int| 0 <= i < j ==> !bank_bad(players@, *bank, #[trigger] Resource::at_index(i)),
        decreases 5 - j,
    {
        let v = bank.get_at(j);
        let pv = totals[j];
        if v > 19 || v < 0 || pv + v as i32 != 19 {
            proof {
                lemma_first_bad_bank_skip(players@, *bank, j as int);
            }
            proof {
                lemma_coherence_ok(players@, *bank);
            }
            return Err(Incoherence::BankHolding { resource: Resource::from_index(j), bank: v, players: pv });
        }
        j = j + 1;
    }
    proof {
        lemma_first_bad_bank_skip(players@, *bank, 5);
    }
    Ok(())
}

} // verus!
