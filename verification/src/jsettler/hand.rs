use vstd::prelude::*;
use crate::jsettler::settle::{
    counts_of, positive_part, settle, settled, total, lemma_settled_keeps_total,
    lemma_settled_keeps_nonnegative,
};
use crate::utils::development_card::DevelopmentCards;
use crate::utils::resource::Resources;

verus! {

/// The counts of a bundle of resources, in the order of `Resource::ALL`.
pub open spec fn resource_counts(r: Resources) -> Seq<int> {
    seq![r.brick as int, r.lumber as int, r.ore as int, r.grain as int, r.wool as int]
}

/// The counts of development cards, in the order of `DevelopmentCard::ALL`.
pub open spec fn card_counts(c: DevelopmentCards) -> Seq<int> {
    seq![
        c.knight as int,
        c.road_building as int,
        c.year_of_plenty as int,
        c.monopole as int,
        c.victory_point as int,
    ]
}

/// A hand of resources once its negative counts are paid for by its positive
/// ones.
pub open spec fn settled_resources(r: Resources) -> Resources {
    let s = settled(resource_counts(r));
    Resources::spec_new(s[0], s[1], s[2], s[3], s[4])
}

/// Development cards once their negative counts are paid for by the positive
/// ones.
pub open spec fn settled_cards(c: DevelopmentCards) -> DevelopmentCards {
    let s = settled(card_counts(c));
    DevelopmentCards {
        knight: s[0] as i8,
        road_building: s[1] as i8,
        year_of_plenty: s[2] as i8,
        monopole: s[3] as i8,
        victory_point: s[4] as i8,
    }
}

proof fn lemma_settled_fits(counts: Seq<int>)
    requires
        counts.len() == 5,
        forall|i: int| 0 <= i < 5 ==> i8::MIN <= #[trigger] counts[i] <= i8::MAX,
    ensures
        forall|i: int| 0 <= i < 5 ==> 0 <= #[trigger] settled(counts)[i] <= positive_part(counts[i]),
{
}

/// Sets the negative counts of a hand to zero and takes what they fell short
/// from the positive counts, brick first, then lumber, ore, grain and wool.
///
/// JSettlers reports the size of a hand exactly but not always what it is
/// made of, so a guessed hand can go below zero on one resource.
pub fn resolve_hand(resources: &mut Resources)
    requires
        old(resources).brick != i8::MIN,
        old(resources).lumber != i8::MIN,
        old(resources).ore != i8::MIN,
        old(resources).grain != i8::MIN,
        old(resources).wool != i8::MIN,
    ensures
        *final(resources) == settled_resources(*old(resources)),
{
    let mut v: Vec<i8> = Vec::new();
    v.push(resources.brick);
    v.push(resources.lumber);
    v.push(resources.ore);
    v.push(resources.grain);
    v.push(resources.wool);
    proof {
        assert(counts_of(v@) =~= resource_counts(*resources));
    }
    settle(&mut v);
    proof {
        lemma_settled_fits(resource_counts(*old(resources)));
    }
    resources.brick = v[0];
    resources.lumber = v[1];
    resources.ore = v[2];
    resources.grain = v[3];
    resources.wool = v[4];
}

/// Sets the negative counts of development cards to zero and takes what they
/// fell short from the positive counts, in the order of `DevelopmentCard::ALL`.
pub fn resolve_development_cards(cards: &mut DevelopmentCards)
    ensures
        *final(cards) == settled_cards(*old(cards)),
{
    let mut v: Vec<i8> = Vec::new();
    v.push(cards.knight);
    v.push(cards.road_building);
    v.push(cards.year_of_plenty);
    v.push(cards.monopole);
    v.push(cards.victory_point);
    proof {
        assert(counts_of(v@) =~= card_counts(*cards));
    }
    settle(&mut v);
    proof {
        lemma_settled_fits(card_counts(*old(cards)));
    }
    cards.knight = v[0];
    cards.road_building = v[1];
    cards.year_of_plenty = v[2];
    cards.monopole = v[3];
    cards.victory_point = v[4];
}

proof fn lemma_total_of_five(counts: Seq<int>)
    requires
        counts.len() == 5,
    ensures
        total(counts) == counts[0] + counts[1] + counts[2] + counts[3] + counts[4],
{
    reveal_with_fuel(total, 6);
    assert(counts.drop_last().drop_last().drop_last().drop_last().drop_last() =~= Seq::<int>::empty());
}

/// Resolving a hand whose size is not negative keeps its size and leaves no
/// count below zero.
pub proof fn lemma_resolve_hand_keeps_size(r: Resources)
    requires
        r.sum() >= 0,
    ensures
        settled_resources(r).sum() == r.sum(),
        settled_resources(r).brick >= 0,
        settled_resources(r).lumber >= 0,
        settled_resources(r).ore >= 0,
        settled_resources(r).grain >= 0,
        settled_resources(r).wool >= 0,
{
    let c = resource_counts(r);
    lemma_total_of_five(c);
    lemma_settled_keeps_total(c);
    lemma_total_of_five(settled(c));
    lemma_settled_fits(c);
    assert(settled(c)[0] >= 0 && settled(c)[1] >= 0 && settled(c)[2] >= 0);
    assert(settled(c)[3] >= 0 && settled(c)[4] >= 0);
}

/// Resolving a hand with no negative count leaves it as it is.
pub proof fn lemma_resolve_hand_keeps_a_valid_hand(r: Resources)
    requires
        r.brick >= 0,
        r.lumber >= 0,
        r.ore >= 0,
        r.grain >= 0,
        r.wool >= 0,
    ensures
        settled_resources(r) == r,
{
    lemma_settled_keeps_nonnegative(resource_counts(r));
}

/// Resolving development cards whose total is not negative keeps the total
/// and leaves no count below zero.
pub proof fn lemma_resolve_cards_keeps_total(c: DevelopmentCards)
    requires
        c.sum() >= 0,
    ensures
        settled_cards(c).sum() == c.sum(),
        settled_cards(c).knight >= 0,
        settled_cards(c).road_building >= 0,
        settled_cards(c).year_of_plenty >= 0,
        settled_cards(c).monopole >= 0,
        settled_cards(c).victory_point >= 0,
{
    let s = card_counts(c);
    lemma_total_of_five(s);
    lemma_settled_keeps_total(s);
    lemma_total_of_five(settled(s));
    lemma_settled_fits(s);
    assert(settled(s)[0] >= 0 && settled(s)[1] >= 0 && settled(s)[2] >= 0);
    assert(settled(s)[3] >= 0 && settled(s)[4] >= 0);
}

} // verus!
