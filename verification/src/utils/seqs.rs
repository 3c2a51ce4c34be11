use vstd::prelude::*;

verus! {

/// The blocks of `s` laid end to end.
pub open spec fn concat<A>(s: Seq<Seq<A>>) -> Seq<A>
    decreases s.len(),
{
    if s.len() == 0 {
        Seq::empty()
    } else {
        concat(s.drop_last()) + s.last()
    }
}

/// Adding one more block at the end of a family of blocks adds it at the end of their concatenation.
pub proof fn lemma_concat_new_succ<A>(n: nat, f: spec_fn(int) -> Seq<A>)
    ensures
        concat(Seq::new(n + 1, f)) == concat(Seq::new(n, f)) + f(n as int),
{
    assert(Seq::new(n + 1, f).drop_last() =~= Seq::new(n, f));
}

/// What holds of every item of every block holds of every item of their
/// concatenation.
pub proof fn lemma_concat_forall<A>(s: Seq<Seq<A>>, p: spec_fn(A) -> bool)
    requires
        forall|i: int, j: int| 0 <= i < s.len() && 0 <= j < s[i].len() ==> p(#[trigger] s[i][j]),
    ensures
        forall|k: int| 0 <= k < concat(s).len() ==> p(#[trigger] concat(s)[k]),
    decreases s.len(),
{
    if s.len() > 0 {
        let rest = s.drop_last();
        assert forall|i: int, j: int| 0 <= i < rest.len() && 0 <= j < rest[i].len() implies p(#[trigger] rest[i][j]) by {
            assert(rest[i] == s[i]);
        }
        lemma_concat_forall(rest, p);
        assert forall|k: int| 0 <= k < concat(s).len() implies p(#[trigger] concat(s)[k]) by {
            if k < concat(rest).len() {
                assert(concat(s)[k] == concat(rest)[k]);
            } else {
                let j = k - concat(rest).len();
                assert(concat(s)[k] == s[s.len() - 1][j]);
            }
        }
    }
}

/// Concatenating two families of blocks one after the other concatenates
/// their concatenations.
pub proof fn lemma_concat_append<A>(a: Seq<Seq<A>>, b: Seq<Seq<A>>)
    ensures
        concat(a + b) == concat(a) + concat(b),
    decreases b.len(),
{
    if b.len() == 0 {
        assert(a + b =~= a);
        assert(concat(a) + concat(b) =~= concat(a));
    } else {
        lemma_concat_append(a, b.drop_last());
        assert((a + b).drop_last() =~= a + b.drop_last());
        assert(concat(a) + (concat(b.drop_last()) + b.last()) =~= (concat(a) + concat(b.drop_last())) + b.last());
    }
}

/// Mapping the items of a concatenation maps the items of each block.
pub proof fn lemma_concat_map<A, B>(s: Seq<Seq<A>>, f: spec_fn(A) -> B)
    ensures
        concat(s).map_values(f) == concat(s.map_values(|x: Seq<A>| x.map_values(f))),
    decreases s.len(),
{
    let g = |x: Seq<A>| x.map_values(f);
    if s.len() == 0 {
        assert(concat(s).map_values(f) =~= Seq::<B>::empty());
        assert(s.map_values(g) =~= Seq::<Seq<B>>::empty());
    } else {
        lemma_concat_map(s.drop_last(), f);
        assert(s.map_values(g).drop_last() =~= s.drop_last().map_values(g));
        assert((concat(s.drop_last()) + s.last()).map_values(f) =~= concat(s.drop_last()).map_values(f)
            + s.last().map_values(f));
    }
}

/// Replacing each item of a concatenation by a block and concatenating is
/// doing so block by block.
pub proof fn lemma_concat_flat_map<A, B>(s: Seq<Seq<A>>, h: spec_fn(A) -> Seq<B>)
    ensures
        concat(concat(s).map_values(h)) == concat(s.map_values(|x: Seq<A>| concat(x.map_values(h)))),
    decreases s.len(),
{
    let g = |x: Seq<A>| concat(x.map_values(h));
    if s.len() == 0 {
        assert(concat(s).map_values(h) =~= Seq::<Seq<B>>::empty());
        assert(s.map_values(g) =~= Seq::<Seq<B>>::empty());
    } else {
        let rest = s.drop_last();
        lemma_concat_flat_map(rest, h);
        assert((concat(rest) + s.last()).map_values(h) =~= concat(rest).map_values(h) + s.last().map_values(h));
        lemma_concat_append(concat(rest).map_values(h), s.last().map_values(h));
        assert(s.map_values(g).drop_last() =~= rest.map_values(g));
    }
}

/// An item of one block is an item of the concatenation.
pub proof fn lemma_concat_contains<A>(s: Seq<Seq<A>>, i: int, x: A)
    requires
        0 <= i < s.len(),
        s[i].contains(x),
    ensures
        concat(s).contains(x),
    decreases s.len(),
{
    let j = choose|j: int| 0 <= j < s[i].len() && s[i][j] == x;
    if i == s.len() - 1 {
        assert(concat(s)[concat(s.drop_last()).len() + j] == x);
    } else {
        assert(s.drop_last()[i] == s[i]);
        lemma_concat_contains(s.drop_last(), i, x);
        let k = choose|k: int| 0 <= k < concat(s.drop_last()).len() && concat(s.drop_last())[k] == x;
        assert(concat(s)[k] == x);
    }
}

} // verus!
