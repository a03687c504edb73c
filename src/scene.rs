use vstd::prelude::*;

verus! {

/// `hits[i]` is the nearest hit of `hits`: it is a hit, no other hit is
/// nearer, and every hit before it is strictly farther.
pub open spec fn is_nearest(hits: Seq<Option<u64>>, i: int) -> bool {
    &&& 0 <= i < hits.len()
    &&& hits[i] is Some
    &&& forall|j: int| 0 <= j < hits.len() && hits[j] is Some ==> hits[i]->0 <= #[trigger] hits[j]->0
    &&& forall|j: int| 0 <= j < i && hits[j] is Some ==> hits[i]->0 < #[trigger] hits[j]->0
}

/// Picks the nearest of the primitives' hits, given as order keys of their
/// distances (`None` for a primitive that was missed). Among equal nearest
/// distances the first in traversal order wins.
pub fn nearest_hit(hits: &Vec<Option<u64>>) -> (r: Option<usize>)
    ensures
        r matches Some(i) ==> is_nearest(hits@, i as int),
        r is None <==> forall|j: int| 0 <= j < hits@.len() ==> #[trigger] hits@[j] is None,
{
    let mut best: Option<usize> = None;
    let mut closest_so_far: u64 = 0;
    let mut i: usize = 0;
    while i < hits.len()
        invariant
            0 <= i <= hits@.len(),
            best matches Some(b) ==> b < i && hits@[b as int] == Some(closest_so_far) && is_nearest(
                hits@.subrange(0, i as int),
                b as int,
            ),
            best is None ==> forall|j: int| 0 <= j < i ==> #[trigger] hits@[j] is None,
        decreases hits@.len() - i,
    {
        match hits[i] {
            Some(t) => {
                if best.is_none() || t < closest_so_far {
                    best = Some(i);
                    closest_so_far = t;
                }
            },
            None => {},
        }
        i = i + 1;
    }
    proof {
        assert(hits@.subrange(0, hits@.len() as int) =~= hits@);
    }
    best
}

/// At most one primitive is the nearest hit: a strictly nearer hit wins, and
/// of equally near hits only the first in traversal order.
pub proof fn lemma_nearest_unique(hits: Seq<Option<u64>>, i: int, j: int)
    requires
        is_nearest(hits, i),
        is_nearest(hits, j),
    ensures
        i == j,
{
    if i < j {
        assert(hits[j]->0 < hits[i]->0);
        assert(hits[i]->0 <= hits[j]->0);
    } else if j < i {
        assert(hits[i]->0 < hits[j]->0);
        assert(hits[j]->0 <= hits[i]->0);
    }
}

} // verus!
